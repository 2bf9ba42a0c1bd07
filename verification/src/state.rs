use vstd::prelude::*;

use crate::errors::ErrorCode;
use crate::order::RegisterTokenArgs;

verus! {

/// System-wide configuration record. `signer` is the sole public key whose
/// signature over a settlement order the core accepts.
#[derive(Clone, Debug, PartialEq, Eq)]
pub struct GlobalState {
    pub signer: Vec<u8>,
    pub fee_account: Vec<u8>,
    pub pledge_rate: u128,
    pub cancel_rate: u128,
    pub blackout_rate: u128,
}

/// One persistent record per consumed nonce. A freshly created record holds
/// zero; writing the real nonce value finalizes consumption, and the record
/// is never mutated again.
#[derive(Clone, Copy, Debug, PartialEq, Eq, Structural)]
pub struct NonceAccount {
    pub nonce: u128,
}

/// Registry entry for a tradable asset, created once by the authority.
#[derive(Clone, Debug, PartialEq, Eq)]
pub struct TokenRegister {
    pub token_name: Vec<u8>,
    pub token_mint_account: Vec<u8>,
    pub settle_time: u64,
    pub settle_duration: u64,
}

/// Custodial token balance: the slice of an account's state the settlement
/// logic reads and writes.
#[derive(Clone, Copy, Debug, PartialEq, Eq, Structural)]
pub struct TokenAccount {
    pub amount: u64,
}

/// Bootstrap the global configuration with its initial authorized signer.
/// The remaining fields start zeroed, as a freshly allocated record does.
pub fn initialize(signer: Vec<u8>) -> (r: GlobalState)
    ensures
        r.signer@ == signer@,
        r.fee_account@ == Seq::<u8>::empty(),
        r.pledge_rate == 0u128,
        r.cancel_rate == 0u128,
        r.blackout_rate == 0u128,
{
    GlobalState {
        signer,
        fee_account: Vec::new(),
        pledge_rate: 0,
        cancel_rate: 0,
        blackout_rate: 0,
    }
}

/// Rotate the authorized signer. Only the current signer may do so; any
/// other caller is rejected and the configuration is left untouched.
pub fn update_signer(global_state: &mut GlobalState, payer: &Vec<u8>, signer: Vec<u8>) -> (r:
    Result<(), ErrorCode>)
    ensures
        old(global_state).signer@ == payer@ ==> {
            &&& r is Ok
            &&& final(global_state).signer@ == signer@
        },
        old(global_state).signer@ != payer@ ==> {
            &&& r is Err
            &&& r->Err_0 == ErrorCode::ConstraintSigner
            &&& final(global_state).signer@ == old(global_state).signer@
        },
        final(global_state).fee_account@ == old(global_state).fee_account@,
        final(global_state).pledge_rate == old(global_state).pledge_rate,
        final(global_state).cancel_rate == old(global_state).cancel_rate,
        final(global_state).blackout_rate == old(global_state).blackout_rate,
{
    if !crate::sigproof::bytes_eq(global_state.signer.as_slice(), payer.as_slice()) {
        return Err(ErrorCode::ConstraintSigner);
    }
    global_state.signer = signer;
    Ok(())
}

/// Register a tradable asset. Only the current signer may list a token; the
/// created registry entry copies the supplied arguments verbatim.
pub fn list_token(global_state: &GlobalState, payer: &Vec<u8>, ix_args: RegisterTokenArgs) -> (r:
    Result<TokenRegister, ErrorCode>)
    ensures
        global_state.signer@ == payer@ ==> {
            &&& r is Ok
            &&& r->Ok_0.token_name@ == ix_args.token_name@
            &&& r->Ok_0.token_mint_account@ == ix_args.token_mint_account@
            &&& r->Ok_0.settle_time == ix_args.settle_time
            &&& r->Ok_0.settle_duration == ix_args.settle_duration
        },
        global_state.signer@ != payer@ ==> {
            &&& r is Err
            &&& r->Err_0 == ErrorCode::ConstraintSigner
        },
{
    if !crate::sigproof::bytes_eq(global_state.signer.as_slice(), payer.as_slice()) {
        return Err(ErrorCode::ConstraintSigner);
    }
    Ok(TokenRegister {
        token_name: ix_args.token_name,
        token_mint_account: ix_args.token_mint_account,
        settle_time: ix_args.settle_time,
        settle_duration: ix_args.settle_duration,
    })
}

} // verus!
