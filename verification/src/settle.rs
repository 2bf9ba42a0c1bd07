//! Settlement executor: the two directional settlement transitions.
//!
//! Both directions run the same guard cascade, in order, first failure
//! aborting the whole call with no state change: structural validation of
//! the sibling signature instruction, nonce freshness, signer authorization,
//! payload decoding, and argument/payload consistency. On success exactly
//! `settle_amount` moves between the customer account and the escrow
//! account, the nonce record is finalized, and an audit event is produced.

use vstd::prelude::*;
use vstd::slice::slice_to_vec;

use crate::codec::{deserialize_order, parse_order};
use crate::errors::ErrorCode;
use crate::order::{ArgsV, OrderV, SettleOrderPaymentArgs};
use crate::sigproof::{
    bytes_eq, extract_order_payload, extract_signer, ix_signer, order_payload, valid_ed25519_ix,
    validate_ed25519_ix, Instruction, InstructionV,
};
use crate::state::{GlobalState, NonceAccount, TokenAccount};

verus! {

/// Audit record of one successful settlement, timestamped with the current
/// ledger time; the host appends it to the chain's event log.
#[derive(Clone, Debug, PartialEq, Eq)]
pub struct NewSettleEvent {
    pub order_id: u128,
    pub user_account: Vec<u8>,
    pub nonce: u128,
    pub settle_amount: u64,
    pub side: Vec<u8>,
    pub token: Vec<u8>,
    pub timestamp: i64,
    pub order_ids: Vec<u128>,
    pub sellet_amounts: Vec<u128>,
}

/// Mathematical image of [`NewSettleEvent`].
pub struct EventV {
    pub order_id: u128,
    pub user_account: Seq<u8>,
    pub nonce: u128,
    pub settle_amount: u64,
    pub side: Seq<u8>,
    pub token: Seq<u8>,
    pub timestamp: i64,
    pub order_ids: Seq<u128>,
    pub sellet_amounts: Seq<u128>,
}

impl View for NewSettleEvent {
    type V = EventV;

    open spec fn view(&self) -> EventV {
        EventV {
            order_id: self.order_id,
            user_account: self.user_account@,
            nonce: self.nonce,
            settle_amount: self.settle_amount,
            side: self.side@,
            token: self.token@,
            timestamp: self.timestamp,
            order_ids: self.order_ids@,
            sellet_amounts: self.sellet_amounts@,
        }
    }
}

/// Whether moving `amount` from a balance of `from` to a balance of `to`
/// can succeed: enough funds at the source, no overflow at the destination.
pub open spec fn transfer_ok(from: u64, to: u64, amount: u64) -> bool {
    amount <= from && to + amount <= u64::MAX
}

/// The common precondition cascade of both settlement directions, checked
/// in order against the current authorized signer, the stored nonce value,
/// the sibling instruction and the caller's arguments. Returns the decoded
/// order when every check passes, and the exact failure otherwise.
pub open spec fn settle_guard(signer: Seq<u8>, nonce0: u128, ix: InstructionV, args: ArgsV) -> Result<
    OrderV,
    ErrorCode,
> {
    if !valid_ed25519_ix(ix) {
        Err(ErrorCode::InstructionMissing)
    } else if nonce0 > 0 {
        Err(ErrorCode::IdlAccountNotEmpty)
    } else if ix_signer(ix) != signer {
        Err(ErrorCode::ConstraintSigner)
    } else {
        match parse_order(order_payload(ix)) {
            Option::None => Err(ErrorCode::InstructionMissing),
            Option::Some(o) => if o.order_id != args.order_id || o.token != args.token {
                Err(ErrorCode::ConstraintSigner)
            } else {
                Ok(o)
            },
        }
    }
}

/// The audit event a successful settlement produces: the caller's order id
/// and token, and the signed order's nonce, amount, counterparty, side and
/// constituent sequences.
pub open spec fn settle_event(args: ArgsV, order: OrderV, timestamp: i64) -> EventV {
    EventV {
        order_id: args.order_id,
        user_account: order.customer,
        nonce: order.nonce,
        settle_amount: order.settle_amount,
        side: order.side,
        token: args.token,
        timestamp,
        order_ids: order.order_ids,
        sellet_amounts: order.sellet_amounts,
    }
}

/// The token-transfer capability over custodial balances: moves `amount`
/// from one account to the other, or fails with no effect.
pub fn transfer(from: &mut TokenAccount, to: &mut TokenAccount, amount: u64) -> (r: Result<
    (),
    ErrorCode,
>)
    ensures
        transfer_ok(old(from).amount, old(to).amount, amount) ==> {
            &&& r is Ok
            &&& final(from).amount == old(from).amount - amount
            &&& final(to).amount == old(to).amount + amount
        },
        !transfer_ok(old(from).amount, old(to).amount, amount) ==> {
            &&& r is Err
            &&& r->Err_0 == ErrorCode::TransferFailed
            &&& *final(from) == *old(from)
            &&& *final(to) == *old(to)
        },
{
    if from.amount < amount {
        return Err(ErrorCode::TransferFailed);
    }
    if to.amount > u64::MAX - amount {
        return Err(ErrorCode::TransferFailed);
    }
    from.amount = from.amount - amount;
    to.amount = to.amount + amount;
    Ok(())
}

/// Seller settlement (deposit path): after the guard cascade passes, moves
/// the signed order's `settle_amount` from the customer's account into the
/// platform's escrow account — authorized by the customer's own signature
/// over the enclosing transaction, which the host runtime has already
/// checked. The escrow account is never debited. On any failure every
/// record is left exactly as it was.
pub fn seller_settle(
    global_state: &GlobalState,
    nonce_account: &mut NonceAccount,
    customer_account_ata: &mut TokenAccount,
    stake_account_ata: &mut TokenAccount,
    prev_ix: &Instruction,
    ix_args: &SettleOrderPaymentArgs,
    timestamp: i64,
) -> (r: Result<NewSettleEvent, ErrorCode>)
    ensures
        match settle_guard(global_state.signer@, old(nonce_account).nonce, prev_ix@, ix_args@) {
            Result::Err(e) => {
                &&& r is Err
                &&& r->Err_0 == e
                &&& *final(nonce_account) == *old(nonce_account)
                &&& *final(customer_account_ata) == *old(customer_account_ata)
                &&& *final(stake_account_ata) == *old(stake_account_ata)
            },
            Result::Ok(order) => if transfer_ok(
                old(customer_account_ata).amount,
                old(stake_account_ata).amount,
                order.settle_amount,
            ) {
                &&& r is Ok
                &&& r->Ok_0@ == settle_event(ix_args@, order, timestamp)
                &&& final(customer_account_ata).amount == old(customer_account_ata).amount
                    - order.settle_amount
                &&& final(stake_account_ata).amount == old(stake_account_ata).amount
                    + order.settle_amount
                &&& final(nonce_account).nonce == ix_args.nonce
            } else {
                &&& r is Err
                &&& r->Err_0 == ErrorCode::TransferFailed
                &&& *final(nonce_account) == *old(nonce_account)
                &&& *final(customer_account_ata) == *old(customer_account_ata)
                &&& *final(stake_account_ata) == *old(stake_account_ata)
            },
        },
        final(stake_account_ata).amount >= old(stake_account_ata).amount,
{
    if !validate_ed25519_ix(prev_ix) {
        return Err(ErrorCode::InstructionMissing);
    }
    if nonce_account.nonce > 0 {
        return Err(ErrorCode::IdlAccountNotEmpty);
    }
    let pub_key = extract_signer(prev_ix);
    if !bytes_eq(pub_key.as_slice(), global_state.signer.as_slice()) {
        return Err(ErrorCode::ConstraintSigner);
    }
    let order_data = extract_order_payload(prev_ix);
    let order = match deserialize_order(&order_data) {
        Ok(o) => o,
        Err(_) => {
            return Err(ErrorCode::InstructionMissing);
        },
    };
    if order.order_id != ix_args.order_id || !bytes_eq(
        order.token.as_slice(),
        ix_args.token.as_slice(),
    ) {
        return Err(ErrorCode::ConstraintSigner);
    }
    transfer(customer_account_ata, stake_account_ata, order.settle_amount)?;
    nonce_account.nonce = ix_args.nonce;
    Ok(
        NewSettleEvent {
            order_id: ix_args.order_id,
            user_account: order.customer,
            nonce: order.nonce,
            settle_amount: order.settle_amount,
            side: order.side,
            token: slice_to_vec(ix_args.token.as_slice()),
            timestamp,
            order_ids: order.order_ids,
            sellet_amounts: order.sellet_amounts,
        },
    )
}

/// Buyer settlement (release path): after the guard cascade passes, moves
/// the signed order's `settle_amount` from the platform's escrow account to
/// the customer's account — authorized by the platform's own derived
/// authority, not by any customer signature; the validated order signature
/// chain alone justifies the release. The customer account is never
/// debited. On any failure every record is left exactly as it was.
pub fn buyer_settlee(
    global_state: &GlobalState,
    nonce_account: &mut NonceAccount,
    customer_account_ata: &mut TokenAccount,
    stake_account_ata: &mut TokenAccount,
    prev_ix: &Instruction,
    ix_args: &SettleOrderPaymentArgs,
    timestamp: i64,
) -> (r: Result<NewSettleEvent, ErrorCode>)
    ensures
        match settle_guard(global_state.signer@, old(nonce_account).nonce, prev_ix@, ix_args@) {
            Result::Err(e) => {
                &&& r is Err
                &&& r->Err_0 == e
                &&& *final(nonce_account) == *old(nonce_account)
                &&& *final(customer_account_ata) == *old(customer_account_ata)
                &&& *final(stake_account_ata) == *old(stake_account_ata)
            },
            Result::Ok(order) => if transfer_ok(
                old(stake_account_ata).amount,
                old(customer_account_ata).amount,
                order.settle_amount,
            ) {
                &&& r is Ok
                &&& r->Ok_0@ == settle_event(ix_args@, order, timestamp)
                &&& final(stake_account_ata).amount == old(stake_account_ata).amount
                    - order.settle_amount
                &&& final(customer_account_ata).amount == old(customer_account_ata).amount
                    + order.settle_amount
                &&& final(nonce_account).nonce == ix_args.nonce
            } else {
                &&& r is Err
                &&& r->Err_0 == ErrorCode::TransferFailed
                &&& *final(nonce_account) == *old(nonce_account)
                &&& *final(customer_account_ata) == *old(customer_account_ata)
                &&& *final(stake_account_ata) == *old(stake_account_ata)
            },
        },
        final(customer_account_ata).amount >= old(customer_account_ata).amount,
{
    if !validate_ed25519_ix(prev_ix) {
        return Err(ErrorCode::InstructionMissing);
    }
    if nonce_account.nonce > 0 {
        return Err(ErrorCode::IdlAccountNotEmpty);
    }
    let pub_key = extract_signer(prev_ix);
    if !bytes_eq(pub_key.as_slice(), global_state.signer.as_slice()) {
        return Err(ErrorCode::ConstraintSigner);
    }
    let order_data = extract_order_payload(prev_ix);
    let order = match deserialize_order(&order_data) {
        Ok(o) => o,
        Err(_) => {
            return Err(ErrorCode::InstructionMissing);
        },
    };
    if order.order_id != ix_args.order_id || !bytes_eq(
        order.token.as_slice(),
        ix_args.token.as_slice(),
    ) {
        return Err(ErrorCode::ConstraintSigner);
    }
    transfer(stake_account_ata, customer_account_ata, order.settle_amount)?;
    nonce_account.nonce = ix_args.nonce;
    Ok(
        NewSettleEvent {
            order_id: ix_args.order_id,
            user_account: order.customer,
            nonce: order.nonce,
            settle_amount: order.settle_amount,
            side: order.side,
            token: slice_to_vec(ix_args.token.as_slice()),
            timestamp,
            order_ids: order.order_ids,
            sellet_amounts: order.sellet_amounts,
        },
    )
}

/// Buyer settlement under its instruction-surface name.
pub fn buyer_settle(
    global_state: &GlobalState,
    nonce_account: &mut NonceAccount,
    customer_account_ata: &mut TokenAccount,
    stake_account_ata: &mut TokenAccount,
    prev_ix: &Instruction,
    ix_args: &SettleOrderPaymentArgs,
    timestamp: i64,
) -> (r: Result<NewSettleEvent, ErrorCode>)
    ensures
        match settle_guard(global_state.signer@, old(nonce_account).nonce, prev_ix@, ix_args@) {
            Result::Err(e) => {
                &&& r is Err
                &&& r->Err_0 == e
                &&& *final(nonce_account) == *old(nonce_account)
                &&& *final(customer_account_ata) == *old(customer_account_ata)
                &&& *final(stake_account_ata) == *old(stake_account_ata)
            },
            Result::Ok(order) => if transfer_ok(
                old(stake_account_ata).amount,
                old(customer_account_ata).amount,
                order.settle_amount,
            ) {
                &&& r is Ok
                &&& r->Ok_0@ == settle_event(ix_args@, order, timestamp)
                &&& final(stake_account_ata).amount == old(stake_account_ata).amount
                    - order.settle_amount
                &&& final(customer_account_ata).amount == old(customer_account_ata).amount
                    + order.settle_amount
                &&& final(nonce_account).nonce == ix_args.nonce
            } else {
                &&& r is Err
                &&& r->Err_0 == ErrorCode::TransferFailed
                &&& *final(nonce_account) == *old(nonce_account)
                &&& *final(customer_account_ata) == *old(customer_account_ata)
                &&& *final(stake_account_ata) == *old(stake_account_ata)
            },
        },
        final(customer_account_ata).amount >= old(customer_account_ata).amount,
{
    buyer_settlee(
        global_state,
        nonce_account,
        customer_account_ata,
        stake_account_ata,
        prev_ix,
        ix_args,
        timestamp,
    )
}

/// A structurally valid proof embedding the authorized signer's key, seen
/// with a fresh nonce record, a decodable payload, and caller arguments
/// matching the signed order, passes the whole guard cascade: settlement is
/// owed, for the decoded order.
pub proof fn lemma_fresh_valid_order_accepted(signer: Seq<u8>, ix: InstructionV, args: ArgsV)
    requires
        valid_ed25519_ix(ix),
        ix_signer(ix) == signer,
        parse_order(order_payload(ix)) is Some,
        parse_order(order_payload(ix))->Some_0.order_id == args.order_id,
        parse_order(order_payload(ix))->Some_0.token == args.token,
    ensures
        settle_guard(signer, 0, ix, args) == Ok::<OrderV, ErrorCode>(
            parse_order(order_payload(ix))->Some_0,
        ),
{
}

/// Replaying any tuple whose nonce record is already written — the identical
/// proof and order included — fails with `IdlAccountNotEmpty`, whatever the
/// rest of the input looks like.
pub proof fn lemma_replay_rejected(signer: Seq<u8>, nonce0: u128, ix: InstructionV, args: ArgsV)
    requires
        valid_ed25519_ix(ix),
        nonce0 > 0,
    ensures
        settle_guard(signer, nonce0, ix, args) == Err::<OrderV, ErrorCode>(
            ErrorCode::IdlAccountNotEmpty,
        ),
{
}

/// Altering the caller-supplied `order_id` or `token` away from the signed
/// order, while keeping a validly-signed proof, fails with
/// `ConstraintSigner`.
pub proof fn lemma_tampered_args_rejected(signer: Seq<u8>, ix: InstructionV, args: ArgsV)
    requires
        valid_ed25519_ix(ix),
        ix_signer(ix) == signer,
        parse_order(order_payload(ix)) is Some,
        parse_order(order_payload(ix))->Some_0.order_id != args.order_id || parse_order(
            order_payload(ix),
        )->Some_0.token != args.token,
    ensures
        settle_guard(signer, 0, ix, args) == Err::<OrderV, ErrorCode>(ErrorCode::ConstraintSigner),
{
}

/// A sibling instruction that deviates structurally in any way — a
/// redirected offset field included — is rejected with `InstructionMissing`
/// before anything else is considered.
pub proof fn lemma_malformed_proof_rejected(
    signer: Seq<u8>,
    nonce0: u128,
    ix: InstructionV,
    args: ArgsV,
)
    requires
        !valid_ed25519_ix(ix),
    ensures
        settle_guard(signer, nonce0, ix, args) == Err::<OrderV, ErrorCode>(
            ErrorCode::InstructionMissing,
        ),
{
}

/// After the authorized signer rotates, a proof signed under the old key —
/// however well-formed — is rejected with `ConstraintSigner`.
pub proof fn lemma_stale_signer_rejected(
    old_signer: Seq<u8>,
    new_signer: Seq<u8>,
    ix: InstructionV,
    args: ArgsV,
)
    requires
        valid_ed25519_ix(ix),
        ix_signer(ix) == old_signer,
        old_signer != new_signer,
    ensures
        settle_guard(new_signer, 0, ix, args) == Err::<OrderV, ErrorCode>(
            ErrorCode::ConstraintSigner,
        ),
{
}

} // verus!
