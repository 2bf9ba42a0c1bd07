//! Nonce ledger: the exactly-once boundary of the settlement protocol.
//!
//! The host chain keeps one record per consumed nonce at an address derived
//! from the nonce alone, and record creation is atomic: of any set of
//! concurrent settlement attempts with the same nonce, at most one can
//! create the record. This module models that claim table as the set of
//! consumed nonces, and composes it with the per-record settlement
//! transitions into whole-transaction operations: a failed attempt commits
//! nothing, a successful one commits the transfer, the nonce consumption
//! and the event together.

use vstd::prelude::*;

use crate::errors::ErrorCode;
use crate::order::{ArgsV, OrderV, SettleOrderPaymentArgs};
use crate::settle::{
    buyer_settlee, seller_settle, settle_guard, transfer_ok, NewSettleEvent,
};
use crate::sigproof::{valid_ed25519_ix, validate_ed25519_ix, Instruction, InstructionV};
use crate::state::{GlobalState, NonceAccount, TokenAccount};

verus! {

/// The set of nonces ever consumed, in order of consumption. Records are
/// only ever added, never removed: a consumed nonce stays consumed for the
/// lifetime of the ledger.
pub struct NonceLedger {
    used: Vec<u128>,
}

impl NonceLedger {
    /// The nonces consumed so far.
    pub closed spec fn consumed(self) -> Set<u128> {
        self.used@.to_set()
    }

    /// An empty ledger: no nonce consumed yet.
    pub fn new() -> (r: NonceLedger)
        ensures
            r.consumed() == Set::<u128>::empty(),
    {
        let r = NonceLedger { used: Vec::new() };
        proof {
            assert(r.consumed() =~= Set::<u128>::empty());
        }
        r
    }

    /// Whether a record for `nonce` already exists.
    pub fn is_consumed(&self, nonce: u128) -> (r: bool)
        ensures
            r == self.consumed().contains(nonce),
    {
        let mut i: usize = 0;
        while i < self.used.len()
            invariant
                i <= self.used@.len(),
                forall|j: int| 0 <= j < i ==> self.used@[j] != nonce,
            decreases self.used@.len() - i,
        {
            if self.used[i] == nonce {
                assert(self.used@.contains(nonce));
                return true;
            }
            i += 1;
        }
        assert(!self.used@.contains(nonce));
        false
    }

    fn record(&mut self, nonce: u128)
        ensures
            final(self).consumed() == old(self).consumed().insert(nonce),
    {
        self.used.push(nonce);
        proof {
            assert(self.used@ =~= old(self).used@ + seq![nonce]);
            Seq::lemma_to_set_insert_commutes(old(self).used@, nonce);
        }
    }
}

/// The precondition cascade of a whole settlement transaction: structural
/// proof validation first, then global nonce uniqueness against the ledger,
/// then the remaining guards over a freshly created (zeroed) nonce record.
pub open spec fn settle_tx_guard(
    signer: Seq<u8>,
    used: Set<u128>,
    ix: InstructionV,
    args: ArgsV,
) -> Result<OrderV, ErrorCode> {
    if !valid_ed25519_ix(ix) {
        Err(ErrorCode::InstructionMissing)
    } else if used.contains(args.nonce) {
        Err(ErrorCode::IdlAccountNotEmpty)
    } else {
        settle_guard(signer, 0, ix, args)
    }
}

/// Exactly-once consumption: once a nonce is in the consumed set, every
/// later attempt naming it — whatever its order id, token, direction or
/// signature — is rejected with `IdlAccountNotEmpty`. The nonce space is
/// global, not scoped per order or per token.
pub proof fn lemma_consumed_nonce_excluded(
    signer: Seq<u8>,
    used: Set<u128>,
    ix: InstructionV,
    args: ArgsV,
)
    requires
        valid_ed25519_ix(ix),
        used.contains(args.nonce),
    ensures
        settle_tx_guard(signer, used, ix, args) == Err::<OrderV, ErrorCode>(
            ErrorCode::IdlAccountNotEmpty,
        ),
{
}

/// One whole seller-settlement transaction against the ledger: on success
/// the deposit commits and `ix_args.nonce` is consumed; on any failure
/// nothing at all changes. The nonce space is global — a consumed nonce is
/// rejected whatever order or token it is resubmitted with.
pub fn seller_settle_tx(
    global_state: &GlobalState,
    ledger: &mut NonceLedger,
    customer_account_ata: &mut TokenAccount,
    stake_account_ata: &mut TokenAccount,
    prev_ix: &Instruction,
    ix_args: &SettleOrderPaymentArgs,
    timestamp: i64,
) -> (r: Result<NewSettleEvent, ErrorCode>)
    ensures
        match settle_tx_guard(global_state.signer@, old(ledger).consumed(), prev_ix@, ix_args@) {
            Result::Err(e) => {
                &&& r is Err
                &&& r->Err_0 == e
                &&& final(ledger).consumed() == old(ledger).consumed()
                &&& *final(customer_account_ata) == *old(customer_account_ata)
                &&& *final(stake_account_ata) == *old(stake_account_ata)
            },
            Result::Ok(order) => if transfer_ok(
                old(customer_account_ata).amount,
                old(stake_account_ata).amount,
                order.settle_amount,
            ) {
                &&& r is Ok
                &&& r->Ok_0@ == crate::settle::settle_event(ix_args@, order, timestamp)
                &&& final(customer_account_ata).amount == old(customer_account_ata).amount
                    - order.settle_amount
                &&& final(stake_account_ata).amount == old(stake_account_ata).amount
                    + order.settle_amount
                &&& final(ledger).consumed() == old(ledger).consumed().insert(ix_args.nonce)
            } else {
                &&& r is Err
                &&& r->Err_0 == ErrorCode::TransferFailed
                &&& final(ledger).consumed() == old(ledger).consumed()
                &&& *final(customer_account_ata) == *old(customer_account_ata)
                &&& *final(stake_account_ata) == *old(stake_account_ata)
            },
        },
        final(stake_account_ata).amount >= old(stake_account_ata).amount,
{
    if !validate_ed25519_ix(prev_ix) {
        return Err(ErrorCode::InstructionMissing);
    }
    if ledger.is_consumed(ix_args.nonce) {
        return Err(ErrorCode::IdlAccountNotEmpty);
    }
    let mut nonce_account = NonceAccount { nonce: 0 };
    match seller_settle(
        global_state,
        &mut nonce_account,
        customer_account_ata,
        stake_account_ata,
        prev_ix,
        ix_args,
        timestamp,
    ) {
        Ok(ev) => {
            ledger.record(ix_args.nonce);
            Ok(ev)
        },
        Err(e) => Err(e),
    }
}

/// One whole buyer-settlement transaction against the ledger: on success
/// the release commits and `ix_args.nonce` is consumed; on any failure
/// nothing at all changes.
pub fn buyer_settle_tx(
    global_state: &GlobalState,
    ledger: &mut NonceLedger,
    customer_account_ata: &mut TokenAccount,
    stake_account_ata: &mut TokenAccount,
    prev_ix: &Instruction,
    ix_args: &SettleOrderPaymentArgs,
    timestamp: i64,
) -> (r: Result<NewSettleEvent, ErrorCode>)
    ensures
        match settle_tx_guard(global_state.signer@, old(ledger).consumed(), prev_ix@, ix_args@) {
            Result::Err(e) => {
                &&& r is Err
                &&& r->Err_0 == e
                &&& final(ledger).consumed() == old(ledger).consumed()
                &&& *final(customer_account_ata) == *old(customer_account_ata)
                &&& *final(stake_account_ata) == *old(stake_account_ata)
            },
            Result::Ok(order) => if transfer_ok(
                old(stake_account_ata).amount,
                old(customer_account_ata).amount,
                order.settle_amount,
            ) {
                &&& r is Ok
                &&& r->Ok_0@ == crate::settle::settle_event(ix_args@, order, timestamp)
                &&& final(stake_account_ata).amount == old(stake_account_ata).amount
                    - order.settle_amount
                &&& final(customer_account_ata).amount == old(customer_account_ata).amount
                    + order.settle_amount
                &&& final(ledger).consumed() == old(ledger).consumed().insert(ix_args.nonce)
            } else {
                &&& r is Err
                &&& r->Err_0 == ErrorCode::TransferFailed
                &&& final(ledger).consumed() == old(ledger).consumed()
                &&& *final(customer_account_ata) == *old(customer_account_ata)
                &&& *final(stake_account_ata) == *old(stake_account_ata)
            },
        },
        final(customer_account_ata).amount >= old(customer_account_ata).amount,
{
    if !validate_ed25519_ix(prev_ix) {
        return Err(ErrorCode::InstructionMissing);
    }
    if ledger.is_consumed(ix_args.nonce) {
        return Err(ErrorCode::IdlAccountNotEmpty);
    }
    let mut nonce_account = NonceAccount { nonce: 0 };
    match buyer_settlee(
        global_state,
        &mut nonce_account,
        customer_account_ata,
        stake_account_ata,
        prev_ix,
        ix_args,
        timestamp,
    ) {
        Ok(ev) => {
            ledger.record(ix_args.nonce);
            Ok(ev)
        },
        Err(e) => Err(e),
    }
}

} // verus!
