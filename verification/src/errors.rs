use vstd::prelude::*;

verus! {

/// Failure kinds surfaced by the settlement protocol.
#[derive(Clone, Copy, Debug, PartialEq, Eq, Structural)]
pub enum ErrorCode {
    /// Authorization mismatch: the embedded proof's signer differs from the
    /// current authorized signer, the decoded order disagrees with the
    /// caller-supplied arguments, or a privileged configuration change was
    /// attempted by someone other than the current signer.
    ConstraintSigner,
    /// The signature proof is structurally invalid or absent, or the order
    /// payload cannot be decoded.
    InstructionMissing,
    /// The supplied nonce has already been consumed (replay attempt).
    IdlAccountNotEmpty,
    /// The token-transfer capability rejected the movement (insufficient
    /// source balance or destination overflow); the whole call aborts with
    /// no state change.
    TransferFailed,
}

} // verus!
