use vstd::prelude::*;
use vstd::slice::{slice_index_get, slice_subrange, slice_to_vec};

verus! {

/// The platform's native single-signature verification facility, identified
/// by the program key an instruction must target.
pub const ED25519_PROGRAM_ID: [u8; 32] = [
    3, 125, 70, 214, 124, 147, 251, 190, 18, 249, 66, 143, 131, 141, 64, 255, 5, 112, 116, 73, 39,
    244, 138, 100, 252, 202, 112, 68, 128, 0, 0, 0,
];

/// The slice of a transaction instruction that the settlement core reads:
/// the program it targets, how many auxiliary accounts it declares, and its
/// raw data bytes.
#[derive(Clone, Debug, PartialEq, Eq)]
pub struct Instruction {
    pub program_id: Vec<u8>,
    pub num_accounts: usize,
    pub data: Vec<u8>,
}

/// Mathematical image of [`Instruction`].
pub struct InstructionV {
    pub program_id: Seq<u8>,
    pub num_accounts: int,
    pub data: Seq<u8>,
}

impl View for Instruction {
    type V = InstructionV;

    open spec fn view(&self) -> InstructionV {
        InstructionV {
            program_id: self.program_id@,
            num_accounts: self.num_accounts as int,
            data: self.data@,
        }
    }
}

/// Structural validity of a signature-verification instruction.
///
/// The instruction must target the native verification program, declare no
/// auxiliary accounts, and encode exactly one signature entry whose
/// redirection offsets are all left at their defaults, so that signature,
/// public key and message are taken from this instruction's own data:
/// - byte 0: number of signatures, exactly 1;
/// - byte 1: padding, zero;
/// - bytes 4..6: signature instruction index, sentinel `0xFFFF`;
/// - bytes 6..8: public key offset, exactly 16 (little endian);
/// - bytes 8..10: public key instruction index, sentinel;
/// - bytes 14..16: message instruction index, sentinel.
///
/// The single-signature layout places the 32-byte public key at offset 16
/// and the 64-byte signature right after it, so the signed message begins at
/// byte 112; data shorter than that carries no message and is malformed.
pub open spec fn valid_ed25519_ix(ix: InstructionV) -> bool {
    &&& ix.program_id == ED25519_PROGRAM_ID@
    &&& ix.num_accounts == 0
    &&& ix.data.len() >= 112
    &&& ix.data[0] == 1u8
    &&& ix.data[1] == 0u8
    &&& ix.data[4] == 0xffu8
    &&& ix.data[5] == 0xffu8
    &&& ix.data[6] == 16u8
    &&& ix.data[7] == 0u8
    &&& ix.data[8] == 0xffu8
    &&& ix.data[9] == 0xffu8
    &&& ix.data[14] == 0xffu8
    &&& ix.data[15] == 0xffu8
}

/// The public key embedded in a structurally valid signature instruction.
pub open spec fn ix_signer(ix: InstructionV) -> Seq<u8> {
    ix.data.subrange(16, 48)
}

/// The signed order payload: everything past the fixed 112-byte
/// signature/public-key/message header.
pub open spec fn order_payload(ix: InstructionV) -> Seq<u8> {
    ix.data.subrange(112, ix.data.len() as int)
}

/// Byte-string equality.
pub fn bytes_eq(a: &[u8], b: &[u8]) -> (r: bool)
    ensures
        r == (a@ == b@),
{
    if a.len() != b.len() {
        return false;
    }
    let mut i: usize = 0;
    while i < a.len()
        invariant
            i <= a.len(),
            a@.len() == b@.len(),
            forall|j: int| 0 <= j < i ==> a@[j] == b@[j],
        decreases a.len() - i,
    {
        if *slice_index_get(a, i) != *slice_index_get(b, i) {
            assert(a@ != b@);
            return false;
        }
        i += 1;
    }
    assert(a@ =~= b@);
    true
}

/// Decide whether the sibling instruction has the exact shape of a native
/// single-signature verification instruction with no redirected offsets.
/// Pure predicate: any deviation yields `false`.
pub fn validate_ed25519_ix(ix: &Instruction) -> (r: bool)
    ensures
        r == valid_ed25519_ix(ix@),
{
    if !bytes_eq(ix.program_id.as_slice(), ED25519_PROGRAM_ID.as_slice()) {
        return false;
    }
    if ix.num_accounts != 0 {
        return false;
    }
    if ix.data.len() < 112 {
        return false;
    }
    let d = ix.data.as_slice();
    *slice_index_get(d, 0) == 1 && *slice_index_get(d, 1) == 0 && *slice_index_get(d, 4) == 0xff
        && *slice_index_get(d, 5) == 0xff && *slice_index_get(d, 6) == 16 && *slice_index_get(
        d,
        7,
    ) == 0 && *slice_index_get(d, 8) == 0xff && *slice_index_get(d, 9) == 0xff && *slice_index_get(
        d,
        14,
    ) == 0xff && *slice_index_get(d, 15) == 0xff
}

/// Copy the embedded public key (bytes 16..48) out of a validated signature
/// instruction.
pub fn extract_signer(ix: &Instruction) -> (r: Vec<u8>)
    requires
        valid_ed25519_ix(ix@),
    ensures
        r@ == ix_signer(ix@),
{
    slice_to_vec(slice_subrange(ix.data.as_slice(), 16, 48))
}

/// Copy the signed order payload (bytes 112 onward) out of a validated
/// signature instruction.
pub fn extract_order_payload(ix: &Instruction) -> (r: Vec<u8>)
    requires
        valid_ed25519_ix(ix@),
    ensures
        r@ == order_payload(ix@),
{
    slice_to_vec(slice_subrange(ix.data.as_slice(), 112, ix.data.len()))
}

} // verus!
