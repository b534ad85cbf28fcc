//! Decisions of the C interface to the proof verifier: the zkVM codes of the
//! interface, its status codes, and when a verified proof's public values
//! are accepted.
use vstd::prelude::*;

verus! {

/// Operation succeeded.
pub const ERE_OK: i32 = 0;

/// A required pointer argument was null.
pub const ERE_ERR_NULL_PTR: i32 = 1;

/// The zkVM code names no zkVM.
pub const ERE_ERR_BAD_KIND: i32 = 2;

/// The program verifying key did not decode.
pub const ERE_ERR_DECODE_PROGRAM_VK: i32 = 3;

/// The proof did not decode.
pub const ERE_ERR_DECODE_PROOF: i32 = 4;

/// The proof failed verification.
pub const ERE_ERR_VERIFY: i32 = 5;

/// The proof verified but its public values are not the expected ones.
pub const ERE_ERR_PUBLIC_VALUES_MISMATCH: i32 = 6;

/// The zkVMs whose proofs the verifier checks.
#[derive(Clone, Copy, Debug, PartialEq, Eq, Structural)]
pub enum zkVMKind {
    Airbender,
    OpenVM,
    Risc0,
    SP1,
    Zisk,
}

/// The code of a zkVM in the interface: its position in the list.
pub open spec fn kind_code(k: zkVMKind) -> u32 {
    match k {
        zkVMKind::Airbender => 0,
        zkVMKind::OpenVM => 1,
        zkVMKind::Risc0 => 2,
        zkVMKind::SP1 => 3,
        zkVMKind::Zisk => 4,
    }
}

/// The zkVM a code names, if any.
pub open spec fn kind_of_code(v: u32) -> Option<zkVMKind> {
    if v == 0 {
        Some(zkVMKind::Airbender)
    } else if v == 1 {
        Some(zkVMKind::OpenVM)
    } else if v == 2 {
        Some(zkVMKind::Risc0)
    } else if v == 3 {
        Some(zkVMKind::SP1)
    } else if v == 4 {
        Some(zkVMKind::Zisk)
    } else {
        None
    }
}

/// The zkVM a code names, if any.
pub fn kind_from_u32(value: u32) -> (r: Option<zkVMKind>)
    ensures
        r == kind_of_code(value),
{
    match value {
        0 => Some(zkVMKind::Airbender),
        1 => Some(zkVMKind::OpenVM),
        2 => Some(zkVMKind::Risc0),
        3 => Some(zkVMKind::SP1),
        4 => Some(zkVMKind::Zisk),
        _ => None,
    }
}

/// The code of a zkVM.
pub fn kind_to_u32(kind: zkVMKind) -> (r: u32)
    ensures
        r == kind_code(kind),
{
    match kind {
        zkVMKind::Airbender => 0,
        zkVMKind::OpenVM => 1,
        zkVMKind::Risc0 => 2,
        zkVMKind::SP1 => 3,
        zkVMKind::Zisk => 4,
    }
}

/// The code reported for a handle: its zkVM's code, or `u32::MAX` for a
/// null handle.
pub fn handle_kind_code(kind: Option<zkVMKind>) -> (r: u32)
    ensures
        r == match kind {
            Some(k) => kind_code(k),
            None => u32::MAX,
        },
{
    match kind {
        Some(k) => kind_to_u32(k),
        None => u32::MAX,
    }
}

/// Whether a `(pointer, length)` pair stands for a byte slice: the empty
/// slice when the length is zero, whatever the pointer; otherwise the
/// pointer must not be null.
pub open spec fn slice_valid(is_null: bool, len: usize) -> bool {
    len == 0 || !is_null
}

/// Whether a `(pointer, length)` pair stands for a byte slice.
pub fn slice_ok(is_null: bool, len: usize) -> (r: bool)
    ensures
        r == slice_valid(is_null, len),
{
    len == 0 || !is_null
}

/// How the verifier can fail.
#[derive(Clone, Copy, Debug, PartialEq, Eq, Structural)]
pub enum VerifierFailure {
    /// The program verifying key did not decode.
    DecodeProgramVk,
    /// The proof did not decode.
    DecodeProof,
    /// Any other failure.
    Other,
}

/// The status of creating a verifier, before the verifier is built: the
/// zkVM to build it for, or the status to return.
pub open spec fn new_precheck_of(out_is_null: bool, kind: u32, vk_is_null: bool, vk_len: usize) -> Result<zkVMKind, i32> {
    if out_is_null {
        Err(ERE_ERR_NULL_PTR)
    } else {
        match kind_of_code(kind) {
            None => Err(ERE_ERR_BAD_KIND),
            Some(k) => if slice_valid(vk_is_null, vk_len) {
                Ok(k)
            } else {
                Err(ERE_ERR_NULL_PTR)
            },
        }
    }
}

/// Checks the arguments of creating a verifier, in the order the interface
/// checks them: the output handle, the zkVM code, the key's slice.
pub fn new_precheck(out_is_null: bool, kind: u32, vk_is_null: bool, vk_len: usize) -> (r: Result<zkVMKind, i32>)
    ensures
        r == new_precheck_of(out_is_null, kind, vk_is_null, vk_len),
{
    if out_is_null {
        return Err(ERE_ERR_NULL_PTR);
    }
    match kind_from_u32(kind) {
        None => Err(ERE_ERR_BAD_KIND),
        Some(k) => if slice_ok(vk_is_null, vk_len) {
            Ok(k)
        } else {
            Err(ERE_ERR_NULL_PTR)
        },
    }
}

/// The status of building a verifier: success, a key that did not decode,
/// or, for any other failure, a bad zkVM code.
pub fn new_status(built: Result<(), VerifierFailure>) -> (r: i32)
    ensures
        r == match built {
            Ok(()) => ERE_OK,
            Err(VerifierFailure::DecodeProgramVk) => ERE_ERR_DECODE_PROGRAM_VK,
            Err(_) => ERE_ERR_BAD_KIND,
        },
{
    match built {
        Ok(()) => ERE_OK,
        Err(VerifierFailure::DecodeProgramVk) => ERE_ERR_DECODE_PROGRAM_VK,
        Err(_) => ERE_ERR_BAD_KIND,
    }
}

/// The status of the arguments of a verification: a null handle or a slice
/// that is not one is a null-pointer error.
pub fn verify_precheck(
    handle_is_null: bool,
    proof_is_null: bool,
    proof_len: usize,
    expected_is_null: bool,
    expected_len: usize,
) -> (r: Option<i32>)
    ensures
        r == if handle_is_null || !slice_valid(proof_is_null, proof_len) || !slice_valid(
            expected_is_null,
            expected_len,
        ) {
            Some(ERE_ERR_NULL_PTR)
        } else {
            None
        },
{
    if handle_is_null || !slice_ok(proof_is_null, proof_len) || !slice_ok(expected_is_null, expected_len) {
        Some(ERE_ERR_NULL_PTR)
    } else {
        None
    }
}

/// Whether the proven public values `actual` are what the caller expects:
/// `expected` is a prefix of them and every byte after the prefix is zero.
pub open spec fn public_values_accepted(expected: Seq<u8>, actual: Seq<u8>) -> bool {
    &&& expected.len() <= actual.len()
    &&& actual.take(expected.len() as int) == expected
    &&& forall|i: int| expected.len() <= i < actual.len() ==> actual[i] == 0
}

/// The status for proven public values `actual` when `expected` were
/// expected: success when they are accepted, a mismatch otherwise.
pub fn check_public_values(expected: &[u8], actual: &[u8]) -> (r: i32)
    ensures
        r == if public_values_accepted(expected@, actual@) {
            ERE_OK
        } else {
            ERE_ERR_PUBLIC_VALUES_MISMATCH
        },
{
    if expected.len() > actual.len() {
        return ERE_ERR_PUBLIC_VALUES_MISMATCH;
    }
    let mut i: usize = 0;
    while i < expected.len()
        invariant
            expected@.len() <= actual@.len(),
            i <= expected@.len(),
            forall|j: int| 0 <= j < i ==> actual@[j] == expected@[j],
        decreases expected.len() - i,
    {
        if actual[i] != expected[i] {
            assert(actual@.take(expected@.len() as int)[i as int] != expected@[i as int]);
            return ERE_ERR_PUBLIC_VALUES_MISMATCH;
        }
        i = i + 1;
    }
    assert(actual@.take(expected@.len() as int) =~= expected@);
    let mut k: usize = expected.len();
    while k < actual.len()
        invariant
            expected@.len() <= k <= actual@.len(),
            forall|j: int| expected@.len() <= j < k ==> actual@[j] == 0,
        decreases actual.len() - k,
    {
        if actual[k] != 0 {
            return ERE_ERR_PUBLIC_VALUES_MISMATCH;
        }
        k = k + 1;
    }
    ERE_OK
}

/// The status of a verification: a proof that did not decode, a proof that
/// failed, or the check of its public values against `expected`.
pub fn verify_status(verified: Result<&[u8], VerifierFailure>, expected: &[u8]) -> (r: i32)
    ensures
        r == match verified {
            Ok(actual) => if public_values_accepted(expected@, actual@) {
                ERE_OK
            } else {
                ERE_ERR_PUBLIC_VALUES_MISMATCH
            },
            Err(VerifierFailure::DecodeProof) => ERE_ERR_DECODE_PROOF,
            Err(_) => ERE_ERR_VERIFY,
        },
{
    match verified {
        Ok(actual) => check_public_values(expected, actual),
        Err(VerifierFailure::DecodeProof) => ERE_ERR_DECODE_PROOF,
        Err(_) => ERE_ERR_VERIFY,
    }
}

/// Every zkVM's code names it again, and only codes below five name a
/// zkVM.
pub proof fn lemma_kind_code_roundtrip(k: zkVMKind, v: u32)
    ensures
        kind_of_code(kind_code(k)) == Some(k),
        kind_of_code(v) is Some <==> v < 5,
        kind_of_code(v) matches Some(j) ==> kind_code(j) == v,
{
}

/// Public values are accepted against themselves, and against any prefix
/// of them followed only by zeros; they are never accepted against a longer
/// expectation.
pub proof fn lemma_public_values(expected: Seq<u8>, actual: Seq<u8>, zeros: nat)
    ensures
        public_values_accepted(actual, actual),
        public_values_accepted(expected, expected + Seq::new(zeros, |i: int| 0u8)),
        expected.len() > actual.len() ==> !public_values_accepted(expected, actual),
{
    assert(actual.take(actual.len() as int) =~= actual);
    let padded = expected + Seq::new(zeros, |i: int| 0u8);
    assert(padded.take(expected.len() as int) =~= expected);
}

/// Changing one byte of the expected prefix makes accepted public values
/// unacceptable.
pub proof fn lemma_public_values_byte_changed(expected: Seq<u8>, actual: Seq<u8>, i: int, b: u8)
    requires
        public_values_accepted(expected, actual),
        0 <= i < expected.len(),
        b != expected[i],
    ensures
        !public_values_accepted(expected.update(i, b), actual),
{
    assert(actual.take(expected.len() as int)[i] == expected[i]);
}

} // verus!
