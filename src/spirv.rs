use vstd::prelude::*;

use crate::error::{HothamError, HothamResult};

verus! {

/// The first word of every SPIR-V module.
pub const SPIRV_MAGIC: u32 = 0x0723_0203;

/// The `i`-th 32-bit word of `b`, read little-endian.
pub open spec fn le_word(b: Seq<u8>, i: int) -> int {
    b[4 * i] + 256 * b[4 * i + 1] + 65536 * b[4 * i + 2] + 16777216 * b[4 * i + 3]
}

/// The `i`-th 32-bit word of `b`, read big-endian.
pub open spec fn be_word(b: Seq<u8>, i: int) -> int {
    b[4 * i + 3] + 256 * b[4 * i + 2] + 65536 * b[4 * i + 1] + 16777216 * b[4 * i]
}

/// The SPIR-V words held by `b`: the length must be a positive multiple of
/// four, and the byte order is the one under which the first word is the
/// magic number. `None` when `b` is not such a module.
pub open spec fn spv_words(b: Seq<u8>) -> Option<Seq<u32>> {
    if b.len() % 4 != 0 || b.len() < 4 {
        None
    } else if le_word(b, 0) == SPIRV_MAGIC as int {
        Some(Seq::new((b.len() / 4) as nat, |i: int| le_word(b, i) as u32))
    } else if be_word(b, 0) == SPIRV_MAGIC as int {
        Some(Seq::new((b.len() / 4) as nat, |i: int| be_word(b, i) as u32))
    } else {
        None
    }
}

/// Relies on `ash::util::read_spv` read from an in-memory cursor: it refuses
/// a length that is not a multiple of four, reads the words, swaps every word
/// when the first one is the byte-swapped magic number, and refuses a result
/// that is empty or does not start with the magic number.
#[verifier::external_body]
fn ash_read_spv(bytes: &[u8]) -> (r: Option<Vec<u32>>)
    ensures
        match r {
            Some(w) => spv_words(bytes@) == Some(w@),
            None => spv_words(bytes@) is None,
        },
{
    ash::util::read_spv(&mut std::io::Cursor::new(bytes)).ok()
}

/// Decodes SPIR-V bytecode into its words; bytes that are not a SPIR-V
/// module give `InvalidFormatError`.
pub fn read_spv_from_bytes(bytes: &[u8]) -> (r: HothamResult<Vec<u32>>)
    ensures
        match spv_words(bytes@) {
            Some(w) => r matches Ok(v) && v@ == w,
            None => r == Err::<Vec<u32>, HothamError>(HothamError::InvalidFormatError),
        },
{
    match ash_read_spv(bytes) {
        Some(w) => Ok(w),
        None => Err(HothamError::InvalidFormatError),
    }
}

} // verus!
