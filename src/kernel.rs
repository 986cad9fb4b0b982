//! The precompiled kernel: a SPIR-V blob turned into the word stream that
//! the device accepts, and the entry point that the pipeline resolves.
use vstd::prelude::*;
use crate::codec::{le_words, word_of};

verus! {

/// The first word of every SPIR-V module.
pub const SPIRV_MAGIC: u32 = 0x0723_0203;

/// Why a blob is not a loadable kernel binary.
#[derive(Debug, Clone, Copy, PartialEq, Eq, Structural)]
pub enum KernelBlobError {
    /// The length is not a whole number of 4-byte words.
    Misaligned,
    /// The blob holds no word at all.
    Empty,
    /// The first word is not the SPIR-V magic number.
    NotSpirv,
}

/// The blob starts with the magic number in little-endian order.
pub open spec fn starts_with_magic(b: Seq<u8>) -> bool {
    b.len() >= 4 && word_of(b[0], b[1], b[2], b[3]) == SPIRV_MAGIC
}

/// What loading `blob` yields: its words, or the first defect found.
pub open spec fn kernel_words_spec(blob: Seq<u8>) -> Result<Seq<u32>, KernelBlobError> {
    if blob.len() % 4 != 0 {
        Err(KernelBlobError::Misaligned)
    } else if blob.len() == 0 {
        Err(KernelBlobError::Empty)
    } else if !starts_with_magic(blob) {
        Err(KernelBlobError::NotSpirv)
    } else {
        Ok(le_words(blob))
    }
}

/// Relies on wgpu::util::make_spirv_raw: it reinterprets the bytes as
/// native-order words and panics unless the length is a multiple of four
/// and the first word is the magic number. The host is little-endian, as
/// the wire form of the whole library assumes.
#[verifier::external_body]
fn spirv_raw_words(data: &[u8]) -> (r: Vec<u32>)
    requires
        data@.len() % 4 == 0,
        starts_with_magic(data@),
    ensures
        r@ == le_words(data@),
{
    wgpu::util::make_spirv_raw(data).into_owned()
}

/// Turns a kernel blob into its SPIR-V words, refusing a blob that the
/// device driver could not take as a module.
pub fn kernel_words(blob: &[u8]) -> (r: Result<Vec<u32>, KernelBlobError>)
    ensures
        match (r, kernel_words_spec(blob@)) {
            (Ok(w), Ok(s)) => w@ == s,
            (Err(e), Err(f)) => e == f,
            _ => false,
        },
{
    if blob.len() % 4 != 0 {
        Err(KernelBlobError::Misaligned)
    } else if blob.len() == 0 {
        Err(KernelBlobError::Empty)
    } else {
        let w = (blob[0] as u32) | ((blob[1] as u32) << 8u32) | ((blob[2] as u32) << 16u32) | ((
        blob[3] as u32) << 24u32);
        if w != SPIRV_MAGIC {
            Err(KernelBlobError::NotSpirv)
        } else {
            Ok(spirv_raw_words(blob))
        }
    }
}

/// The name of the kernel's entry point.
pub open spec fn entry_point_spec() -> Seq<char> {
    seq!['m', 'a', 'i', 'n', '_', 'c', 's']
}

/// The entry point that the compute pipeline is built from.
pub fn entry_point() -> (r: &'static str)
    ensures
        r@ == entry_point_spec(),
{
    let r = "main_cs";
    proof {
        reveal_strlit("main_cs");
        assert(r@ =~= entry_point_spec());
    }
    r
}

} // verus!
