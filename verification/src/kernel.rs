//! From the bytes of a compiled shader to the 32-bit words a pipeline takes.

use vstd::prelude::*;
use vstd::slice::slice_to_vec;

verus! {

/// `bytemuck::PodCastError`, the reason a cast was refused. Nothing is said of
/// its value; it is only told apart from success.
#[verifier::external_type_specification]
#[verifier::external_body]
pub struct ExPodCastError(bytemuck::PodCastError);

/// The word made of the four bytes from `4 * i` on, lowest byte first.
pub open spec fn word_le(bytes: Seq<u8>, i: int) -> int {
    bytes[4 * i] + 0x100 * bytes[4 * i + 1] + 0x1_0000 * bytes[4 * i + 2] + 0x100_0000 * bytes[4
        * i + 3]
}

/// The word made of the four bytes from `4 * i` on, highest byte first.
pub open spec fn word_be(bytes: Seq<u8>, i: int) -> int {
    0x100_0000 * bytes[4 * i] + 0x1_0000 * bytes[4 * i + 1] + 0x100 * bytes[4 * i + 2] + bytes[4
        * i + 3]
}

/// Whether `words` is `bytes` read four at a time, in one byte order
/// throughout.
pub open spec fn words_of(bytes: Seq<u8>, words: Seq<u32>) -> bool {
    &&& words.len() * 4 == bytes.len()
    &&& {
        ||| forall|i: int| 0 <= i < words.len() ==> #[trigger] words[i] == word_le(bytes, i)
        ||| forall|i: int| 0 <= i < words.len() ==> #[trigger] words[i] == word_be(bytes, i)
    }
}

/// Why a compiled binary cannot be handed to a pipeline.
#[derive(Clone, Copy, Debug, PartialEq, Eq, Structural)]
pub enum KernelError {
    /// The binary holds no bytes at all.
    Empty,
    /// The length is not a whole number of 32-bit words.
    Truncated { len: usize },
    /// The bytes do not start at an address a 32-bit word can be read from.
    Misaligned,
}

/// Views `bytes` as 32-bit words through `bytemuck::try_cast_slice`.
///
/// The outside function reinterprets the same memory, so a successful result
/// has a quarter of the length and holds each group of four bytes as one word
/// in the byte order of the machine. It fails when the length is not a
/// multiple of four, and also when the slice does not start at a multiple of
/// four, which no caller can tell from the bytes.
#[verifier::external_body]
fn cast_words(bytes: &[u8]) -> (cast: Result<&[u32], bytemuck::PodCastError>)
    ensures
        cast matches Ok(words) ==> words_of(bytes@, words@),
        bytes@.len() % 4 != 0 ==> cast is Err,
{
    bytemuck::try_cast_slice(bytes)
}

/// What becomes of a binary of `len` bytes, given the words it was viewed as
/// (`None` when the view was refused).
pub open spec fn accepted(len: int, cast: Option<Seq<u32>>) -> Result<Seq<u32>, KernelError> {
    if len == 0 {
        Err(KernelError::Empty)
    } else if len % 4 != 0 {
        Err(KernelError::Truncated { len: len as usize })
    } else {
        match cast {
            Some(words) => Ok(words),
            None => Err(KernelError::Misaligned),
        }
    }
}

/// Decides whether a binary of `len` bytes is taken, from the outcome of
/// viewing it as words: an empty binary and one that ends inside a word are
/// refused for what they are, and a refused view of a well-sized binary is
/// reported as misaligned.
pub fn accept_words(len: usize, cast: Option<&[u32]>) -> (words: Result<Vec<u32>, KernelError>)
    ensures
        match accepted(
            len as int,
            match cast {
                Some(w) => Some(w@),
                None => None,
            },
        ) {
            Ok(expected) => words matches Ok(w) && w@ == expected,
            Err(e) => words == Err::<Vec<u32>, KernelError>(e),
        },
{
    if len == 0 {
        return Err(KernelError::Empty);
    }
    if len % 4 != 0 {
        return Err(KernelError::Truncated { len });
    }
    match cast {
        Some(view) => Ok(slice_to_vec(view)),
        None => Err(KernelError::Misaligned),
    }
}

/// The words of a compiled binary, ready for a pipeline.
///
/// The size checks are decided here; whether the bytes are aligned is not a
/// property of their values, so a well-sized binary may still be refused as
/// misaligned.
pub fn kernel_words(binary: &[u8]) -> (words: Result<Vec<u32>, KernelError>)
    ensures
        binary@.len() == 0 ==> words == Err::<Vec<u32>, KernelError>(KernelError::Empty),
        binary@.len() % 4 != 0 ==> words == Err::<Vec<u32>, KernelError>(
            KernelError::Truncated { len: binary@.len() as usize },
        ),
        words matches Ok(w) ==> words_of(binary@, w@) && w@.len() > 0,
        words matches Err(e) ==> {
            ||| e == KernelError::Empty && binary@.len() == 0
            ||| e == (KernelError::Truncated { len: binary@.len() as usize }) && binary@.len() % 4
                != 0
            ||| e == KernelError::Misaligned && binary@.len() > 0 && binary@.len() % 4 == 0
        },
{
    match cast_words(binary) {
        Ok(view) => accept_words(binary.len(), Some(view)),
        Err(_) => accept_words(binary.len(), None),
    }
}

} // verus!
