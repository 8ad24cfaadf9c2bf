//! What becomes of a read that captured fewer bytes than the module's size.
//!
//! The image always has the module's declared size. Bytes that the read did
//! not capture are zero; bytes beyond the declared size are dropped. A short
//! read is therefore no error of its own: the checks of the image decide.

use vstd::prelude::*;

verus! {

/// The captured bytes cut or zero-filled to `size` bytes.
pub open spec fn fitted(captured: Seq<u8>, size: nat) -> Seq<u8> {
    Seq::new(
        size,
        |k: int|
            if k < captured.len() {
                captured[k]
            } else {
                0u8
            },
    )
}

/// Brings the captured bytes to the module's declared size: a longer capture
/// loses its tail, a shorter one is filled up with zeros.
pub fn fit_to_size(captured: Vec<u8>, size: usize) -> (image: Vec<u8>)
    ensures
        image@ == fitted(captured@, size as nat),
        image@.len() == size,
        size == captured@.len() ==> image@ == captured@,
{
    let mut image = captured;
    image.resize(size, 0u8);
    assert(image@ =~= fitted(captured@, size as nat));
    image
}

} // verus!
