//! The values and the alignment test that the `pelite` crate provides.
//!
//! The contracts in this file are taken on trust from `pelite`'s source; the
//! rest of the library is proved against them.

use vstd::prelude::*;
use pelite::util::AlignTo;
use crate::layout::{DOS_SIGNATURE, NT_SIGNATURE};

verus! {

/// `align` has exactly one bit set.
pub open spec fn is_power_of_two(align: u32) -> bool {
    align != 0 && align & ((align - 1) as u32) == 0
}

/// Hands out `pelite::image::IMAGE_DOS_SIGNATURE`, which `pelite` defines as
/// the 16-bit constant `0x5A4D`.
#[verifier::external_body]
pub(crate) fn dos_signature() -> (signature: u16)
    ensures
        signature == DOS_SIGNATURE,
{
    pelite::image::IMAGE_DOS_SIGNATURE
}

/// Hands out `pelite::image::IMAGE_NT_HEADERS_SIGNATURE`, which `pelite`
/// defines as the 32-bit constant `0x00004550`.
#[verifier::external_body]
pub(crate) fn nt_headers_signature() -> (signature: u32)
    ensures
        signature == NT_SIGNATURE,
{
    pelite::image::IMAGE_NT_HEADERS_SIGNATURE
}

/// Calls `pelite::util::AlignTo::aligned_to` on a `u32`. For that type
/// `pelite` computes `value & (align - 1) == 0`. In debug builds it asserts
/// first that `align` is a power of two, so other alignments are left out.
#[verifier::external_body]
pub(crate) fn aligned_to(value: u32, align: u32) -> (aligned: bool)
    requires
        is_power_of_two(align),
    ensures
        aligned == (value & ((align - 1) as u32) == 0),
{
    value.aligned_to(align)
}

} // verus!
