//! Where the header fields of a 64-bit image lie, and the values that mark
//! its two headers.
//!
//! The leading header is 64 bytes long; it starts with a 2-byte signature and
//! ends with the 4-byte offset of the secondary header. The secondary header
//! starts with a 4-byte signature, followed by a 20-byte file header that
//! holds the section count and the size of the optional header. The section
//! table follows the optional header: one 40-byte descriptor per section.

use vstd::prelude::*;
use crate::bytes::{u16_le, u32_le};

verus! {

/// The signature that opens the leading header ("MZ").
pub const DOS_SIGNATURE: u16 = 0x5A4D;

/// The signature that opens the secondary header ("PE\0\0").
pub const NT_SIGNATURE: u32 = 0x0000_4550;

/// Length of the leading header.
pub const DOS_HEADER_SIZE: usize = 64;

/// Offset, in the leading header, of the field that locates the secondary
/// header.
pub const NT_OFFSET_FIELD: usize = 60;

/// The alignment asked of the secondary header's offset.
pub const NT_HEADER_ALIGNMENT: u32 = 4;

/// Offset of the section count from the start of the secondary header.
pub const SECTION_COUNT_FIELD: usize = 6;

/// Offset of the optional header's size from the start of the secondary
/// header.
pub const OPTIONAL_SIZE_FIELD: usize = 20;

/// Offset of the optional header from the start of the secondary header.
pub const OPTIONAL_HEADER_START: usize = 24;

/// Length of one section descriptor.
pub const SECTION_HEADER_SIZE: usize = 40;

/// Offset of the virtual size within a section descriptor.
pub const VIRTUAL_SIZE_FIELD: usize = 8;

/// Offset of the virtual address within a section descriptor.
pub const VIRTUAL_ADDRESS_FIELD: usize = 12;

/// Offset of the raw size within a section descriptor.
pub const RAW_SIZE_FIELD: usize = 16;

/// Offset of the raw pointer within a section descriptor.
pub const RAW_POINTER_FIELD: usize = 20;

/// The offset of the secondary header, as the leading header records it.
pub open spec fn nt_header_offset(image: Seq<u8>) -> int {
    u32_le(image, NT_OFFSET_FIELD as int)
}

/// The number of section descriptors, as the file header records it.
pub open spec fn section_count(image: Seq<u8>) -> int {
    u16_le(image, nt_header_offset(image) + SECTION_COUNT_FIELD)
}

/// The size of the optional header, as the file header records it.
pub open spec fn optional_header_size(image: Seq<u8>) -> int {
    u16_le(image, nt_header_offset(image) + OPTIONAL_SIZE_FIELD)
}

/// The offset of the first section descriptor.
pub open spec fn section_table_offset(image: Seq<u8>) -> int {
    nt_header_offset(image) + OPTIONAL_HEADER_START + optional_header_size(image)
}

/// The offset of the descriptor of section `index`.
pub open spec fn section_offset(image: Seq<u8>, index: int) -> int {
    section_table_offset(image) + SECTION_HEADER_SIZE * index
}

/// The offset one past the last section descriptor.
pub open spec fn section_table_end(image: Seq<u8>) -> int {
    section_offset(image, section_count(image))
}

/// The leading header, the file header and every section descriptor lie
/// within the buffer.
pub open spec fn section_table_fits(image: Seq<u8>) -> bool {
    &&& DOS_HEADER_SIZE <= image.len()
    &&& nt_header_offset(image) + OPTIONAL_HEADER_START <= image.len()
    &&& section_table_end(image) <= image.len()
}

} // verus!
