//! The checks a captured image must pass before its section table is
//! rewritten.

use vstd::prelude::*;
use vstd::string::StringExecFns;
use crate::bytes::{read_u16_le, read_u32_le, u16_le, u32_le};
use crate::layout::{
    nt_header_offset, section_table_fits, DOS_HEADER_SIZE, DOS_SIGNATURE, NT_HEADER_ALIGNMENT,
    NT_OFFSET_FIELD, NT_SIGNATURE, OPTIONAL_HEADER_START, OPTIONAL_SIZE_FIELD,
    SECTION_COUNT_FIELD, SECTION_HEADER_SIZE,
};
use crate::pe::{aligned_to, dos_signature, is_power_of_two, nt_headers_signature};

verus! {

/// Why a captured buffer is not accepted as an image.
#[derive(Debug, Clone, Copy, PartialEq, Eq, Structural)]
pub enum FormatError {
    /// The buffer does not start with the leading header's signature.
    InvalidDosSignature,
    /// The offset of the secondary header is not a multiple of 4.
    MisalignedNtHeader,
    /// The secondary header does not start with its signature.
    InvalidNtSignature,
    /// The buffer ends before the field that the next check reads, or before
    /// the end of the section table.
    Truncated,
}

impl FormatError {
    /// The text that names the failed check.
    pub open spec fn message_text(self) -> Seq<char> {
        match self {
            FormatError::InvalidDosSignature => "invalid dos header magic"@,
            FormatError::MisalignedNtHeader => "dos header is misaligned"@,
            FormatError::InvalidNtSignature => "invalid nt header signature"@,
            FormatError::Truncated => "image is truncated"@,
        }
    }

    /// The message shown to the user for this error.
    pub fn message(&self) -> (text: String)
        ensures
            text@ == self.message_text(),
    {
        match self {
            FormatError::InvalidDosSignature => String::from_str("invalid dos header magic"),
            FormatError::MisalignedNtHeader => String::from_str("dos header is misaligned"),
            FormatError::InvalidNtSignature => String::from_str("invalid nt header signature"),
            FormatError::Truncated => String::from_str("image is truncated"),
        }
    }
}

/// The buffer starts with the leading header's signature.
pub open spec fn has_dos_signature(image: Seq<u8>) -> bool {
    2 <= image.len() && u16_le(image, 0) == DOS_SIGNATURE
}

/// The secondary header's offset can be read and is a multiple of 4.
pub open spec fn has_aligned_nt_header(image: Seq<u8>) -> bool {
    DOS_HEADER_SIZE <= image.len() && nt_header_offset(image) % (NT_HEADER_ALIGNMENT as int) == 0
}

/// The secondary header's signature can be read and is the expected one.
pub open spec fn has_nt_signature(image: Seq<u8>) -> bool {
    &&& DOS_HEADER_SIZE <= image.len()
    &&& nt_header_offset(image) + 4 <= image.len()
    &&& u32_le(image, nt_header_offset(image)) == NT_SIGNATURE
}

/// The outcome of the checks, made in this order: the leading signature, the
/// alignment of the secondary header's offset, the secondary header's
/// signature, the extent of the section table. The first check that fails
/// decides the error; a check whose field lies beyond the end of the buffer
/// fails with `Truncated`.
pub open spec fn validation(image: Seq<u8>) -> Result<(), FormatError> {
    if image.len() < 2 {
        Err(FormatError::Truncated)
    } else if u16_le(image, 0) != DOS_SIGNATURE {
        Err(FormatError::InvalidDosSignature)
    } else if image.len() < DOS_HEADER_SIZE {
        Err(FormatError::Truncated)
    } else if nt_header_offset(image) % (NT_HEADER_ALIGNMENT as int) != 0 {
        Err(FormatError::MisalignedNtHeader)
    } else if nt_header_offset(image) + 4 > image.len() {
        Err(FormatError::Truncated)
    } else if u32_le(image, nt_header_offset(image)) != NT_SIGNATURE {
        Err(FormatError::InvalidNtSignature)
    } else if !section_table_fits(image) {
        Err(FormatError::Truncated)
    } else {
        Ok(())
    }
}

/// Tells whether the file header and the whole section table lie within the
/// buffer.
pub fn has_section_table(image: &[u8]) -> (fits: bool)
    ensures
        fits == section_table_fits(image@),
{
    let len: u64 = image.len() as u64;
    if image.len() < DOS_HEADER_SIZE {
        return false;
    }
    let nt: u64 = read_u32_le(image, NT_OFFSET_FIELD) as u64;
    if nt + OPTIONAL_HEADER_START as u64 > len {
        return false;
    }
    let nt_at: usize = nt as usize;
    let count: u64 = read_u16_le(image, nt_at + SECTION_COUNT_FIELD) as u64;
    let optional: u64 = read_u16_le(image, nt_at + OPTIONAL_SIZE_FIELD) as u64;
    assert(SECTION_HEADER_SIZE * count <= 40 * 0xffff);
    let table_len: u64 = SECTION_HEADER_SIZE as u64 * count;
    nt + OPTIONAL_HEADER_START as u64 + optional + table_len <= len
}

/// Checks the shape of a captured image, in this order: the leading
/// signature, the alignment of the secondary header's offset, the secondary
/// header's signature, the extent of the section table. It stops at the first
/// check that fails, and each check has its own error.
pub fn validate(image: &[u8]) -> (result: Result<(), FormatError>)
    ensures
        result == validation(image@),
        result is Ok <==> has_dos_signature(image@) && has_aligned_nt_header(image@)
            && has_nt_signature(image@) && section_table_fits(image@),
        // a wrong leading signature is reported as such
        2 <= image@.len() && !has_dos_signature(image@) ==> result == Err::<(), FormatError>(
            FormatError::InvalidDosSignature,
        ),
        // a misaligned offset is rejected, and reported as such unless an
        // earlier check failed
        DOS_HEADER_SIZE <= image@.len() && !has_aligned_nt_header(image@) ==> result is Err,
        has_dos_signature(image@) && DOS_HEADER_SIZE <= image@.len() && !has_aligned_nt_header(
            image@,
        ) ==> result == Err::<(), FormatError>(FormatError::MisalignedNtHeader),
        // a wrong secondary signature is rejected, and reported as such unless
        // an earlier check failed
        DOS_HEADER_SIZE <= image@.len() && nt_header_offset(image@) + 4 <= image@.len()
            && !has_nt_signature(image@) ==> result is Err,
        has_dos_signature(image@) && has_aligned_nt_header(image@) && nt_header_offset(image@) + 4
            <= image@.len() && !has_nt_signature(image@) ==> result == Err::<(), FormatError>(
            FormatError::InvalidNtSignature,
        ),
{
    if image.len() < 2 {
        return Err(FormatError::Truncated);
    }
    if read_u16_le(image, 0) != dos_signature() {
        return Err(FormatError::InvalidDosSignature);
    }
    if image.len() < DOS_HEADER_SIZE {
        return Err(FormatError::Truncated);
    }
    let offset: u32 = read_u32_le(image, NT_OFFSET_FIELD);
    proof {
        assert(is_power_of_two(NT_HEADER_ALIGNMENT)) by (bit_vector);
        assert((offset & ((NT_HEADER_ALIGNMENT - 1) as u32) == 0) == (offset % 4 == 0))
            by (bit_vector);
    }
    if !aligned_to(offset, NT_HEADER_ALIGNMENT) {
        return Err(FormatError::MisalignedNtHeader);
    }
    if offset as u64 + 4 > image.len() as u64 {
        return Err(FormatError::Truncated);
    }
    if read_u32_le(image, offset as usize) != nt_headers_signature() {
        return Err(FormatError::InvalidNtSignature);
    }
    if !has_section_table(image) {
        return Err(FormatError::Truncated);
    }
    Ok(())
}

} // verus!
