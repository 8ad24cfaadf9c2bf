//! The section table: reading its descriptors, and rewriting them so that the
//! file layout they declare is the layout the image has in memory.

use vstd::prelude::*;
use crate::bytes::{lemma_le_byte_of_u32_le, le_byte, read_u16_le, read_u32_le, u32_le, write_u32_le};
use crate::layout::{
    nt_header_offset, section_count, section_offset, section_table_end, section_table_fits,
    section_table_offset, DOS_HEADER_SIZE, NT_OFFSET_FIELD, OPTIONAL_HEADER_START,
    OPTIONAL_SIZE_FIELD, RAW_POINTER_FIELD, RAW_SIZE_FIELD, SECTION_COUNT_FIELD,
    SECTION_HEADER_SIZE, VIRTUAL_ADDRESS_FIELD, VIRTUAL_SIZE_FIELD,
};
use crate::validate::has_section_table;

verus! {

/// The four fields of a section descriptor that tell where the section lies:
/// in memory (virtual) and in the file (raw).
#[derive(Debug, Clone, Copy, PartialEq, Eq, Structural)]
pub struct SectionDescriptor {
    pub virtual_address: u32,
    pub virtual_size: u32,
    pub raw_pointer: u32,
    pub raw_size: u32,
}

/// The descriptor stored in the 40 bytes from `offset` on.
pub open spec fn descriptor_at(image: Seq<u8>, offset: int) -> SectionDescriptor {
    SectionDescriptor {
        virtual_address: u32_le(image, offset + VIRTUAL_ADDRESS_FIELD) as u32,
        virtual_size: u32_le(image, offset + VIRTUAL_SIZE_FIELD) as u32,
        raw_pointer: u32_le(image, offset + RAW_POINTER_FIELD) as u32,
        raw_size: u32_le(image, offset + RAW_SIZE_FIELD) as u32,
    }
}

/// The descriptor of section `index`, in the order of the table.
pub open spec fn section(image: Seq<u8>, index: int) -> SectionDescriptor {
    descriptor_at(image, section_offset(image, index))
}

/// Byte `k` belongs to the raw size or the raw pointer of some section. The
/// two fields are adjacent: they fill bytes 16 to 23 of a descriptor.
pub open spec fn in_raw_fields(image: Seq<u8>, k: int) -> bool {
    &&& section_table_offset(image) <= k < section_table_end(image)
    &&& RAW_SIZE_FIELD <= (k - section_table_offset(image)) % (SECTION_HEADER_SIZE as int)
        < RAW_POINTER_FIELD + 4
}

/// The image with every section's raw size and raw pointer replaced by its
/// virtual size and virtual address. In a descriptor each virtual field lies
/// 8 bytes before the raw field it is copied to.
pub open spec fn normalized(image: Seq<u8>) -> Seq<u8> {
    Seq::new(
        image.len(),
        |k: int|
            if in_raw_fields(image, k) {
                image[k - (RAW_SIZE_FIELD - VIRTUAL_SIZE_FIELD)]
            } else {
                image[k]
            },
    )
}

/// Every section has its virtual address as raw pointer and its virtual size
/// as raw size.
pub open spec fn is_normalized(image: Seq<u8>) -> bool {
    forall|i: int|
        0 <= i < section_count(image) ==> {
            &&& (#[trigger] section(image, i)).raw_pointer == section(image, i).virtual_address
            &&& section(image, i).raw_size == section(image, i).virtual_size
        }
}

/// Each descriptor of `after`, read where the section table of `before` lies,
/// has the virtual fields of `before` and, as raw fields, the same values.
pub open spec fn mirrors_virtual_layout(before: Seq<u8>, after: Seq<u8>) -> bool {
    forall|i: int|
        #![trigger section_offset(before, i)]
        0 <= i < section_count(before) ==> {
            let rewritten = descriptor_at(after, section_offset(before, i));
            &&& rewritten.virtual_address == section(before, i).virtual_address
            &&& rewritten.virtual_size == section(before, i).virtual_size
            &&& rewritten.raw_pointer == section(before, i).virtual_address
            &&& rewritten.raw_size == section(before, i).virtual_size
        }
}

/// `after` has the length of `before`, and the same bytes everywhere but in
/// the raw fields of the sections of `before`.
pub open spec fn same_outside_raw_fields(before: Seq<u8>, after: Seq<u8>) -> bool {
    &&& after.len() == before.len()
    &&& forall|k: int|
        0 <= k < before.len() && !in_raw_fields(before, k) ==> #[trigger] after[k] == before[k]
}

/// The rewritten image mirrors the virtual layout of the given one and
/// differs from it in the raw fields only.
pub proof fn lemma_normalized_mirrors_virtual_layout(image: Seq<u8>)
    requires
        section_table_fits(image),
    ensures
        mirrors_virtual_layout(image, normalized(image)),
        same_outside_raw_fields(image, normalized(image)),
{
    let table = section_table_offset(image);
    assert forall|i: int|
        #![trigger section_offset(image, i)]
        0 <= i < section_count(image) implies {
        let rewritten = descriptor_at(normalized(image), section_offset(image, i));
        &&& rewritten.virtual_address == section(image, i).virtual_address
        &&& rewritten.virtual_size == section(image, i).virtual_size
        &&& rewritten.raw_pointer == section(image, i).virtual_address
        &&& rewritten.raw_size == section(image, i).virtual_size
    } by {
        let at = section_offset(image, i);
        assert(at + SECTION_HEADER_SIZE <= section_table_end(image)) by {
            assert(SECTION_HEADER_SIZE * (i + 1) <= SECTION_HEADER_SIZE * section_count(image));
        }
        assert forall|j: int| 0 <= j < 40 implies (#[trigger] (at + j - table)) % 40 == j by {
            assert(at + j - table == 40 * i + j);
        }
    }
}

/// Where the section table starts behind the leading header, rewriting it
/// moves neither the table nor its end, and leaves every section with raw
/// fields equal to its virtual fields.
pub proof fn lemma_normalized_is_normalized(image: Seq<u8>)
    requires
        section_table_fits(image),
        DOS_HEADER_SIZE <= section_table_offset(image),
    ensures
        nt_header_offset(normalized(image)) == nt_header_offset(image),
        section_table_offset(normalized(image)) == section_table_offset(image),
        section_count(normalized(image)) == section_count(image),
        section_table_fits(normalized(image)),
        is_normalized(normalized(image)),
{
    let out = normalized(image);
    let nt = nt_header_offset(image);
    assert(out[60] == image[60] && out[61] == image[61]);
    assert(out[62] == image[62] && out[63] == image[63]);
    assert(out[nt + 6] == image[nt + 6] && out[nt + 7] == image[nt + 7]);
    assert(out[nt + 20] == image[nt + 20] && out[nt + 21] == image[nt + 21]);
    lemma_normalized_mirrors_virtual_layout(image);
    assert forall|i: int| 0 <= i < section_count(out) implies {
        &&& (#[trigger] section(out, i)).raw_pointer == section(out, i).virtual_address
        &&& section(out, i).raw_size == section(out, i).virtual_size
    } by {
        assert(section_offset(out, i) == section_offset(image, i));
    }
}

/// Reads the descriptor of section `index`: `Some` exactly when the section
/// table lies within the buffer and holds that many sections.
pub fn read_section(image: &[u8], index: usize) -> (descriptor: Option<SectionDescriptor>)
    ensures
        descriptor is Some <==> section_table_fits(image@) && index < section_count(image@),
        descriptor is Some ==> descriptor->0 == section(image@, index as int),
{
    if !has_section_table(image) {
        return None;
    }
    assert(image@.len() == image.len());
    let nt: usize = read_u32_le(image, NT_OFFSET_FIELD) as usize;
    let count: usize = read_u16_le(image, nt + SECTION_COUNT_FIELD) as usize;
    if index >= count {
        return None;
    }
    let optional: usize = read_u16_le(image, nt + OPTIONAL_SIZE_FIELD) as usize;
    assert(SECTION_HEADER_SIZE * (index + 1) <= SECTION_HEADER_SIZE * count);
    let at: usize = nt + OPTIONAL_HEADER_START + optional + SECTION_HEADER_SIZE * index;
    Some(
        SectionDescriptor {
            virtual_address: read_u32_le(image, at + VIRTUAL_ADDRESS_FIELD),
            virtual_size: read_u32_le(image, at + VIRTUAL_SIZE_FIELD),
            raw_pointer: read_u32_le(image, at + RAW_POINTER_FIELD),
            raw_size: read_u32_le(image, at + RAW_SIZE_FIELD),
        },
    )
}

/// The image in which the sections before `done` are rewritten and the others
/// are as given.
spec fn normalized_up_to(image: Seq<u8>, done: int) -> Seq<u8> {
    Seq::new(
        image.len(),
        |k: int|
            if in_raw_fields(image, k) && k < section_offset(image, done) {
                image[k - (RAW_SIZE_FIELD - VIRTUAL_SIZE_FIELD)]
            } else {
                image[k]
            },
    )
}

/// Rewrites the section table in place: each section, in the order of the
/// table, gets its virtual address as raw pointer and its virtual size as raw
/// size. No other byte of the buffer changes.
///
/// The table is the one that the headers of the given buffer describe, and it
/// must lie within the buffer, as it does in every image that `validate`
/// accepts. Where it starts behind the leading header, as in every image a
/// linker made, the headers of the rewritten buffer describe the same table.
pub fn normalize(image: &mut Vec<u8>)
    requires
        section_table_fits(old(image)@),
    ensures
        final(image)@ == normalized(old(image)@),
        mirrors_virtual_layout(old(image)@, final(image)@),
        same_outside_raw_fields(old(image)@, final(image)@),
        DOS_HEADER_SIZE <= section_table_offset(old(image)@) ==> {
            &&& section_table_offset(final(image)@) == section_table_offset(old(image)@)
            &&& section_count(final(image)@) == section_count(old(image)@)
            &&& section_table_fits(final(image)@)
            &&& is_normalized(final(image)@)
        },
{
    let ghost given = image@;
    assert(given.len() == image.len());
    let nt: usize = read_u32_le(image.as_slice(), NT_OFFSET_FIELD) as usize;
    let count: usize = read_u16_le(image.as_slice(), nt + SECTION_COUNT_FIELD) as usize;
    let optional: usize = read_u16_le(image.as_slice(), nt + OPTIONAL_SIZE_FIELD) as usize;
    let table: usize = nt + OPTIONAL_HEADER_START + optional;
    let mut index: usize = 0;
    assert(image@ =~= normalized_up_to(given, 0));
    while index < count
        invariant
            section_table_fits(given),
            table == section_table_offset(given),
            count == section_count(given),
            index <= count,
            given.len() == image.len(),
            image@ == normalized_up_to(given, index as int),
        decreases count - index,
    {
        assert(SECTION_HEADER_SIZE * (index + 1) <= SECTION_HEADER_SIZE * count);
        let at: usize = table + SECTION_HEADER_SIZE * index;
        let ghost before = image@;
        proof {
            assert forall|j: int| 0 <= j < 40 implies #[trigger] before[at + j] == given[at + j] by {}
            lemma_le_byte_of_u32_le(before, at + VIRTUAL_ADDRESS_FIELD);
            lemma_le_byte_of_u32_le(before, at + VIRTUAL_SIZE_FIELD);
        }
        let virtual_address: u32 = read_u32_le(image.as_slice(), at + VIRTUAL_ADDRESS_FIELD);
        let virtual_size: u32 = read_u32_le(image.as_slice(), at + VIRTUAL_SIZE_FIELD);
        write_u32_le(image, at + RAW_POINTER_FIELD, virtual_address);
        write_u32_le(image, at + RAW_SIZE_FIELD, virtual_size);
        proof {
            let next = normalized_up_to(given, index + 1);
            assert forall|k: int| 0 <= k < given.len() implies image@[k] == next[k] by {
                if at <= k < at + 40 {
                    assert((k - table) % 40 == k - at) by {
                        assert(k - table == 40 * index + (k - at));
                    }
                    if at + 20 <= k < at + 24 {
                        assert(le_byte(virtual_address as int, k - (at + 20)) == before[at + 12 + (k
                            - (at + 20))]);
                    } else if at + 16 <= k < at + 20 {
                        assert(le_byte(virtual_size as int, k - (at + 16)) == before[at + 8 + (k - (
                        at + 16))]);
                    }
                }
            }
            assert(image@ =~= next);
        }
        index += 1;
    }
    proof {
        assert(image@ =~= normalized(given));
        lemma_normalized_mirrors_virtual_layout(given);
        if DOS_HEADER_SIZE <= section_table_offset(given) {
            lemma_normalized_is_normalized(given);
        }
    }
}

} // verus!
