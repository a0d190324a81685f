//! Byte images of file headers with given field values: what the field reads of this crate
//! undo.
use vstd::arithmetic::div_mod::lemma_fundamental_div_mod;
use vstd::prelude::*;

use crate::class::{Class32, Class64, ClassParse};
use crate::encoding::{pow256, uint_value, EncodingParse};
use crate::header::{
    header_fields, spec_raw_header, ClassParseElfHeader, HeaderFields, HeaderLayout,
    ParseElfHeaderRawError,
};
use crate::ident::{Class, Encoding, CLASS_INDEX, ENCODING_INDEX, IDENT_SIZE};

verus! {

/// The `width` bytes that hold `value` in the given byte order.
pub open spec fn uint_bytes(big_endian: bool, value: nat, width: nat) -> Seq<u8>
    decreases width,
{
    if width == 0 {
        Seq::empty()
    } else if big_endian {
        uint_bytes(true, value / 256, (width - 1) as nat).push((value % 256) as u8)
    } else {
        seq![(value % 256) as u8] + uint_bytes(false, value / 256, (width - 1) as nat)
    }
}

/// Reading the bytes that hold a number gives the number back.
pub proof fn lemma_uint_bytes(big_endian: bool, value: nat, width: nat)
    requires
        value < pow256(width),
    ensures
        uint_bytes(big_endian, value, width).len() == width,
        uint_value(big_endian, uint_bytes(big_endian, value, width)) == value,
    decreases width,
{
    if width > 0 {
        let q = value / 256;
        let r = value % 256;
        lemma_fundamental_div_mod(value as int, 256);
        assert(q < pow256((width - 1) as nat));
        lemma_uint_bytes(big_endian, q, (width - 1) as nat);
        let rest = uint_bytes(big_endian, q, (width - 1) as nat);
        if big_endian {
            assert(rest.push(r as u8).drop_last() =~= rest);
        } else {
            assert((seq![r as u8] + rest).drop_first() =~= rest);
        }
    }
}

/// Whether every value of `f` fits the width of its field, with addresses of `address_width`
/// bytes.
pub open spec fn header_fields_fit(f: HeaderFields, address_width: nat) -> bool {
    &&& f.elf_type < pow256(2)
    &&& f.machine < pow256(2)
    &&& f.file_version < pow256(4)
    &&& f.entry < pow256(address_width)
    &&& f.program_header_offset < pow256(address_width)
    &&& f.section_header_offset < pow256(address_width)
    &&& f.flags < pow256(4)
    &&& f.header_size < pow256(2)
    &&& f.program_header_size < pow256(2)
    &&& f.program_header_count < pow256(2)
    &&& f.section_header_size < pow256(2)
    &&& f.section_header_count < pow256(2)
    &&& f.section_header_string_table_index < pow256(2)
}

/// The bytes of a file header made of the identification block `ident` and the fields `f`, in
/// the order in which the format stores them, with addresses of `address_width` bytes.
pub open spec fn header_image(
    ident: Seq<u8>,
    f: HeaderFields,
    address_width: nat,
    big_endian: bool,
) -> Seq<u8> {
    ident + uint_bytes(big_endian, f.elf_type, 2) + uint_bytes(big_endian, f.machine, 2)
        + uint_bytes(big_endian, f.file_version, 4) + uint_bytes(
        big_endian,
        f.entry,
        address_width,
    ) + uint_bytes(big_endian, f.program_header_offset, address_width) + uint_bytes(
        big_endian,
        f.section_header_offset,
        address_width,
    ) + uint_bytes(big_endian, f.flags, 4) + uint_bytes(big_endian, f.header_size, 2)
        + uint_bytes(big_endian, f.program_header_size, 2) + uint_bytes(
        big_endian,
        f.program_header_count,
        2,
    ) + uint_bytes(big_endian, f.section_header_size, 2) + uint_bytes(
        big_endian,
        f.section_header_count,
        2,
    ) + uint_bytes(big_endian, f.section_header_string_table_index, 2)
}

/// The layout of a header whose fields follow each other in the order in which the format
/// stores them, with addresses of `w` bytes.
spec fn packed_header_layout(w: nat) -> HeaderLayout {
    HeaderLayout {
        elf_type: 16,
        machine: 18,
        file_version: 20,
        entry: 24,
        program_header_offset: 24 + w,
        section_header_offset: 24 + 2 * w,
        flags: 24 + 3 * w,
        header_size: 28 + 3 * w,
        program_header_size: 30 + 3 * w,
        program_header_count: 32 + 3 * w,
        section_header_size: 34 + 3 * w,
        section_header_count: 36 + 3 * w,
        section_header_string_table_index: 38 + 3 * w,
        size: 40 + 3 * w,
    }
}

/// The `width` bytes of `s` that start at `offset`.
spec fn window(s: Seq<u8>, offset: nat, width: nat) -> Seq<u8> {
    s.subrange(offset as int, (offset + width) as int)
}

/// Reading a header image with the packed layout gives back its identification block and its
/// fields.
proof fn lemma_packed_header_image(ident: Seq<u8>, f: HeaderFields, w: nat, big_endian: bool)
    requires
        ident.len() == IDENT_SIZE,
        header_fields_fit(f, w),
    ensures
        header_image(ident, f, w, big_endian).len() == packed_header_layout(w).size,
        header_image(ident, f, w, big_endian).subrange(0, IDENT_SIZE as int) == ident,
        header_fields(header_image(ident, f, w, big_endian), packed_header_layout(w), w, big_endian)
            == f,
{
    let b = big_endian;
    lemma_uint_bytes(b, f.elf_type, 2);
    lemma_uint_bytes(b, f.machine, 2);
    lemma_uint_bytes(b, f.file_version, 4);
    lemma_uint_bytes(b, f.entry, w);
    lemma_uint_bytes(b, f.program_header_offset, w);
    lemma_uint_bytes(b, f.section_header_offset, w);
    lemma_uint_bytes(b, f.flags, 4);
    lemma_uint_bytes(b, f.header_size, 2);
    lemma_uint_bytes(b, f.program_header_size, 2);
    lemma_uint_bytes(b, f.program_header_count, 2);
    lemma_uint_bytes(b, f.section_header_size, 2);
    lemma_uint_bytes(b, f.section_header_count, 2);
    lemma_uint_bytes(b, f.section_header_string_table_index, 2);
    let s = header_image(ident, f, w, b);
    let l = packed_header_layout(w);
    assert(s.subrange(0, IDENT_SIZE as int) =~= ident);
    assert(window(s, l.elf_type, 2) =~= uint_bytes(b, f.elf_type, 2));
    assert(window(s, l.machine, 2) =~= uint_bytes(b, f.machine, 2));
    assert(window(s, l.file_version, 4) =~= uint_bytes(
        b,
        f.file_version,
        4,
    ));
    assert(window(s, l.entry, w) =~= uint_bytes(b, f.entry, w));
    assert(window(s, l.program_header_offset, w) =~= uint_bytes(
        b,
        f.program_header_offset,
        w,
    ));
    assert(window(s, l.section_header_offset, w) =~= uint_bytes(
        b,
        f.section_header_offset,
        w,
    ));
    assert(window(s, l.flags, 4) =~= uint_bytes(b, f.flags, 4));
    assert(window(s, l.header_size, 2) =~= uint_bytes(
        b,
        f.header_size,
        2,
    ));
    assert(window(s, l.program_header_size, 2) =~= uint_bytes(
        b,
        f.program_header_size,
        2,
    ));
    assert(window(s, l.program_header_count, 2) =~= uint_bytes(
        b,
        f.program_header_count,
        2,
    ));
    assert(window(s, l.section_header_size, 2) =~= uint_bytes(
        b,
        f.section_header_size,
        2,
    ));
    assert(window(s, l.section_header_count, 2) =~= uint_bytes(
        b,
        f.section_header_count,
        2,
    ));
    assert(window(s, l.section_header_string_table_index, 2) =~= uint_bytes(b, f.section_header_string_table_index, 2));
}

/// A header image of a class whose fields follow each other in the order of the format reads
/// back as its fields, and its raw construction succeeds.
proof fn lemma_header_round_trip<C: ClassParse, E: EncodingParse>(
    class: C,
    encoding: E,
    ident: Seq<u8>,
    f: HeaderFields,
)
    requires
        ident.len() == IDENT_SIZE,
        C::spec_from_elf_class(Class(ident[CLASS_INDEX as int])) == Some(class),
        E::spec_from_elf_encoding(Encoding(ident[ENCODING_INDEX as int])) == Some(encoding),
        class.header_layout() == packed_header_layout(class.address_width()),
        header_fields_fit(f, class.address_width()),
    ensures
        spec_raw_header::<C, E>(
            header_image(ident, f, class.address_width(), encoding.is_big_endian()),
        ) == Ok::<(C, E), ParseElfHeaderRawError>((class, encoding)),
        header_fields(
            header_image(ident, f, class.address_width(), encoding.is_big_endian()),
            class.header_layout(),
            class.address_width(),
            encoding.is_big_endian(),
        ) == f,
        header_image(ident, f, class.address_width(), encoding.is_big_endian()).subrange(
            0,
            IDENT_SIZE as int,
        ) == ident,
{
    let s = header_image(ident, f, class.address_width(), encoding.is_big_endian());
    lemma_packed_header_image(ident, f, class.address_width(), encoding.is_big_endian());
    assert(s[CLASS_INDEX as int] == ident[CLASS_INDEX as int]);
    assert(s[ENCODING_INDEX as int] == ident[ENCODING_INDEX as int]);
}

/// A 32-bit header written from an identification block and field values, in either byte
/// order, reads back as those values, and its raw construction succeeds.
pub proof fn lemma_header_round_trip_32<E: EncodingParse>(
    encoding: E,
    ident: Seq<u8>,
    f: HeaderFields,
)
    requires
        ident.len() == IDENT_SIZE,
        ident[CLASS_INDEX as int] == Class::CLASS32,
        E::spec_from_elf_encoding(Encoding(ident[ENCODING_INDEX as int])) == Some(encoding),
        header_fields_fit(f, 4),
    ensures
        spec_raw_header::<Class32, E>(header_image(ident, f, 4, encoding.is_big_endian()))
            == Ok::<(Class32, E), ParseElfHeaderRawError>((Class32, encoding)),
        header_fields(
            header_image(ident, f, 4, encoding.is_big_endian()),
            Class32.header_layout(),
            4,
            encoding.is_big_endian(),
        ) == f,
        header_image(ident, f, 4, encoding.is_big_endian()).subrange(0, IDENT_SIZE as int)
            == ident,
{
    assert(Class32.header_layout() == packed_header_layout(4));
    lemma_header_round_trip(Class32, encoding, ident, f);
}

/// A 64-bit header written from an identification block and field values, in either byte
/// order, reads back as those values, and its raw construction succeeds.
pub proof fn lemma_header_round_trip_64<E: EncodingParse>(
    encoding: E,
    ident: Seq<u8>,
    f: HeaderFields,
)
    requires
        ident.len() == IDENT_SIZE,
        ident[CLASS_INDEX as int] == Class::CLASS64,
        E::spec_from_elf_encoding(Encoding(ident[ENCODING_INDEX as int])) == Some(encoding),
        header_fields_fit(f, 8),
    ensures
        spec_raw_header::<Class64, E>(header_image(ident, f, 8, encoding.is_big_endian()))
            == Ok::<(Class64, E), ParseElfHeaderRawError>((Class64, encoding)),
        header_fields(
            header_image(ident, f, 8, encoding.is_big_endian()),
            Class64.header_layout(),
            8,
            encoding.is_big_endian(),
        ) == f,
        header_image(ident, f, 8, encoding.is_big_endian()).subrange(0, IDENT_SIZE as int)
            == ident,
{
    assert(Class64.header_layout() == packed_header_layout(8));
    lemma_header_round_trip(Class64, encoding, ident, f);
}

} // verus!
