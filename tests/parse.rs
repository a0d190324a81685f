use elf::class::{Class32, Class64, ClassParseBase, Merge, UnsupportedClassError};
use elf::encoding::{BigEndian, EncodingParse, LittleEndian, UnsupportedEncodingError};
use elf::header::{
    ClassParseElfHeader, ElfHeader, ElfType, Machine, ParseElfHeaderMinimalError, ParseElfHeaderRawError,
};
use elf::ident::{Class, ElfIdent, Encoding, ParseElfIdentMinimalError};
use elf::program_header::{ClassParseProgramHeader, RawProgramHeader, SegmentFlags, SegmentType};
use elf::{ElfFile, MinimalParse, ParseElfFileError, Raw};

/// Field values of a file header, written by the helpers below.
struct Fields {
    elf_type: u16,
    machine: u16,
    file_version: u32,
    entry: u64,
    program_header_offset: u64,
    section_header_offset: u64,
    flags: u32,
    header_size: u16,
    program_header_size: u16,
    program_header_count: u16,
    section_header_size: u16,
    section_header_count: u16,
    section_header_string_table_index: u16,
}

fn put(bytes: &mut Vec<u8>, offset: usize, value: u64, width: usize, big: bool) {
    for i in 0..width {
        let byte = ((value >> (8 * i)) & 0xff) as u8;
        let at = if big { offset + width - 1 - i } else { offset + i };
        bytes[at] = byte;
    }
}

fn ident_bytes(class: u8, encoding: u8) -> Vec<u8> {
    let mut bytes = vec![0u8; 16];
    bytes[0] = 0x7f;
    bytes[1] = b'E';
    bytes[2] = b'L';
    bytes[3] = b'F';
    bytes[4] = class;
    bytes[5] = encoding;
    bytes[6] = 1;
    bytes
}

/// A 64-bit header with the fields of `f`, written field by field in the file's order.
fn header64(big: bool, f: &Fields) -> Vec<u8> {
    let mut bytes = ident_bytes(2, if big { 2 } else { 1 });
    bytes.resize(64, 0);
    put(&mut bytes, 16, f.elf_type as u64, 2, big);
    put(&mut bytes, 18, f.machine as u64, 2, big);
    put(&mut bytes, 20, f.file_version as u64, 4, big);
    put(&mut bytes, 24, f.entry, 8, big);
    put(&mut bytes, 32, f.program_header_offset, 8, big);
    put(&mut bytes, 40, f.section_header_offset, 8, big);
    put(&mut bytes, 48, f.flags as u64, 4, big);
    put(&mut bytes, 52, f.header_size as u64, 2, big);
    put(&mut bytes, 54, f.program_header_size as u64, 2, big);
    put(&mut bytes, 56, f.program_header_count as u64, 2, big);
    put(&mut bytes, 58, f.section_header_size as u64, 2, big);
    put(&mut bytes, 60, f.section_header_count as u64, 2, big);
    put(&mut bytes, 62, f.section_header_string_table_index as u64, 2, big);
    bytes
}

/// A 32-bit header with the fields of `f`, written field by field in the file's order.
fn header32(big: bool, f: &Fields) -> Vec<u8> {
    let mut bytes = ident_bytes(1, if big { 2 } else { 1 });
    bytes.resize(52, 0);
    put(&mut bytes, 16, f.elf_type as u64, 2, big);
    put(&mut bytes, 18, f.machine as u64, 2, big);
    put(&mut bytes, 20, f.file_version as u64, 4, big);
    put(&mut bytes, 24, f.entry, 4, big);
    put(&mut bytes, 28, f.program_header_offset, 4, big);
    put(&mut bytes, 32, f.section_header_offset, 4, big);
    put(&mut bytes, 36, f.flags as u64, 4, big);
    put(&mut bytes, 40, f.header_size as u64, 2, big);
    put(&mut bytes, 42, f.program_header_size as u64, 2, big);
    put(&mut bytes, 44, f.program_header_count as u64, 2, big);
    put(&mut bytes, 46, f.section_header_size as u64, 2, big);
    put(&mut bytes, 48, f.section_header_count as u64, 2, big);
    put(&mut bytes, 50, f.section_header_string_table_index as u64, 2, big);
    bytes
}

fn fields64() -> Fields {
    Fields {
        elf_type: 2,
        machine: 62,
        file_version: 1,
        entry: 0x0040_1000_dead_beef,
        program_header_offset: 64,
        section_header_offset: 0x1122_3344_5566_7788,
        flags: 0x8000_0001,
        header_size: 64,
        program_header_size: 56,
        program_header_count: 1,
        section_header_size: 64,
        section_header_count: 0x1234,
        section_header_string_table_index: 0xfffe,
    }
}

fn fields32() -> Fields {
    Fields {
        elf_type: 3,
        machine: 40,
        file_version: 1,
        entry: 0x8000_1234,
        program_header_offset: 52,
        section_header_offset: 0xcafe_babe,
        flags: 0x0500_0400,
        header_size: 52,
        program_header_size: 32,
        program_header_count: 7,
        section_header_size: 40,
        section_header_count: 0x0102,
        section_header_string_table_index: 0x0a0b,
    }
}

/// The 64-bit little-endian file of the main scenario.
fn scenario_file() -> Vec<u8> {
    let mut f = fields64();
    f.entry = 0;
    f.section_header_offset = 0;
    f.flags = 0;
    f.section_header_size = 0;
    f.section_header_count = 0;
    f.section_header_string_table_index = 0;
    header64(false, &f)
}

fn check_header<C: elf::class::ClassParse, E: EncodingParse, S: elf::ParseState>(
    header: &ElfHeader<C, E, S>,
    f: &Fields,
) where
    C::ClassUsize: Into<u64>,
{
    assert_eq!(header.elf_type(), ElfType(f.elf_type));
    assert_eq!(header.machine(), Machine(f.machine));
    assert_eq!(header.file_version(), f.file_version);
    assert_eq!(header.entry().into(), f.entry);
    assert_eq!(header.program_header_offset().into(), f.program_header_offset);
    assert_eq!(header.section_header_offset().into(), f.section_header_offset);
    assert_eq!(header.flags(), f.flags);
    assert_eq!(header.header_size(), f.header_size);
    assert_eq!(header.program_header_size(), f.program_header_size);
    assert_eq!(header.program_header_count(), f.program_header_count);
    assert_eq!(header.section_header_size(), f.section_header_size);
    assert_eq!(header.section_header_count(), f.section_header_count);
    assert_eq!(
        header.section_header_string_table_index(),
        f.section_header_string_table_index
    );
}

#[test]
fn scenario_valid_64_bit_little_endian_file() {
    let bytes = scenario_file();
    let file = ElfFile::<Class64, LittleEndian>::parse(&bytes).unwrap();
    let header = file.header();
    assert_eq!(header.elf_type(), ElfType(ElfType::EXECUTABLE));
    assert_eq!(header.machine(), Machine(Machine::X86_64));
    assert_eq!(header.header_size(), 64);
    assert_eq!(header.program_header_size(), 56);
    assert_eq!(header.program_header_count(), 1);
}

#[test]
fn scenario_small_declared_header_size() {
    let mut bytes = scenario_file();
    bytes[52] = 32;
    bytes[53] = 0;
    assert_eq!(
        ElfFile::<Class64, LittleEndian>::parse(&bytes).err(),
        Some(ParseElfFileError::InvalidElfHeaderSize)
    );
    let raw = ElfHeader::<Class64, LittleEndian, Raw>::new(&bytes).unwrap();
    assert_eq!(raw.header_size(), 32);
    assert_eq!(
        ElfHeader::<Class64, LittleEndian, MinimalParse>::minimal_parse(&bytes).err(),
        Some(ParseElfHeaderMinimalError::InvalidElfHeaderSize)
    );
}

#[test]
fn round_trip_64_little_endian() {
    let f = fields64();
    let bytes = header64(false, &f);
    check_header(&ElfHeader::<Class64, LittleEndian, Raw>::new(&bytes).unwrap(), &f);
    check_header(&ElfFile::<Class64, LittleEndian>::parse(&bytes).unwrap().header(), &f);
}

#[test]
fn round_trip_64_big_endian() {
    let f = fields64();
    let bytes = header64(true, &f);
    check_header(&ElfHeader::<Class64, BigEndian, Raw>::new(&bytes).unwrap(), &f);
    check_header(&ElfFile::<Class64, BigEndian>::parse(&bytes).unwrap().header(), &f);
}

#[test]
fn round_trip_32_little_endian() {
    let f = fields32();
    let bytes = header32(false, &f);
    check_header(&ElfHeader::<Class32, LittleEndian, Raw>::new(&bytes).unwrap(), &f);
    check_header(&ElfFile::<Class32, LittleEndian>::parse(&bytes).unwrap().header(), &f);
}

#[test]
fn round_trip_32_big_endian() {
    let f = fields32();
    let bytes = header32(true, &f);
    check_header(&ElfHeader::<Class32, BigEndian, Raw>::new(&bytes).unwrap(), &f);
    check_header(&ElfFile::<Class32, BigEndian>::parse(&bytes).unwrap().header(), &f);
}

#[test]
fn short_slices_are_refused() {
    let full = scenario_file();
    for len in 0..16 {
        let bytes = &full[..len];
        assert_eq!(
            ElfHeader::<Class64, LittleEndian, Raw>::new(bytes).err(),
            Some(ParseElfHeaderRawError::TooSmall)
        );
        assert_eq!(
            ElfHeader::<Class64, LittleEndian, MinimalParse>::minimal_parse(bytes).err(),
            Some(ParseElfHeaderMinimalError::IdentError(
                ParseElfIdentMinimalError::TooSmall
            ))
        );
        assert_eq!(
            ElfFile::<Class64, LittleEndian>::parse(bytes).err(),
            Some(ParseElfFileError::TooSmallForHeader)
        );
        assert!(ElfIdent::new(bytes).is_none());
    }
}

#[test]
fn slice_shorter_than_header_is_refused() {
    let full = scenario_file();
    for len in 16..64 {
        let bytes = &full[..len];
        assert_eq!(
            ElfHeader::<Class64, LittleEndian, Raw>::new(bytes).err(),
            Some(ParseElfHeaderRawError::TooSmall)
        );
        assert_eq!(
            ElfHeader::<Class64, LittleEndian, MinimalParse>::minimal_parse(bytes).err(),
            Some(ParseElfHeaderMinimalError::TooSmall)
        );
        assert_eq!(
            ElfFile::<Class64, LittleEndian>::parse(bytes).err(),
            Some(ParseElfFileError::TooSmallForHeader)
        );
    }
    assert!(ElfHeader::<Class64, LittleEndian, Raw>::new(&full).is_ok());
}

#[test]
fn unknown_class_tag_is_refused_with_the_tag() {
    for tag in [0u8, 3, 7, 0xff] {
        let mut bytes = scenario_file();
        bytes[4] = tag;
        let error = UnsupportedClassError(Class(tag));
        assert_eq!(
            ElfHeader::<Class64, LittleEndian, Raw>::new(&bytes).err(),
            Some(ParseElfHeaderRawError::UnsupportedClass(error))
        );
        assert_eq!(
            ElfHeader::<Class64, LittleEndian, MinimalParse>::minimal_parse(&bytes).err(),
            Some(ParseElfHeaderMinimalError::IdentError(
                ParseElfIdentMinimalError::UnsupportedClass(error)
            ))
        );
        assert_eq!(
            ElfFile::<Class64, LittleEndian>::parse(&bytes).err(),
            Some(ParseElfFileError::UnsupportedClass(error))
        );
        assert_eq!(
            ElfFile::<Merge<Class32, Class64>, LittleEndian>::parse(&bytes).err(),
            Some(ParseElfFileError::UnsupportedClass(error))
        );
    }
}

#[test]
fn class_of_the_other_width_is_refused() {
    let bytes = scenario_file();
    let error = UnsupportedClassError(Class(Class::CLASS64));
    assert_eq!(
        ElfHeader::<Class32, LittleEndian, Raw>::new(&bytes).err(),
        Some(ParseElfHeaderRawError::UnsupportedClass(error))
    );
    assert_eq!(
        ElfHeader::<Class32, LittleEndian, MinimalParse>::minimal_parse(&bytes).err(),
        Some(ParseElfHeaderMinimalError::UnsupportedClass(error))
    );
    assert_eq!(
        ElfFile::<Class32, LittleEndian>::parse(&bytes).err(),
        Some(ParseElfFileError::UnsupportedClass(error))
    );
}

#[test]
fn encoding_that_is_not_accepted_is_refused() {
    let bytes = scenario_file();
    let error = UnsupportedEncodingError(Encoding(Encoding::LITTLE_ENDIAN));
    assert_eq!(
        ElfHeader::<Class64, BigEndian, Raw>::new(&bytes).err(),
        Some(ParseElfHeaderRawError::UnsupportedEncoding(error))
    );
    assert_eq!(
        ElfHeader::<Class64, BigEndian, MinimalParse>::minimal_parse(&bytes).err(),
        Some(ParseElfHeaderMinimalError::UnsupportedEncoding(error))
    );
    assert_eq!(
        ElfFile::<Class64, BigEndian>::parse(&bytes).err(),
        Some(ParseElfFileError::UnsupportedEncoding(error))
    );
    let mut unknown = scenario_file();
    unknown[5] = 9;
    let error = UnsupportedEncodingError(Encoding(9));
    assert_eq!(
        ElfHeader::<Class64, LittleEndian, Raw>::new(&unknown).err(),
        Some(ParseElfHeaderRawError::UnsupportedEncoding(error))
    );
    assert_eq!(
        ElfHeader::<Class64, LittleEndian, MinimalParse>::minimal_parse(&unknown).err(),
        Some(ParseElfHeaderMinimalError::IdentError(
            ParseElfIdentMinimalError::UnsupportedEncoding(error)
        ))
    );
    assert_eq!(
        ElfFile::<Class64, LittleEndian>::parse(&unknown).err(),
        Some(ParseElfFileError::UnsupportedEncoding(error))
    );
}

#[test]
fn flipped_magic_byte_is_refused() {
    for i in 0..4 {
        for flip in [0x01u8, 0x80, 0xff] {
            let mut bytes = scenario_file();
            bytes[i] ^= flip;
            assert_eq!(
                ElfFile::<Class64, LittleEndian>::parse(&bytes).err(),
                Some(ParseElfFileError::InvalidMagicBytes)
            );
            assert!(ElfHeader::<Class64, LittleEndian, Raw>::new(&bytes).is_ok());
        }
    }
}

#[test]
fn nonzero_padding_is_refused() {
    for i in 9..16 {
        let mut bytes = scenario_file();
        bytes[i] = 1;
        assert_eq!(
            ElfFile::<Class64, LittleEndian>::parse(&bytes).err(),
            Some(ParseElfFileError::NonZeroPadding)
        );
        let raw = ElfHeader::<Class64, LittleEndian, Raw>::new(&bytes).unwrap();
        assert_eq!(raw.identifier().padding()[i - 9], 1);
    }
}

#[test]
fn abi_bytes_are_not_padding() {
    let mut bytes = scenario_file();
    bytes[7] = 9;
    bytes[8] = 2;
    let file = ElfFile::<Class64, LittleEndian>::parse(&bytes).unwrap();
    let ident = file.header().identifier();
    assert_eq!(ident.os_abi(), 9);
    assert_eq!(ident.abi_version(), 2);
    assert_eq!(ident.padding(), &[0u8; 7][..]);
}

#[test]
fn unsupported_header_version_is_refused() {
    let mut bytes = scenario_file();
    bytes[6] = 2;
    assert_eq!(
        ElfFile::<Class64, LittleEndian>::parse(&bytes).err(),
        Some(ParseElfFileError::UnsupportedElfHeaderVersion)
    );
}

#[test]
fn unsupported_file_version_is_refused() {
    let mut bytes = scenario_file();
    bytes[20] = 2;
    assert_eq!(
        ElfFile::<Class64, LittleEndian>::parse(&bytes).err(),
        Some(ParseElfFileError::UnsupportedElfFileVersion)
    );
}

#[test]
fn small_program_header_size_is_refused() {
    let mut bytes = scenario_file();
    bytes[54] = 55;
    assert_eq!(
        ElfFile::<Class64, LittleEndian>::parse(&bytes).err(),
        Some(ParseElfFileError::InvalidProgramHeaderSize)
    );
    bytes[54] = 57;
    assert!(ElfFile::<Class64, LittleEndian>::parse(&bytes).is_ok());
}

#[test]
fn larger_declared_header_size_is_accepted() {
    let mut bytes = scenario_file();
    bytes[52] = 0x80;
    let file = ElfFile::<Class64, LittleEndian>::parse(&bytes).unwrap();
    assert_eq!(file.header().header_size(), 0x80);
}

#[test]
fn checks_run_in_order() {
    let mut bytes = scenario_file();
    bytes[0] = 0;
    bytes[6] = 0;
    bytes[9] = 1;
    bytes[20] = 0;
    assert_eq!(
        ElfFile::<Class64, LittleEndian>::parse(&bytes).err(),
        Some(ParseElfFileError::InvalidMagicBytes)
    );
    bytes[0] = 0x7f;
    assert_eq!(
        ElfFile::<Class64, LittleEndian>::parse(&bytes).err(),
        Some(ParseElfFileError::UnsupportedElfHeaderVersion)
    );
    bytes[6] = 1;
    assert_eq!(
        ElfFile::<Class64, LittleEndian>::parse(&bytes).err(),
        Some(ParseElfFileError::NonZeroPadding)
    );
    bytes[9] = 0;
    assert_eq!(
        ElfFile::<Class64, LittleEndian>::parse(&bytes).err(),
        Some(ParseElfFileError::UnsupportedElfFileVersion)
    );
}

#[test]
fn repeated_reads_agree() {
    let f = fields64();
    let bytes = header64(true, &f);
    let header = ElfHeader::<Class64, BigEndian, Raw>::new(&bytes).unwrap();
    assert_eq!(header.entry(), header.entry());
    assert_eq!(header.elf_type(), header.elf_type());
    assert_eq!(header.section_header_count(), header.section_header_count());
    assert_eq!(header.identifier().magic(), header.identifier().magic());
    let copy = header;
    assert_eq!(copy.flags(), header.flags());
    assert_eq!(bytes, header64(true, &f));
}

#[test]
fn merge_picks_the_first_class() {
    assert_eq!(
        Merge::<Class32, Class64>::from_elf_class(Class(1)),
        Ok(Merge::A(Class32))
    );
    assert_eq!(
        Merge::<Class32, Class64>::from_elf_class(Class(2)),
        Ok(Merge::B(Class64))
    );
    assert_eq!(
        Merge::<Class64, Class64>::from_elf_class(Class(2)),
        Ok(Merge::A(Class64))
    );
    assert_eq!(
        Merge::<Class32, Class64>::from_elf_class(Class(5)),
        Err(UnsupportedClassError(Class(5)))
    );
}

#[test]
fn merge_widens_32_bit_values() {
    let f = fields32();
    let bytes = header32(false, &f);
    let file = ElfFile::<Merge<Class32, Class64>, LittleEndian>::parse(&bytes).unwrap();
    let header = file.header();
    let entry: u64 = header.entry();
    assert_eq!(entry, 0x8000_1234);
    assert_eq!(header.program_header_offset(), 52u64);
    assert_eq!(header.section_header_offset(), 0xcafe_babeu64);
    check_header(&header, &f);
    let wide = header64(false, &fields64());
    let file = ElfFile::<Merge<Class32, Class64>, LittleEndian>::parse(&wide).unwrap();
    assert_eq!(file.header().entry(), 0x0040_1000_dead_beef);
}

#[test]
fn merge_parses_signed_values_widened() {
    let data = [0xfeu8, 0xff, 0xff, 0xff, 0, 0, 0, 0];
    let merge = Merge::<Class32, Class64>::A(Class32);
    assert_eq!(merge.parse_class_isize_at(LittleEndian, 0, &data), -2i64);
    assert_eq!(merge.parse_class_usize_at(LittleEndian, 0, &data), 0xffff_fffeu64);
    let wide = Merge::<Class32, Class64>::B(Class64);
    assert_eq!(wide.parse_class_isize_at(LittleEndian, 0, &data), 0xffff_fffei64);
}

#[test]
fn decodes_scalars_in_both_byte_orders() {
    let data = [0x01u8, 0x02, 0x03, 0x04, 0x05, 0x06, 0x07, 0x08, 0x09];
    assert_eq!(LittleEndian.parse_u16_at(0, &data), 0x0201);
    assert_eq!(BigEndian.parse_u16_at(0, &data), 0x0102);
    assert_eq!(LittleEndian.parse_u32_at(1, &data), 0x0504_0302);
    assert_eq!(BigEndian.parse_u32_at(1, &data), 0x0203_0405);
    assert_eq!(LittleEndian.parse_u64_at(1, &data), 0x0908_0706_0504_0302);
    assert_eq!(BigEndian.parse_u64_at(1, &data), 0x0203_0405_0607_0809);
    let negative = [0xffu8, 0xff, 0xff, 0x80, 0x80, 0xff, 0xff, 0xff, 0xff];
    assert_eq!(LittleEndian.parse_i32_at(0, &negative), -0x7f00_0001);
    assert_eq!(BigEndian.parse_i32_at(0, &negative), -0x80);
    assert_eq!(LittleEndian.parse_i64_at(1, &negative), -0x7f7f_0001);
    assert_eq!(BigEndian.parse_i64_at(0, &negative), -0x7f_7f00_0001);
    assert_eq!(LittleEndian.parse_i32_at(4, &negative), -0x80);
    assert_eq!(BigEndian.parse_i32_at(0, &data), 0x0102_0304);
}

#[test]
fn encodings_accept_their_own_tags() {
    assert_eq!(LittleEndian::from_elf_encoding(Encoding(1)), Ok(LittleEndian));
    assert_eq!(
        LittleEndian::from_elf_encoding(Encoding(2)),
        Err(UnsupportedEncodingError(Encoding(2)))
    );
    assert_eq!(BigEndian::from_elf_encoding(Encoding(2)), Ok(BigEndian));
    assert_eq!(
        BigEndian::from_elf_encoding(Encoding(0)),
        Err(UnsupportedEncodingError(Encoding(0)))
    );
    assert_eq!(Class32::from_elf_class(Class(1)), Ok(Class32));
    assert_eq!(
        Class64::from_elf_class(Class(1)),
        Err(UnsupportedClassError(Class(1)))
    );
}

#[test]
fn ident_fields() {
    let bytes = scenario_file();
    let ident = ElfIdent::minimal_parse(&bytes).unwrap();
    assert_eq!(ident.magic(), [0x7f, b'E', b'L', b'F']);
    assert_eq!(ident.magic(), elf::ident::MAGIC_BYTES);
    assert_eq!(ident.class(), Class(2));
    assert_eq!(ident.encoding(), Encoding(1));
    assert_eq!(ident.header_version(), 1);
    let raw = ElfIdent::new(&bytes[..16]).unwrap();
    assert_eq!(raw.class(), Class(2));
}

#[test]
fn error_conversions() {
    let class = UnsupportedClassError(Class(9));
    let encoding = UnsupportedEncodingError(Encoding(9));
    assert_eq!(
        ParseElfHeaderRawError::from(class),
        ParseElfHeaderRawError::UnsupportedClass(class)
    );
    assert_eq!(
        ParseElfHeaderRawError::from(encoding),
        ParseElfHeaderRawError::UnsupportedEncoding(encoding)
    );
    assert_eq!(
        ParseElfHeaderMinimalError::from(class),
        ParseElfHeaderMinimalError::UnsupportedClass(class)
    );
    assert_eq!(
        ParseElfHeaderMinimalError::from(encoding),
        ParseElfHeaderMinimalError::UnsupportedEncoding(encoding)
    );
    assert_eq!(
        ParseElfHeaderMinimalError::from(ParseElfIdentMinimalError::TooSmall),
        ParseElfHeaderMinimalError::IdentError(ParseElfIdentMinimalError::TooSmall)
    );
    assert_eq!(
        ParseElfFileError::from(ParseElfHeaderMinimalError::TooSmall),
        ParseElfFileError::TooSmallForHeader
    );
    assert_eq!(
        ParseElfFileError::from(ParseElfHeaderMinimalError::IdentError(
            ParseElfIdentMinimalError::UnsupportedEncoding(encoding)
        )),
        ParseElfFileError::UnsupportedEncoding(encoding)
    );
    assert_eq!(
        ParseElfFileError::from(ParseElfHeaderMinimalError::InvalidElfHeaderSize),
        ParseElfFileError::InvalidElfHeaderSize
    );
}

fn program_header64(big: bool) -> Vec<u8> {
    let mut bytes = vec![0u8; 60];
    put(&mut bytes, 0, SegmentType::LOAD as u64, 4, big);
    put(&mut bytes, 4, (SegmentFlags::READ | SegmentFlags::EXECUTE) as u64, 4, big);
    put(&mut bytes, 8, 0x1000, 8, big);
    put(&mut bytes, 16, 0x0040_1000, 8, big);
    put(&mut bytes, 24, 0x0050_1000, 8, big);
    put(&mut bytes, 32, 0x234, 8, big);
    put(&mut bytes, 40, 0x1_0000_0234, 8, big);
    put(&mut bytes, 48, 0x1000, 8, big);
    bytes[56..].copy_from_slice(&[0xaa; 4]);
    bytes
}

#[test]
fn program_header_64_fields() {
    for big in [false, true] {
        let bytes = program_header64(big);
        let ph = if big {
            let ph = RawProgramHeader::parse(Class64, BigEndian, &bytes).unwrap();
            (ph.segment_type(), ph.flags(), ph.file_offset(), ph.virtual_address(),
             ph.physical_address(), ph.file_size(), ph.memory_size(), ph.alignment())
        } else {
            let ph = RawProgramHeader::parse(Class64, LittleEndian, &bytes).unwrap();
            (ph.segment_type(), ph.flags(), ph.file_offset(), ph.virtual_address(),
             ph.physical_address(), ph.file_size(), ph.memory_size(), ph.alignment())
        };
        assert_eq!(ph.0, SegmentType(SegmentType::LOAD));
        assert_eq!(ph.1, SegmentFlags(5));
        assert_eq!(ph.2, 0x1000);
        assert_eq!(ph.3, 0x0040_1000);
        assert_eq!(ph.4, 0x0050_1000);
        assert_eq!(ph.5, 0x234);
        assert_eq!(ph.6, 0x1_0000_0234);
        assert_eq!(ph.7, 0x1000);
    }
}

#[test]
fn program_header_32_fields() {
    let mut bytes = vec![0u8; 32];
    put(&mut bytes, 0, SegmentType::TLS as u64, 4, false);
    put(&mut bytes, 4, 0x100, 4, false);
    put(&mut bytes, 8, 0x8000, 4, false);
    put(&mut bytes, 12, 0x9000, 4, false);
    put(&mut bytes, 16, 0x20, 4, false);
    put(&mut bytes, 20, 0x30, 4, false);
    put(&mut bytes, 24, SegmentFlags::WRITE as u64, 4, false);
    put(&mut bytes, 28, 4, 4, false);
    let ph = RawProgramHeader::parse(Class32, LittleEndian, &bytes).unwrap();
    assert_eq!(ph.segment_type(), SegmentType(7));
    assert_eq!(ph.file_offset(), 0x100u32);
    assert_eq!(ph.virtual_address(), 0x8000u32);
    assert_eq!(ph.physical_address(), 0x9000u32);
    assert_eq!(ph.file_size(), 0x20u32);
    assert_eq!(ph.memory_size(), 0x30u32);
    assert_eq!(ph.flags(), SegmentFlags(SegmentFlags::WRITE));
    assert_eq!(ph.alignment(), 4u32);
    let merged = RawProgramHeader::parse(Merge::<Class32, Class64>::A(Class32), LittleEndian, &bytes)
        .unwrap();
    assert_eq!(merged.memory_size(), 0x30u64);
    assert_eq!(merged.flags(), SegmentFlags(SegmentFlags::WRITE));
}

#[test]
fn program_header_needs_a_full_entry() {
    let bytes = program_header64(false);
    assert!(RawProgramHeader::parse(Class64, LittleEndian, &bytes[..55]).is_none());
    assert!(RawProgramHeader::parse(Class64, LittleEndian, &bytes[..56]).is_some());
    assert!(RawProgramHeader::parse(Class32, LittleEndian, &bytes[..31]).is_none());
    assert!(RawProgramHeader::parse(Class32, LittleEndian, &bytes[..32]).is_some());
    assert!(RawProgramHeader::parse(Class32, LittleEndian, &[]).is_none());
}

#[test]
fn layout_sizes() {
    assert_eq!(Class32.expected_elf_header_size(), 52);
    assert_eq!(Class64.expected_elf_header_size(), 64);
    assert_eq!(Class32.expected_program_header_size(), 32);
    assert_eq!(Class64.expected_program_header_size(), 56);
    assert_eq!(Class64.segment_flags_offset(), 4);
    assert_eq!(Class32.segment_flags_offset(), 24);
    assert_eq!(Merge::<Class32, Class64>::A(Class32).entry_offset(), 24);
    assert_eq!(Merge::<Class32, Class64>::B(Class64).section_header_offset_offset(), 40);
    assert_eq!(Merge::<Class32, Class64>::A(Class32).section_header_offset_offset(), 32);
}

#[test]
fn tag_names() {
    assert_eq!(ElfType(ElfType::EXECUTABLE).name(), Some("Executable"));
    assert_eq!(ElfType(ElfType::SHARED).name(), Some("SharedObject"));
    assert_eq!(ElfType(0xfe00).name(), None);
    assert_eq!(Machine(Machine::X86_64).name(), Some("x86_64"));
    assert_eq!(Machine(Machine::AARCH64).name(), Some("Aarch64"));
    assert_eq!(Machine(Machine::ARM).name(), Some("Aarch32"));
    assert_eq!(Machine(7).name(), None);
    assert_eq!(SegmentType(SegmentType::PHDR).name(), Some("ProgramHeaders"));
    assert_eq!(SegmentType(SegmentType::NULL).name(), Some("Null"));
    assert_eq!(SegmentType(0x6474_e550).name(), None);
}

#[test]
fn error_messages() {
    assert_eq!(
        ParseElfFileError::NonZeroPadding.message(),
        "error parsing ELF identifier: ELF identifier padding was non-zero"
    );
    assert_eq!(
        ParseElfFileError::TooSmallForHeader.message(),
        "error parsing ELF header: the given slice is too small"
    );
    assert_eq!(
        ParseElfFileError::UnsupportedClass(UnsupportedClassError(Class(3))).message(),
        "error parsing ELF file: unsupported ELF class"
    );
    assert_eq!(ParseElfHeaderRawError::TooSmall.message(), "slice too small");
    assert_eq!(
        ParseElfHeaderMinimalError::InvalidElfHeaderSize.message(),
        "given ELF header size is smaller than expected"
    );
    assert_eq!(
        ParseElfHeaderMinimalError::IdentError(ParseElfIdentMinimalError::TooSmall).message(),
        "error while parsing ELF identifier: slice too small"
    );
    assert_eq!(
        ParseElfIdentMinimalError::UnsupportedEncoding(UnsupportedEncodingError(Encoding(3)))
            .message(),
        "unsupported ELF encoding"
    );
}

#[test]
fn views_copy_and_print() {
    let bytes = scenario_file();
    let file = ElfFile::<Class64, LittleEndian>::parse(&bytes).unwrap();
    let header = file.header();
    let ident = header.identifier();
    let again = ident;
    assert_eq!(again.magic(), ident.magic());
    assert!(format!("{:?}", header.elf_type()).contains('2'));
    assert!(!format!("{:?}", file).is_empty());
}

#[test]
fn any_class_and_byte_order() {
    type AnyClass = Merge<Class32, Class64>;
    type AnyOrder = elf::encoding::Merge<LittleEndian, BigEndian>;
    let f = fields32();
    let bytes = header32(true, &f);
    let file = ElfFile::<AnyClass, AnyOrder>::parse(&bytes).unwrap();
    check_header(&file.header(), &f);
    let f = fields64();
    let bytes = header64(false, &f);
    let file = ElfFile::<AnyClass, AnyOrder>::parse(&bytes).unwrap();
    check_header(&file.header(), &f);
    assert_eq!(
        AnyOrder::from_elf_encoding(Encoding(2)),
        Ok(elf::encoding::Merge::B(BigEndian))
    );
    assert_eq!(
        AnyOrder::from_elf_encoding(Encoding(3)),
        Err(UnsupportedEncodingError(Encoding(3)))
    );
}
