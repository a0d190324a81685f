//! The 64-bit class.
use vstd::prelude::*;

use crate::class::{ClassParse, ClassParseBase, UnsupportedClassError, WidenFrom};
use crate::class::class_32::Class32;
use crate::encoding::EncodingParse;
use crate::header::{ClassParseElfHeader, HeaderLayout};
use crate::ident::Class;
use crate::program_header::{ClassParseProgramHeader, ProgramHeaderLayout};

verus! {
/// Parsing of files with 64-bit addresses.
#[derive(Clone, Copy, Debug, Hash, Default, PartialEq, Eq, PartialOrd, Ord)]
pub struct Class64;

impl ClassParse for Class64 {

}
impl ClassParseElfHeader for Class64 {
    open spec fn header_layout(self) -> HeaderLayout {
        HeaderLayout {
            elf_type: 16,
            machine: 18,
            file_version: 20,
            entry: 24,
            program_header_offset: 32,
            section_header_offset: 40,
            flags: 48,
            header_size: 52,
            program_header_size: 54,
            program_header_count: 56,
            section_header_size: 58,
            section_header_count: 60,
            section_header_string_table_index: 62,
            size: 64,
        }
    }

    proof fn lemma_header_layout(self) {
    }

    fn elf_type_offset(self) -> (r: usize) {
        16
    }

    fn machine_offset(self) -> (r: usize) {
        18
    }

    fn file_version_offset(self) -> (r: usize) {
        20
    }

    fn entry_offset(self) -> (r: usize) {
        24
    }

    fn flags_offset(self) -> (r: usize) {
        48
    }

    fn header_size_offset(self) -> (r: usize) {
        52
    }

    fn program_header_offset_offset(self) -> (r: usize) {
        32
    }

    fn program_header_count_offset(self) -> (r: usize) {
        56
    }

    fn program_header_size_offset(self) -> (r: usize) {
        54
    }

    fn section_header_offset_offset(self) -> (r: usize) {
        40
    }

    fn section_header_count_offset(self) -> (r: usize) {
        60
    }

    fn section_header_size_offset(self) -> (r: usize) {
        58
    }

    fn section_header_string_table_index_offset(self) -> (r: usize) {
        62
    }

    fn expected_elf_header_size(self) -> (r: usize) {
        64
    }
}

impl ClassParseProgramHeader for Class64 {
    open spec fn program_header_layout(self) -> ProgramHeaderLayout {
        ProgramHeaderLayout {
            segment_type: 0,
            flags: 4,
            file_offset: 8,
            virtual_address: 16,
            physical_address: 24,
            file_size: 32,
            memory_size: 40,
            alignment: 48,
            size: 56,
        }
    }

    proof fn lemma_program_header_layout(self) {
    }

    fn segment_type_offset(self) -> (r: usize) {
        0
    }

    fn segment_flags_offset(self) -> (r: usize) {
        4
    }

    fn segment_file_offset_offset(self) -> (r: usize) {
        8
    }

    fn segment_file_size_offset(self) -> (r: usize) {
        32
    }

    fn segment_virtual_address_offset(self) -> (r: usize) {
        16
    }

    fn segment_physical_address_offset(self) -> (r: usize) {
        24
    }

    fn segment_memory_size_offset(self) -> (r: usize) {
        40
    }

    fn segment_alignment_offset(self) -> (r: usize) {
        48
    }

    fn expected_program_header_size(self) -> (r: usize) {
        56
    }
}

impl ClassParseBase for Class64 {
    type ClassUsize = u64;

    type ClassIsize = i64;

    open spec fn spec_from_elf_class(class: Class) -> Option<Self> {
        if class.0 == Class::CLASS64 {
            Some(Class64)
        } else {
            None
        }
    }

    open spec fn address_width(self) -> nat {
        8
    }

    open spec fn usize_value(value: u64) -> int {
        value as int
    }

    open spec fn isize_value(value: i64) -> int {
        value as int
    }

    fn from_elf_class(class: Class) -> (r: Result<Self, UnsupportedClassError>) {
        if class.0 != Class::CLASS64 {
            return Err(UnsupportedClassError(class));
        }
        Ok(Class64)
    }

    fn parse_class_usize_at<E: EncodingParse>(self, encoding: E, offset: usize, data: &[u8]) -> (r:
        u64) {
        encoding.parse_u64_at(offset, data)
    }

    fn parse_class_isize_at<E: EncodingParse>(self, encoding: E, offset: usize, data: &[u8]) -> (r:
        i64) {
        encoding.parse_i64_at(offset, data)
    }
}

impl WidenFrom<Class32> for Class64 {
    fn widen_usize(value: u32) -> (r: u64) {
        value as u64
    }

    fn widen_isize(value: i32) -> (r: i64) {
        value as i64
    }
}

impl WidenFrom<Class64> for Class64 {
    fn widen_usize(value: u64) -> (r: u64) {
        value
    }

    fn widen_isize(value: i64) -> (r: i64) {
        value
    }
}

} // verus!
