//! The 32-bit class.
use vstd::prelude::*;

use crate::class::{ClassParse, ClassParseBase, UnsupportedClassError, WidenFrom};
use crate::encoding::EncodingParse;
use crate::header::{ClassParseElfHeader, HeaderLayout};
use crate::ident::Class;
use crate::program_header::{ClassParseProgramHeader, ProgramHeaderLayout};

verus! {
/// Parsing of files with 32-bit addresses.
#[derive(Clone, Copy, Debug, Hash, Default, PartialEq, Eq, PartialOrd, Ord)]
pub struct Class32;

impl ClassParse for Class32 {

}
impl ClassParseElfHeader for Class32 {
    open spec fn header_layout(self) -> HeaderLayout {
        HeaderLayout {
            elf_type: 16,
            machine: 18,
            file_version: 20,
            entry: 24,
            program_header_offset: 28,
            section_header_offset: 32,
            flags: 36,
            header_size: 40,
            program_header_size: 42,
            program_header_count: 44,
            section_header_size: 46,
            section_header_count: 48,
            section_header_string_table_index: 50,
            size: 52,
        }
    }

    proof fn lemma_header_layout(self) {
    }

    fn elf_type_offset(self) -> (r: usize) {
        16
    }

    fn machine_offset(self) -> (r: usize) {
        18
    }

    fn file_version_offset(self) -> (r: usize) {
        20
    }

    fn entry_offset(self) -> (r: usize) {
        24
    }

    fn flags_offset(self) -> (r: usize) {
        36
    }

    fn header_size_offset(self) -> (r: usize) {
        40
    }

    fn program_header_offset_offset(self) -> (r: usize) {
        28
    }

    fn program_header_count_offset(self) -> (r: usize) {
        44
    }

    fn program_header_size_offset(self) -> (r: usize) {
        42
    }

    fn section_header_offset_offset(self) -> (r: usize) {
        32
    }

    fn section_header_count_offset(self) -> (r: usize) {
        48
    }

    fn section_header_size_offset(self) -> (r: usize) {
        46
    }

    fn section_header_string_table_index_offset(self) -> (r: usize) {
        50
    }

    fn expected_elf_header_size(self) -> (r: usize) {
        52
    }
}

impl ClassParseProgramHeader for Class32 {
    open spec fn program_header_layout(self) -> ProgramHeaderLayout {
        ProgramHeaderLayout {
            segment_type: 0,
            file_offset: 4,
            virtual_address: 8,
            physical_address: 12,
            file_size: 16,
            memory_size: 20,
            flags: 24,
            alignment: 28,
            size: 32,
        }
    }

    proof fn lemma_program_header_layout(self) {
    }

    fn segment_type_offset(self) -> (r: usize) {
        0
    }

    fn segment_flags_offset(self) -> (r: usize) {
        24
    }

    fn segment_file_offset_offset(self) -> (r: usize) {
        4
    }

    fn segment_file_size_offset(self) -> (r: usize) {
        16
    }

    fn segment_virtual_address_offset(self) -> (r: usize) {
        8
    }

    fn segment_physical_address_offset(self) -> (r: usize) {
        12
    }

    fn segment_memory_size_offset(self) -> (r: usize) {
        20
    }

    fn segment_alignment_offset(self) -> (r: usize) {
        28
    }

    fn expected_program_header_size(self) -> (r: usize) {
        32
    }
}

impl ClassParseBase for Class32 {
    type ClassUsize = u32;

    type ClassIsize = i32;

    open spec fn spec_from_elf_class(class: Class) -> Option<Self> {
        if class.0 == Class::CLASS32 {
            Some(Class32)
        } else {
            None
        }
    }

    open spec fn address_width(self) -> nat {
        4
    }

    open spec fn usize_value(value: u32) -> int {
        value as int
    }

    open spec fn isize_value(value: i32) -> int {
        value as int
    }

    fn from_elf_class(class: Class) -> (r: Result<Self, UnsupportedClassError>) {
        if class.0 != Class::CLASS32 {
            return Err(UnsupportedClassError(class));
        }
        Ok(Class32)
    }

    fn parse_class_usize_at<E: EncodingParse>(self, encoding: E, offset: usize, data: &[u8]) -> (r:
        u32) {
        encoding.parse_u32_at(offset, data)
    }

    fn parse_class_isize_at<E: EncodingParse>(self, encoding: E, offset: usize, data: &[u8]) -> (r:
        i32) {
        encoding.parse_i32_at(offset, data)
    }
}

impl WidenFrom<Class32> for Class32 {
    fn widen_usize(value: u32) -> (r: u32) {
        value
    }

    fn widen_isize(value: i32) -> (r: i32) {
        value
    }
}

} // verus!
