//! A class chosen at run time between two classes.
use vstd::prelude::*;

use crate::class::{Class32, Class64, ClassParse, ClassParseBase, UnsupportedClassError, WidenFrom};
use crate::encoding::EncodingParse;
use crate::header::{ClassParseElfHeader, HeaderLayout};
use crate::ident::Class;
use crate::program_header::{ClassParseProgramHeader, ProgramHeaderLayout};

verus! {

/// One of two classes, chosen by the class tag of the file.
///
/// The first class wins where both accept a tag. Address-sized scalars always come in the
/// scalars of the second class, which holds those of the first unchanged.
#[derive(Clone, Copy, Debug, Hash, PartialEq, Eq, PartialOrd, Ord)]
pub enum Merge<A: ClassParse, B: ClassParse> {
    /// The first class.
    A(A),
    /// The second class.
    B(B),
}

impl<A: ClassParse, B: ClassParse + WidenFrom<A>> ClassParse for Merge<A, B> {

}

impl<A: ClassParse, B: ClassParse + WidenFrom<A>> ClassParseElfHeader for Merge<A, B> {
    open spec fn header_layout(self) -> HeaderLayout {
        match self {
            Merge::A(a) => a.header_layout(),
            Merge::B(b) => b.header_layout(),
        }
    }

    proof fn lemma_header_layout(self) {
        match self {
            Merge::A(a) => a.lemma_header_layout(),
            Merge::B(b) => b.lemma_header_layout(),
        }
    }

    fn elf_type_offset(self) -> (r: usize) {
        match self {
            Merge::A(a) => a.elf_type_offset(),
            Merge::B(b) => b.elf_type_offset(),
        }
    }

    fn machine_offset(self) -> (r: usize) {
        match self {
            Merge::A(a) => a.machine_offset(),
            Merge::B(b) => b.machine_offset(),
        }
    }

    fn file_version_offset(self) -> (r: usize) {
        match self {
            Merge::A(a) => a.file_version_offset(),
            Merge::B(b) => b.file_version_offset(),
        }
    }

    fn entry_offset(self) -> (r: usize) {
        match self {
            Merge::A(a) => a.entry_offset(),
            Merge::B(b) => b.entry_offset(),
        }
    }

    fn flags_offset(self) -> (r: usize) {
        match self {
            Merge::A(a) => a.flags_offset(),
            Merge::B(b) => b.flags_offset(),
        }
    }

    fn header_size_offset(self) -> (r: usize) {
        match self {
            Merge::A(a) => a.header_size_offset(),
            Merge::B(b) => b.header_size_offset(),
        }
    }

    fn program_header_offset_offset(self) -> (r: usize) {
        match self {
            Merge::A(a) => a.program_header_offset_offset(),
            Merge::B(b) => b.program_header_offset_offset(),
        }
    }

    fn program_header_count_offset(self) -> (r: usize) {
        match self {
            Merge::A(a) => a.program_header_count_offset(),
            Merge::B(b) => b.program_header_count_offset(),
        }
    }

    fn program_header_size_offset(self) -> (r: usize) {
        match self {
            Merge::A(a) => a.program_header_size_offset(),
            Merge::B(b) => b.program_header_size_offset(),
        }
    }

    fn section_header_offset_offset(self) -> (r: usize) {
        match self {
            Merge::A(a) => a.section_header_offset_offset(),
            Merge::B(b) => b.section_header_offset_offset(),
        }
    }

    fn section_header_count_offset(self) -> (r: usize) {
        match self {
            Merge::A(a) => a.section_header_count_offset(),
            Merge::B(b) => b.section_header_count_offset(),
        }
    }

    fn section_header_size_offset(self) -> (r: usize) {
        match self {
            Merge::A(a) => a.section_header_size_offset(),
            Merge::B(b) => b.section_header_size_offset(),
        }
    }

    fn section_header_string_table_index_offset(self) -> (r: usize) {
        match self {
            Merge::A(a) => a.section_header_string_table_index_offset(),
            Merge::B(b) => b.section_header_string_table_index_offset(),
        }
    }

    fn expected_elf_header_size(self) -> (r: usize) {
        match self {
            Merge::A(a) => a.expected_elf_header_size(),
            Merge::B(b) => b.expected_elf_header_size(),
        }
    }
}

impl<A: ClassParse, B: ClassParse + WidenFrom<A>> ClassParseProgramHeader for Merge<A, B> {
    open spec fn program_header_layout(self) -> ProgramHeaderLayout {
        match self {
            Merge::A(a) => a.program_header_layout(),
            Merge::B(b) => b.program_header_layout(),
        }
    }

    proof fn lemma_program_header_layout(self) {
        match self {
            Merge::A(a) => a.lemma_program_header_layout(),
            Merge::B(b) => b.lemma_program_header_layout(),
        }
    }

    fn segment_type_offset(self) -> (r: usize) {
        match self {
            Merge::A(a) => a.segment_type_offset(),
            Merge::B(b) => b.segment_type_offset(),
        }
    }

    fn segment_flags_offset(self) -> (r: usize) {
        match self {
            Merge::A(a) => a.segment_flags_offset(),
            Merge::B(b) => b.segment_flags_offset(),
        }
    }

    fn segment_file_offset_offset(self) -> (r: usize) {
        match self {
            Merge::A(a) => a.segment_file_offset_offset(),
            Merge::B(b) => b.segment_file_offset_offset(),
        }
    }

    fn segment_file_size_offset(self) -> (r: usize) {
        match self {
            Merge::A(a) => a.segment_file_size_offset(),
            Merge::B(b) => b.segment_file_size_offset(),
        }
    }

    fn segment_virtual_address_offset(self) -> (r: usize) {
        match self {
            Merge::A(a) => a.segment_virtual_address_offset(),
            Merge::B(b) => b.segment_virtual_address_offset(),
        }
    }

    fn segment_physical_address_offset(self) -> (r: usize) {
        match self {
            Merge::A(a) => a.segment_physical_address_offset(),
            Merge::B(b) => b.segment_physical_address_offset(),
        }
    }

    fn segment_memory_size_offset(self) -> (r: usize) {
        match self {
            Merge::A(a) => a.segment_memory_size_offset(),
            Merge::B(b) => b.segment_memory_size_offset(),
        }
    }

    fn segment_alignment_offset(self) -> (r: usize) {
        match self {
            Merge::A(a) => a.segment_alignment_offset(),
            Merge::B(b) => b.segment_alignment_offset(),
        }
    }

    fn expected_program_header_size(self) -> (r: usize) {
        match self {
            Merge::A(a) => a.expected_program_header_size(),
            Merge::B(b) => b.expected_program_header_size(),
        }
    }
}

impl<A: ClassParse, B: ClassParse + WidenFrom<A>> ClassParseBase for Merge<A, B> {
    type ClassUsize = B::ClassUsize;

    type ClassIsize = B::ClassIsize;

    open spec fn spec_from_elf_class(class: Class) -> Option<Self> {
        match A::spec_from_elf_class(class) {
            Some(a) => Some(Merge::A(a)),
            None => match B::spec_from_elf_class(class) {
                Some(b) => Some(Merge::B(b)),
                None => None,
            },
        }
    }

    open spec fn address_width(self) -> nat {
        match self {
            Merge::A(a) => a.address_width(),
            Merge::B(b) => b.address_width(),
        }
    }

    open spec fn usize_value(value: B::ClassUsize) -> int {
        B::usize_value(value)
    }

    open spec fn isize_value(value: B::ClassIsize) -> int {
        B::isize_value(value)
    }

    fn from_elf_class(class: Class) -> (r: Result<Self, UnsupportedClassError>) {
        if let Ok(a) = A::from_elf_class(class) {
            return Ok(Merge::A(a));
        }
        match B::from_elf_class(class) {
            Ok(b) => Ok(Merge::B(b)),
            Err(error) => Err(error),
        }
    }

    fn parse_class_usize_at<E: EncodingParse>(self, encoding: E, offset: usize, data: &[u8]) -> (r:
        B::ClassUsize) {
        match self {
            Merge::A(a) => B::widen_usize(a.parse_class_usize_at(encoding, offset, data)),
            Merge::B(b) => b.parse_class_usize_at(encoding, offset, data),
        }
    }

    fn parse_class_isize_at<E: EncodingParse>(self, encoding: E, offset: usize, data: &[u8]) -> (r:
        B::ClassIsize) {
        match self {
            Merge::A(a) => B::widen_isize(a.parse_class_isize_at(encoding, offset, data)),
            Merge::B(b) => b.parse_class_isize_at(encoding, offset, data),
        }
    }
}

/// Where the first class accepts a class tag, the merge selects the first class, whether or not
/// the second accepts the tag too.
pub proof fn lemma_merge_prefers_first<A: ClassParse, B: ClassParse + WidenFrom<A>>(class: Class)
    requires
        A::spec_from_elf_class(class) is Some,
    ensures
        Merge::<A, B>::spec_from_elf_class(class) == Some(
            Merge::<A, B>::A(A::spec_from_elf_class(class)->0),
        ),
{
}

/// A merge of the 32-bit and the 64-bit class selects the 32-bit arm for a file of the 32-bit
/// class and the 64-bit arm for one of the 64-bit class. The 32-bit arm reads with the layouts
/// of the 32-bit class, and its address-sized scalars come as 64-bit values equal to the ones
/// read.
pub proof fn lemma_merge_32_64()
    ensures
        Merge::<Class32, Class64>::spec_from_elf_class(Class(Class::CLASS32)) == Some(
            Merge::<Class32, Class64>::A(Class32),
        ),
        Merge::<Class32, Class64>::spec_from_elf_class(Class(Class::CLASS64)) == Some(
            Merge::<Class32, Class64>::B(Class64),
        ),
        Merge::<Class32, Class64>::A(Class32).address_width() == 4,
        Merge::<Class32, Class64>::A(Class32).header_layout() == Class32.header_layout(),
        Merge::<Class32, Class64>::A(Class32).program_header_layout()
            == Class32.program_header_layout(),
        forall|v: u64| #[trigger] Merge::<Class32, Class64>::usize_value(v) == v as int,
        forall|v: i64| #[trigger] Merge::<Class32, Class64>::isize_value(v) == v as int,
{
}

} // verus!
