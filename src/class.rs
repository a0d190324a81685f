//! Address classes: how the width of a file's addresses shapes its structures.
use vstd::prelude::*;

use crate::encoding::{signed_value, uint_at, EncodingParse};
use crate::header::ClassParseElfHeader;
use crate::ident::Class;
use crate::program_header::ClassParseProgramHeader;

pub mod class_32;
pub mod class_64;
pub mod merge;

pub use class_32::Class32;
pub use class_64::Class64;
pub use merge::Merge;

verus! {

/// The class tag of a file names a class that the parser was not built for.
#[derive(Clone, Copy, Debug, Hash, PartialEq, Eq, PartialOrd, Ord, Structural)]
pub struct UnsupportedClassError(pub Class);

/// What a class contributes to parsing: its selection by tag and its address-sized scalars.
pub trait ClassParseBase: Copy + Sized {
    /// The unsigned scalar that holds an address of this class.
    type ClassUsize;
    /// The signed scalar of the width of an address of this class.
    type ClassIsize;

    /// The value of this type that the class tag `class` selects, if there is one.
    spec fn spec_from_elf_class(class: Class) -> Option<Self>;

    /// Width in bytes of an address of this class.
    spec fn address_width(self) -> nat;

    /// The number that `value` stands for.
    spec fn usize_value(value: Self::ClassUsize) -> int;

    /// The number that `value` stands for.
    spec fn isize_value(value: Self::ClassIsize) -> int;

    /// The value of this type that the class tag `class` selects.
    fn from_elf_class(class: Class) -> (r: Result<Self, UnsupportedClassError>)
        ensures
            r == (match Self::spec_from_elf_class(class) {
                Some(c) => Ok(c),
                None => Err(UnsupportedClassError(class)),
            }),
    ;

    /// Decodes the unsigned address-sized scalar at `offset` in `data`.
    fn parse_class_usize_at<E: EncodingParse>(self, encoding: E, offset: usize, data: &[u8]) -> (r:
        Self::ClassUsize)
        requires
            offset + self.address_width() <= data@.len(),
        ensures
            Self::usize_value(r) == uint_at(
                encoding.is_big_endian(),
                data@,
                offset as int,
                self.address_width(),
            ),
    ;

    /// Decodes the signed address-sized scalar at `offset` in `data`.
    fn parse_class_isize_at<E: EncodingParse>(self, encoding: E, offset: usize, data: &[u8]) -> (r:
        Self::ClassIsize)
        requires
            offset + self.address_width() <= data@.len(),
        ensures
            Self::isize_value(r) == signed_value(
                uint_at(encoding.is_big_endian(), data@, offset as int, self.address_width()),
                self.address_width(),
            ),
    ;
}

/// A class whose scalars hold every scalar of class `A` with its value unchanged.
pub trait WidenFrom<A: ClassParseBase>: ClassParseBase {
    /// `value` in this class's unsigned scalar.
    fn widen_usize(value: A::ClassUsize) -> (r: Self::ClassUsize)
        ensures
            Self::usize_value(r) == A::usize_value(value),
    ;

    /// `value` in this class's signed scalar.
    fn widen_isize(value: A::ClassIsize) -> (r: Self::ClassIsize)
        ensures
            Self::isize_value(r) == A::isize_value(value),
    ;
}

/// Everything that parsing needs from a class: the layout of the file header and of the program
/// headers, and the decoding of address-sized scalars.
pub trait ClassParse: ClassParseElfHeader + ClassParseProgramHeader {

}

} // verus!
