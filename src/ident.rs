//! The identification block: the first sixteen bytes of every ELF file.
use core::marker::PhantomData;

use vstd::prelude::*;

use crate::class::UnsupportedClassError;
use crate::encoding::UnsupportedEncodingError;
use crate::{MinimalParse, Raw};

verus! {

/// Length in bytes of the identification block.
pub const IDENT_SIZE: usize = 16;

/// Offset of the class tag.
pub const CLASS_INDEX: usize = 4;

/// Offset of the encoding tag.
pub const ENCODING_INDEX: usize = 5;

/// Offset of the header version.
pub const VERSION_INDEX: usize = 6;

/// Offset of the operating system ABI tag.
pub const OS_ABI_INDEX: usize = 7;

/// Offset of the ABI version.
pub const ABI_VERSION_INDEX: usize = 8;

/// Offset of the first padding byte; the padding runs to the end of the block.
pub const PADDING_INDEX: usize = 9;

/// The four bytes that start every ELF file.
pub const MAGIC_BYTES: [u8; 4] = [0x7f, 0x45, 0x4c, 0x46];

/// The one header version that the format defines.
pub const CURRENT_HEADER_VERSION: u8 = 1;

/// Whether `s` starts with the four bytes that start every ELF file.
pub open spec fn has_magic(s: Seq<u8>) -> bool {
    &&& s.len() >= 4
    &&& s[0] == 0x7f
    &&& s[1] == 0x45
    &&& s[2] == 0x4c
    &&& s[3] == 0x46
}

/// Whether the padding of the identification block at the start of `s` is all zero.
pub open spec fn has_zero_padding(s: Seq<u8>) -> bool {
    forall|i: int| PADDING_INDEX <= i < IDENT_SIZE ==> s[i] == 0
}

/// The class tag of a file: the width of its addresses.
#[derive(Clone, Copy, Debug, Hash, PartialEq, Eq, PartialOrd, Ord, Structural)]
pub struct Class(pub u8);

impl Class {
    /// Tag value of a file with 32-bit addresses.
    pub const CLASS32: u8 = 1;
    /// Tag value of a file with 64-bit addresses.
    pub const CLASS64: u8 = 2;
}

/// The encoding tag of a file: the byte order of its scalars.
#[derive(Clone, Copy, Debug, Hash, PartialEq, Eq, PartialOrd, Ord, Structural)]
pub struct Encoding(pub u8);

impl Encoding {
    /// Tag value of a file whose scalars are stored least significant byte first.
    pub const LITTLE_ENDIAN: u8 = 1;
    /// Tag value of a file whose scalars are stored most significant byte first.
    pub const BIG_ENDIAN: u8 = 2;
}

/// Whether the format defines the class tag `tag`.
pub open spec fn is_known_class_tag(tag: u8) -> bool {
    tag == Class::CLASS32 || tag == Class::CLASS64
}

/// Whether the format defines the encoding tag `tag`.
pub open spec fn is_known_encoding_tag(tag: u8) -> bool {
    tag == Encoding::LITTLE_ENDIAN || tag == Encoding::BIG_ENDIAN
}

/// The first check that the minimal parse of an identification block finds failing on `s`, if any.
pub open spec fn ident_minimal_error(s: Seq<u8>) -> Option<ParseElfIdentMinimalError> {
    if s.len() < IDENT_SIZE {
        Some(ParseElfIdentMinimalError::TooSmall)
    } else if !is_known_class_tag(s[CLASS_INDEX as int]) {
        Some(
            ParseElfIdentMinimalError::UnsupportedClass(
                UnsupportedClassError(Class(s[CLASS_INDEX as int])),
            ),
        )
    } else if !is_known_encoding_tag(s[ENCODING_INDEX as int]) {
        Some(
            ParseElfIdentMinimalError::UnsupportedEncoding(
                UnsupportedEncodingError(Encoding(s[ENCODING_INDEX as int])),
            ),
        )
    } else {
        None
    }
}

/// View of the identification block at the start of a byte slice.
#[derive(Debug, Hash, PartialEq, Eq)]
pub struct ElfIdent<'slice, S> {
    /// The bytes of the file; the block is their first sixteen.
    bytes: &'slice [u8],
    /// Marker of the checks that were made on the block.
    state: PhantomData<S>,
}

impl<'slice, S> ElfIdent<'slice, S> {
    #[verifier::type_invariant]
    spec fn inv(self) -> bool {
        self.bytes@.len() >= IDENT_SIZE
    }

    /// The bytes that this view reads from; the block is their first sixteen.
    pub closed spec fn spec_bytes(&self) -> Seq<u8> {
        self.bytes@
    }

    /// Creates a view over `slice`, which holds at least an identification block.
    pub(crate) fn from_slice(slice: &'slice [u8]) -> (r: Self)
        requires
            slice@.len() >= IDENT_SIZE,
        ensures
            r.spec_bytes() == slice@,
    {
        ElfIdent { bytes: slice, state: PhantomData }
    }

    /// The four bytes that identify the file as an ELF file.
    pub fn magic(&self) -> (r: [u8; 4])
        ensures
            r@ == self.spec_bytes().subrange(0, 4),
            self.spec_bytes().len() >= IDENT_SIZE,
    {
        proof {
            use_type_invariant(self);
        }
        let r = [self.bytes[0], self.bytes[1], self.bytes[2], self.bytes[3]];
        assert(r@ =~= self.bytes@.subrange(0, 4));
        r
    }

    /// The class tag.
    pub fn class(&self) -> (r: Class)
        ensures
            self.spec_bytes().len() >= IDENT_SIZE,
            r == Class(self.spec_bytes()[CLASS_INDEX as int]),
    {
        proof {
            use_type_invariant(self);
        }
        Class(self.bytes[CLASS_INDEX])
    }

    /// The encoding tag.
    pub fn encoding(&self) -> (r: Encoding)
        ensures
            self.spec_bytes().len() >= IDENT_SIZE,
            r == Encoding(self.spec_bytes()[ENCODING_INDEX as int]),
    {
        proof {
            use_type_invariant(self);
        }
        Encoding(self.bytes[ENCODING_INDEX])
    }

    /// The version of the header format.
    pub fn header_version(&self) -> (r: u8)
        ensures
            self.spec_bytes().len() >= IDENT_SIZE,
            r == self.spec_bytes()[VERSION_INDEX as int],
    {
        proof {
            use_type_invariant(self);
        }
        self.bytes[VERSION_INDEX]
    }

    /// The tag of the operating system ABI that the file targets.
    pub fn os_abi(&self) -> (r: u8)
        ensures
            self.spec_bytes().len() >= IDENT_SIZE,
            r == self.spec_bytes()[OS_ABI_INDEX as int],
    {
        proof {
            use_type_invariant(self);
        }
        self.bytes[OS_ABI_INDEX]
    }

    /// The version of the ABI that the file targets.
    pub fn abi_version(&self) -> (r: u8)
        ensures
            self.spec_bytes().len() >= IDENT_SIZE,
            r == self.spec_bytes()[ABI_VERSION_INDEX as int],
    {
        proof {
            use_type_invariant(self);
        }
        self.bytes[ABI_VERSION_INDEX]
    }

    /// The reserved bytes at the end of the block.
    pub fn padding(&self) -> (r: &'slice [u8])
        ensures
            self.spec_bytes().len() >= IDENT_SIZE,
            r@ == self.spec_bytes().subrange(PADDING_INDEX as int, IDENT_SIZE as int),
    {
        proof {
            use_type_invariant(self);
        }
        let bytes: &'slice [u8] = self.bytes;
        &bytes[PADDING_INDEX..IDENT_SIZE]
    }
}

impl<'slice, S> Clone for ElfIdent<'slice, S> {
    fn clone(&self) -> (r: Self)
        ensures
            r == *self,
    {
        proof {
            use_type_invariant(self);
        }
        ElfIdent { bytes: self.bytes, state: PhantomData }
    }
}

impl<'slice, S> Copy for ElfIdent<'slice, S> {

}

impl<'slice> ElfIdent<'slice, Raw> {
    /// The identification block at the start of `slice`, or `None` if `slice` is shorter than
    /// one.
    pub fn new(slice: &'slice [u8]) -> (r: Option<Self>)
        ensures
            r is Some <==> slice@.len() >= IDENT_SIZE,
            r matches Some(ident) ==> ident.spec_bytes() == slice@,
    {
        if slice.len() < IDENT_SIZE {
            return None;
        }
        Some(ElfIdent::from_slice(slice))
    }
}

impl<'slice> ElfIdent<'slice, MinimalParse> {
    /// The identification block at the start of `slice`, once it is known to be long enough and
    /// to hold a class tag and an encoding tag that the format defines.
    pub fn minimal_parse(slice: &'slice [u8]) -> (r: Result<Self, ParseElfIdentMinimalError>)
        ensures
            match r {
                Ok(ident) => ident_minimal_error(slice@) is None && ident.spec_bytes() == slice@,
                Err(e) => ident_minimal_error(slice@) == Some(e),
            },
    {
        if slice.len() < IDENT_SIZE {
            return Err(ParseElfIdentMinimalError::TooSmall);
        }
        let class = slice[CLASS_INDEX];
        if class != Class::CLASS32 && class != Class::CLASS64 {
            return Err(ParseElfIdentMinimalError::UnsupportedClass(UnsupportedClassError(Class(class))));
        }
        let encoding = slice[ENCODING_INDEX];
        if encoding != Encoding::LITTLE_ENDIAN && encoding != Encoding::BIG_ENDIAN {
            return Err(
                ParseElfIdentMinimalError::UnsupportedEncoding(
                    UnsupportedEncodingError(Encoding(encoding)),
                ),
            );
        }
        Ok(ElfIdent::from_slice(slice))
    }
}

/// Errors of the minimal parse of an identification block.
#[derive(Clone, Copy, Debug, Hash, PartialEq, Eq, PartialOrd, Ord)]
pub enum ParseElfIdentMinimalError {
    /// The slice is shorter than an identification block.
    TooSmall,
    /// The class tag is not one that the format defines.
    UnsupportedClass(UnsupportedClassError),
    /// The encoding tag is not one that the format defines.
    UnsupportedEncoding(UnsupportedEncodingError),
}

/// The message that describes `error`.
pub open spec fn ident_error_message(error: ParseElfIdentMinimalError) -> &'static str {
    match error {
        ParseElfIdentMinimalError::TooSmall => "slice too small",
        ParseElfIdentMinimalError::UnsupportedClass(_) => "unsupported ELF class",
        ParseElfIdentMinimalError::UnsupportedEncoding(_) => "unsupported ELF encoding",
    }
}

impl ParseElfIdentMinimalError {
    /// Returns a message that describes this error.
    pub fn message(&self) -> (r: &'static str)
        ensures
            r == ident_error_message(*self),
    {
        match *self {
            ParseElfIdentMinimalError::TooSmall => "slice too small",
            ParseElfIdentMinimalError::UnsupportedClass(_) => "unsupported ELF class",
            ParseElfIdentMinimalError::UnsupportedEncoding(_) => "unsupported ELF encoding",
        }
    }
}

} // verus!
