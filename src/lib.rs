//! Reading ELF files in place.
//!
//! Every view in this crate borrows the caller's bytes and decodes its fields on demand. The
//! class (32 or 64 bit) and the byte order of a file select the layout and the decoding; each
//! constructor checks the lengths that the field reads of its view rely on.
use vstd::prelude::*;

use crate::class::{ClassParse, UnsupportedClassError};
use crate::encoding::{lemma_uint_at_frame, uint_at, EncodingParse, UnsupportedEncodingError};
use crate::header::{
    declared_header_size, spec_minimal_header, spec_raw_header, ElfHeader,
    ParseElfHeaderMinimalError, ParseElfHeaderRawError, CURRENT_FILE_VERSION,
};
use crate::ident::{
    has_magic, has_zero_padding, ident_minimal_error, is_known_class_tag, is_known_encoding_tag,
    Class, ParseElfIdentMinimalError, CLASS_INDEX, CURRENT_HEADER_VERSION, ENCODING_INDEX,
    IDENT_SIZE, MAGIC_BYTES, PADDING_INDEX, VERSION_INDEX,
};

pub mod class;
pub mod encoding;
pub mod header;
pub mod ident;
pub mod image;
pub mod program_header;

verus! {

/// The checks that a view's constructor made beyond the lengths that its reads need.
pub trait ParseState {
    /// Whether the constructor checked the sizes that the file declares for its own structures.
    spec fn checks_declared_sizes() -> bool;
}

/// Marks a view whose constructor checked only the length of the slice and the tags that select
/// how to read it.
#[derive(Clone, Copy, Debug, Hash, PartialEq, Eq, PartialOrd, Ord)]
pub struct Raw;

/// Marks a view whose constructor also checked the sizes that the file declares for its own
/// structures.
#[derive(Clone, Copy, Debug, Hash, PartialEq, Eq, PartialOrd, Ord)]
pub struct MinimalParse;

impl ParseState for Raw {
    open spec fn checks_declared_sizes() -> bool {
        false
    }
}

impl ParseState for MinimalParse {
    open spec fn checks_declared_sizes() -> bool {
        true
    }
}

/// The error of a whole-file parse that stands for an error of the minimal parse of its header.
pub open spec fn file_error_of(error: ParseElfHeaderMinimalError) -> ParseElfFileError {
    match error {
        ParseElfHeaderMinimalError::IdentError(ParseElfIdentMinimalError::TooSmall) => {
            ParseElfFileError::TooSmallForHeader
        },
        ParseElfHeaderMinimalError::IdentError(
            ParseElfIdentMinimalError::UnsupportedClass(class),
        ) => ParseElfFileError::UnsupportedClass(class),
        ParseElfHeaderMinimalError::IdentError(
            ParseElfIdentMinimalError::UnsupportedEncoding(encoding),
        ) => ParseElfFileError::UnsupportedEncoding(encoding),
        ParseElfHeaderMinimalError::TooSmall => ParseElfFileError::TooSmallForHeader,
        ParseElfHeaderMinimalError::UnsupportedClass(class) => ParseElfFileError::UnsupportedClass(
            class,
        ),
        ParseElfHeaderMinimalError::UnsupportedEncoding(encoding) => {
            ParseElfFileError::UnsupportedEncoding(encoding)
        },
        ParseElfHeaderMinimalError::InvalidElfHeaderSize => ParseElfFileError::InvalidElfHeaderSize,
    }
}

/// What the parse of a whole file makes of the bytes `s`: the class and the encoding that their
/// tags select, or the first check that fails, in the order in which they are made.
pub open spec fn spec_parse_file<C: ClassParse, E: EncodingParse>(s: Seq<u8>) -> Result<
    (C, E),
    ParseElfFileError,
> {
    match spec_minimal_header::<C, E>(s) {
        Err(error) => Err(file_error_of(error)),
        Ok((c, e)) => {
            let layout = c.header_layout();
            let big_endian = e.is_big_endian();
            if !has_magic(s) {
                Err(ParseElfFileError::InvalidMagicBytes)
            } else if s[VERSION_INDEX as int] != CURRENT_HEADER_VERSION {
                Err(ParseElfFileError::UnsupportedElfHeaderVersion)
            } else if !has_zero_padding(s) {
                Err(ParseElfFileError::NonZeroPadding)
            } else if uint_at(big_endian, s, layout.file_version as int, 4) != CURRENT_FILE_VERSION {
                Err(ParseElfFileError::UnsupportedElfFileVersion)
            } else if uint_at(big_endian, s, layout.header_size as int, 2) < layout.size {
                Err(ParseElfFileError::InvalidElfHeaderSize)
            } else if uint_at(big_endian, s, layout.program_header_size as int, 2)
                < c.program_header_layout().size {
                Err(ParseElfFileError::InvalidProgramHeaderSize)
            } else {
                Ok((c, e))
            }
        },
    }
}

/// An ELF file whose identification block and header passed every check of [`ElfFile::parse`].
#[derive(Debug)]
pub struct ElfFile<'slice, C: ClassParse, E: EncodingParse> {
    /// The bytes of the file.
    bytes: &'slice [u8],
    /// The class of the file.
    class: C,
    /// The encoding of the file.
    encoding: E,
}

impl<'slice, C: ClassParse, E: EncodingParse> ElfFile<'slice, C, E> {
    #[verifier::type_invariant]
    spec fn inv(self) -> bool {
        spec_parse_file::<C, E>(self.bytes@) == Ok::<(C, E), ParseElfFileError>(
            (self.class, self.encoding),
        )
    }

    /// The bytes of the file.
    pub closed spec fn spec_bytes(&self) -> Seq<u8> {
        self.bytes@
    }

    /// The class of the file.
    pub closed spec fn spec_class(&self) -> C {
        self.class
    }

    /// The encoding of the file.
    pub closed spec fn spec_encoding(&self) -> E {
        self.encoding
    }

    /// Parses an [`ElfFile`] from `slice`.
    ///
    /// The checks run in this order, and the first that fails gives the error: the minimal
    /// parse of the header, the magic bytes, the header version, the padding of the
    /// identification block, the file version, the declared header size and the declared size of
    /// a program header.
    ///
    /// # Errors
    ///
    /// - [`ParseElfFileError::TooSmallForHeader`]: `slice` is too short for the header.
    /// - [`ParseElfFileError::UnsupportedClass`]: the class tag is not accepted.
    /// - [`ParseElfFileError::UnsupportedEncoding`]: the encoding tag is not accepted.
    /// - [`ParseElfFileError::InvalidMagicBytes`]: the file does not start with the magic bytes.
    /// - [`ParseElfFileError::UnsupportedElfHeaderVersion`]: the header version is not the
    ///     current one.
    /// - [`ParseElfFileError::NonZeroPadding`]: a padding byte is not zero.
    /// - [`ParseElfFileError::UnsupportedElfFileVersion`]: the file version is not the current
    ///     one.
    /// - [`ParseElfFileError::InvalidElfHeaderSize`]: the declared header size is too small.
    /// - [`ParseElfFileError::InvalidProgramHeaderSize`]: the declared program header size is
    ///     too small.
    #[verifier::loop_isolation(false)]
    pub fn parse(slice: &'slice [u8]) -> (r: Result<Self, ParseElfFileError>)
        ensures
            match r {
                Ok(file) => {
                    &&& spec_parse_file::<C, E>(slice@) == Ok::<(C, E), ParseElfFileError>(
                        (file.spec_class(), file.spec_encoding()),
                    )
                    &&& file.spec_bytes() == slice@
                },
                Err(error) => spec_parse_file::<C, E>(slice@) == Err::<(C, E), _>(error),
            },
    {
        let header = match ElfHeader::<C, E, MinimalParse>::minimal_parse(slice) {
            Ok(header) => header,
            Err(error) => return Err(ParseElfFileError::from(error)),
        };
        let ident = header.identifier();
        let magic = ident.magic();
        if magic[0] != MAGIC_BYTES[0] || magic[1] != MAGIC_BYTES[1] || magic[2] != MAGIC_BYTES[2]
            || magic[3] != MAGIC_BYTES[3] {
            return Err(ParseElfFileError::InvalidMagicBytes);
        }
        if ident.header_version() != CURRENT_HEADER_VERSION {
            return Err(ParseElfFileError::UnsupportedElfHeaderVersion);
        }
        let padding = ident.padding();
        let mut i: usize = 0;
        while i < padding.len()
            invariant
                i <= padding@.len(),
                padding@ == slice@.subrange(PADDING_INDEX as int, IDENT_SIZE as int),
                forall|j: int| 0 <= j < i ==> padding@[j] == 0,
            decreases padding@.len() - i,
        {
            if padding[i] != 0 {
                assert(slice@[PADDING_INDEX + i] != 0);
                return Err(ParseElfFileError::NonZeroPadding);
            }
            i = i + 1;
        }
        assert(has_zero_padding(slice@)) by {
            assert forall|j: int| PADDING_INDEX <= j < IDENT_SIZE implies slice@[j] == 0 by {
                assert(padding@[j - PADDING_INDEX] == 0);
            }
        }
        if header.file_version() != CURRENT_FILE_VERSION {
            return Err(ParseElfFileError::UnsupportedElfFileVersion);
        }
        if (header.header_size() as usize) < header.class().expected_elf_header_size() {
            return Err(ParseElfFileError::InvalidElfHeaderSize);
        }
        if (header.program_header_size() as usize) < header.class().expected_program_header_size() {
            return Err(ParseElfFileError::InvalidProgramHeaderSize);
        }
        Ok(ElfFile { bytes: slice, class: header.class(), encoding: header.encoding() })
    }

    /// Returns the header of this file.
    pub fn header(&self) -> (r: ElfHeader<'slice, C, E, MinimalParse>)
        ensures
            r.spec_bytes() == self.spec_bytes(),
            r.spec_class() == self.spec_class(),
            r.spec_encoding() == self.spec_encoding(),
    {
        proof {
            use_type_invariant(self);
        }
        ElfHeader::from_parts(self.bytes, self.class, self.encoding)
    }
}

/// Errors of the parse of an [`ElfFile`].
#[derive(Clone, Copy, Debug, Hash, PartialEq, Eq)]
pub enum ParseElfFileError {
    /// The class tag names a class that the parser was not built for.
    UnsupportedClass(UnsupportedClassError),
    /// The encoding tag names a byte order that the parser was not built for.
    UnsupportedEncoding(UnsupportedEncodingError),
    /// The file does not start with the magic bytes.
    InvalidMagicBytes,
    /// The header version is not the current one.
    UnsupportedElfHeaderVersion,
    /// A padding byte of the identification block is not zero.
    NonZeroPadding,
    /// The file version is not the current one.
    UnsupportedElfFileVersion,
    /// The declared header size is smaller than the fixed part of the header of the class.
    InvalidElfHeaderSize,
    /// The declared program header size is smaller than the fixed part of a program header of
    /// the class.
    InvalidProgramHeaderSize,
    /// The declared section header size is smaller than the fixed part of a section header of
    /// the class. [`ElfFile::parse`] does not check section headers and never returns this.
    InvalidSectionHeaderSize,
    /// The slice is too short for the header.
    TooSmallForHeader,
}

impl vstd::std_specs::convert::FromSpecImpl<ParseElfHeaderMinimalError> for ParseElfFileError {
    open spec fn obeys_from_spec() -> bool {
        true
    }

    open spec fn from_spec(v: ParseElfHeaderMinimalError) -> ParseElfFileError {
        file_error_of(v)
    }
}

impl From<ParseElfHeaderMinimalError> for ParseElfFileError {
    fn from(value: ParseElfHeaderMinimalError) -> (r: ParseElfFileError) {
        match value {
            ParseElfHeaderMinimalError::IdentError(error) => match error {
                ParseElfIdentMinimalError::TooSmall => ParseElfFileError::TooSmallForHeader,
                ParseElfIdentMinimalError::UnsupportedClass(class) => {
                    ParseElfFileError::UnsupportedClass(class)
                },
                ParseElfIdentMinimalError::UnsupportedEncoding(encoding) => {
                    ParseElfFileError::UnsupportedEncoding(encoding)
                },
            },
            ParseElfHeaderMinimalError::TooSmall => ParseElfFileError::TooSmallForHeader,
            ParseElfHeaderMinimalError::UnsupportedClass(class) => ParseElfFileError::UnsupportedClass(
                class,
            ),
            ParseElfHeaderMinimalError::UnsupportedEncoding(encoding) => {
                ParseElfFileError::UnsupportedEncoding(encoding)
            },
            ParseElfHeaderMinimalError::InvalidElfHeaderSize => {
                ParseElfFileError::InvalidElfHeaderSize
            },
        }
    }
}

/// A slice shorter than an identification block is refused by every constructor with an error
/// of size.
pub proof fn lemma_short_slice_refused<C: ClassParse, E: EncodingParse>(s: Seq<u8>)
    requires
        s.len() < IDENT_SIZE,
    ensures
        spec_raw_header::<C, E>(s) == Err::<(C, E), _>(ParseElfHeaderRawError::TooSmall),
        spec_minimal_header::<C, E>(s) == Err::<(C, E), _>(
            ParseElfHeaderMinimalError::IdentError(ParseElfIdentMinimalError::TooSmall),
        ),
        spec_parse_file::<C, E>(s) == Err::<(C, E), _>(ParseElfFileError::TooSmallForHeader),
{
}

/// A class tag that `C` does not accept is refused with an error that carries it: always by the
/// raw construction of a header; by the minimal parse and by the parse of a whole file when the
/// format does not define the tag either, or when it defines the encoding tag.
pub proof fn lemma_unsupported_class_refused<C: ClassParse, E: EncodingParse>(s: Seq<u8>)
    requires
        s.len() >= IDENT_SIZE,
        C::spec_from_elf_class(Class(s[CLASS_INDEX as int])) is None,
    ensures
        spec_raw_header::<C, E>(s) == Err::<(C, E), _>(
            ParseElfHeaderRawError::UnsupportedClass(
                UnsupportedClassError(Class(s[CLASS_INDEX as int])),
            ),
        ),
        !is_known_class_tag(s[CLASS_INDEX as int]) ==> spec_minimal_header::<C, E>(s) == Err::<
            (C, E),
            _,
        >(
            ParseElfHeaderMinimalError::IdentError(
                ParseElfIdentMinimalError::UnsupportedClass(
                    UnsupportedClassError(Class(s[CLASS_INDEX as int])),
                ),
            ),
        ),
        is_known_class_tag(s[CLASS_INDEX as int]) && is_known_encoding_tag(
            s[ENCODING_INDEX as int],
        ) ==> spec_minimal_header::<C, E>(s) == Err::<(C, E), _>(
            ParseElfHeaderMinimalError::UnsupportedClass(
                UnsupportedClassError(Class(s[CLASS_INDEX as int])),
            ),
        ),
        !is_known_class_tag(s[CLASS_INDEX as int]) || is_known_encoding_tag(
            s[ENCODING_INDEX as int],
        ) ==> spec_parse_file::<C, E>(s) == Err::<(C, E), _>(
            ParseElfFileError::UnsupportedClass(UnsupportedClassError(Class(s[CLASS_INDEX as int]))),
        ),
{
}

/// Changing bytes of a slice outside the fields that the minimal parse of a header reads leaves
/// its outcome as it was.
proof fn lemma_minimal_header_frame<C: ClassParse, E: EncodingParse>(s: Seq<u8>, t: Seq<u8>)
    requires
        spec_minimal_header::<C, E>(s) is Ok,
        t.len() == s.len(),
        forall|i: int|
            0 <= i < s.len() && s[i] != t[i] ==> i < IDENT_SIZE && i != CLASS_INDEX && i
                != ENCODING_INDEX,
    ensures
        spec_minimal_header::<C, E>(t) == spec_minimal_header::<C, E>(s),
        spec_minimal_header::<C, E>(s) matches Ok((c, e)) ==> {
            let layout = c.header_layout();
            &&& uint_at(e.is_big_endian(), t, layout.file_version as int, 4) == uint_at(
                e.is_big_endian(),
                s,
                layout.file_version as int,
                4,
            )
            &&& uint_at(e.is_big_endian(), t, layout.header_size as int, 2) == uint_at(
                e.is_big_endian(),
                s,
                layout.header_size as int,
                2,
            )
            &&& uint_at(e.is_big_endian(), t, layout.program_header_size as int, 2) == uint_at(
                e.is_big_endian(),
                s,
                layout.program_header_size as int,
                2,
            )
        },
{
    let (c, e) = spec_minimal_header::<C, E>(s)->Ok_0;
    c.lemma_header_layout();
    let layout = c.header_layout();
    assert(s[CLASS_INDEX as int] == t[CLASS_INDEX as int]);
    assert(s[ENCODING_INDEX as int] == t[ENCODING_INDEX as int]);
    let big_endian = e.is_big_endian();
    lemma_uint_at_frame(big_endian, s, t, layout.file_version as int, 4);
    lemma_uint_at_frame(big_endian, s, t, layout.header_size as int, 2);
    lemma_uint_at_frame(big_endian, s, t, layout.program_header_size as int, 2);
    assert(ident_minimal_error(t) == ident_minimal_error(s));
    assert(declared_header_size(t, c, e) == declared_header_size(s, c, e));
}

/// Changing any one of the magic bytes of a file that parses makes its parse fail with
/// [`ParseElfFileError::InvalidMagicBytes`].
pub proof fn lemma_flipped_magic_refused<C: ClassParse, E: EncodingParse>(
    s: Seq<u8>,
    i: int,
    b: u8,
)
    requires
        spec_parse_file::<C, E>(s) is Ok,
        0 <= i < 4,
        b != s[i],
    ensures
        spec_parse_file::<C, E>(s.update(i, b)) == Err::<(C, E), _>(
            ParseElfFileError::InvalidMagicBytes,
        ),
{
    let t = s.update(i, b);
    lemma_minimal_header_frame::<C, E>(s, t);
}

/// Making any one padding byte of a file that parses non-zero makes its parse fail with
/// [`ParseElfFileError::NonZeroPadding`], though every other check still passes.
pub proof fn lemma_nonzero_padding_refused<C: ClassParse, E: EncodingParse>(
    s: Seq<u8>,
    i: int,
    b: u8,
)
    requires
        spec_parse_file::<C, E>(s) is Ok,
        PADDING_INDEX <= i < IDENT_SIZE,
        b != 0,
    ensures
        spec_parse_file::<C, E>(s.update(i, b)) == Err::<(C, E), _>(
            ParseElfFileError::NonZeroPadding,
        ),
{
    let t = s.update(i, b);
    lemma_minimal_header_frame::<C, E>(s, t);
    assert(t[i] == b);
    assert(!has_zero_padding(t));
}

/// The message that describes `error`.
pub open spec fn file_error_message(error: ParseElfFileError) -> &'static str {
    match error {
        ParseElfFileError::UnsupportedClass(_) => "error parsing ELF file: unsupported ELF class",
        ParseElfFileError::UnsupportedEncoding(_) => "error parsing ELF file: unsupported ELF encoding",
        ParseElfFileError::InvalidMagicBytes => "error parsing ELF identifier: invalid magic bytes",
        ParseElfFileError::UnsupportedElfHeaderVersion => "error parsing ELF identifier: ELF header version not supported",
        ParseElfFileError::NonZeroPadding => "error parsing ELF identifier: ELF identifier padding was non-zero",
        ParseElfFileError::UnsupportedElfFileVersion => "error parsing ELF header: ELF file version not supported",
        ParseElfFileError::InvalidElfHeaderSize => "error parsing ELF header: invalid ELF header size",
        ParseElfFileError::InvalidProgramHeaderSize => "error parsing ELF header: invalid program header size",
        ParseElfFileError::InvalidSectionHeaderSize => "error parsing ELF header: invalid section header size",
        ParseElfFileError::TooSmallForHeader => "error parsing ELF header: the given slice is too small",
    }
}

impl ParseElfFileError {
    /// Returns a message that describes this error.
    pub fn message(&self) -> (r: &'static str)
        ensures
            r == file_error_message(*self),
    {
        match *self {
            ParseElfFileError::UnsupportedClass(_) => "error parsing ELF file: unsupported ELF class",
            ParseElfFileError::UnsupportedEncoding(_) => "error parsing ELF file: unsupported ELF encoding",
            ParseElfFileError::InvalidMagicBytes => "error parsing ELF identifier: invalid magic bytes",
            ParseElfFileError::UnsupportedElfHeaderVersion => "error parsing ELF identifier: ELF header version not supported",
            ParseElfFileError::NonZeroPadding => "error parsing ELF identifier: ELF identifier padding was non-zero",
            ParseElfFileError::UnsupportedElfFileVersion => "error parsing ELF header: ELF file version not supported",
            ParseElfFileError::InvalidElfHeaderSize => "error parsing ELF header: invalid ELF header size",
            ParseElfFileError::InvalidProgramHeaderSize => "error parsing ELF header: invalid program header size",
            ParseElfFileError::InvalidSectionHeaderSize => "error parsing ELF header: invalid section header size",
            ParseElfFileError::TooSmallForHeader => "error parsing ELF header: the given slice is too small",
        }
    }
}

} // verus!
