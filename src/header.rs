//! The file header.
use core::marker::PhantomData;

use vstd::prelude::*;

use crate::class::{ClassParse, ClassParseBase, UnsupportedClassError};
use crate::encoding::{uint_at, EncodingParse, UnsupportedEncodingError};
use crate::ident::{
    ident_minimal_error, Class, ElfIdent, Encoding, ParseElfIdentMinimalError, CLASS_INDEX,
    ENCODING_INDEX, IDENT_SIZE,
};
use crate::{MinimalParse, ParseState, Raw};

verus! {

/// The one file version that the format defines.
pub const CURRENT_FILE_VERSION: u32 = 1;

/// Whether a field of `width` bytes at `offset` lies after the identification block and inside a
/// header of `size` bytes.
pub open spec fn header_field_fits(offset: nat, width: nat, size: nat) -> bool {
    IDENT_SIZE <= offset && offset + width <= size
}

/// Where each field of the file header starts, in bytes from the start of the file, and how long
/// the fixed part of the header is.
pub struct HeaderLayout {
    pub elf_type: nat,
    pub machine: nat,
    pub file_version: nat,
    pub entry: nat,
    pub program_header_offset: nat,
    pub section_header_offset: nat,
    pub flags: nat,
    pub header_size: nat,
    pub program_header_size: nat,
    pub program_header_count: nat,
    pub section_header_size: nat,
    pub section_header_count: nat,
    pub section_header_string_table_index: nat,
    pub size: nat,
}

impl HeaderLayout {
    /// Every field, with addresses of `address_width` bytes, lies after the identification block
    /// and inside the header, and the header's length fits the field that declares it.
    pub open spec fn fits(self, address_width: nat) -> bool {
        &&& header_field_fits(self.elf_type, 2, self.size)
        &&& header_field_fits(self.machine, 2, self.size)
        &&& header_field_fits(self.file_version, 4, self.size)
        &&& header_field_fits(self.entry, address_width, self.size)
        &&& header_field_fits(self.program_header_offset, address_width, self.size)
        &&& header_field_fits(self.section_header_offset, address_width, self.size)
        &&& header_field_fits(self.flags, 4, self.size)
        &&& header_field_fits(self.header_size, 2, self.size)
        &&& header_field_fits(self.program_header_size, 2, self.size)
        &&& header_field_fits(self.program_header_count, 2, self.size)
        &&& header_field_fits(self.section_header_size, 2, self.size)
        &&& header_field_fits(self.section_header_count, 2, self.size)
        &&& header_field_fits(self.section_header_string_table_index, 2, self.size)
        &&& self.size <= u16::MAX
    }
}

/// The values of the fields of a file header after its identification block.
pub struct HeaderFields {
    pub elf_type: nat,
    pub machine: nat,
    pub file_version: nat,
    pub entry: nat,
    pub program_header_offset: nat,
    pub section_header_offset: nat,
    pub flags: nat,
    pub header_size: nat,
    pub program_header_size: nat,
    pub program_header_count: nat,
    pub section_header_size: nat,
    pub section_header_count: nat,
    pub section_header_string_table_index: nat,
}

/// The fields of the header at the start of `s`, read with `layout`, addresses of
/// `address_width` bytes and the given byte order.
pub open spec fn header_fields(
    s: Seq<u8>,
    layout: HeaderLayout,
    address_width: nat,
    big_endian: bool,
) -> HeaderFields {
    HeaderFields {
        elf_type: uint_at(big_endian, s, layout.elf_type as int, 2),
        machine: uint_at(big_endian, s, layout.machine as int, 2),
        file_version: uint_at(big_endian, s, layout.file_version as int, 4),
        entry: uint_at(big_endian, s, layout.entry as int, address_width),
        program_header_offset: uint_at(
            big_endian,
            s,
            layout.program_header_offset as int,
            address_width,
        ),
        section_header_offset: uint_at(
            big_endian,
            s,
            layout.section_header_offset as int,
            address_width,
        ),
        flags: uint_at(big_endian, s, layout.flags as int, 4),
        header_size: uint_at(big_endian, s, layout.header_size as int, 2),
        program_header_size: uint_at(big_endian, s, layout.program_header_size as int, 2),
        program_header_count: uint_at(big_endian, s, layout.program_header_count as int, 2),
        section_header_size: uint_at(big_endian, s, layout.section_header_size as int, 2),
        section_header_count: uint_at(big_endian, s, layout.section_header_count as int, 2),
        section_header_string_table_index: uint_at(
            big_endian,
            s,
            layout.section_header_string_table_index as int,
            2,
        ),
    }
}

/// The layout of the file header for a class.
pub trait ClassParseElfHeader: ClassParseBase {
    /// Where the fields of the file header lie for this class.
    spec fn header_layout(self) -> HeaderLayout;

    /// The header layout of this class fits its address width.
    proof fn lemma_header_layout(self)
        ensures
            self.header_layout().fits(self.address_width()),
    ;

    /// The offset of the [`ElfType`].
    fn elf_type_offset(self) -> (r: usize)
        ensures
            r == self.header_layout().elf_type,
    ;

    /// The offset of the [`Machine`].
    fn machine_offset(self) -> (r: usize)
        ensures
            r == self.header_layout().machine,
    ;

    /// The offset of the version of the file.
    fn file_version_offset(self) -> (r: usize)
        ensures
            r == self.header_layout().file_version,
    ;

    /// The offset of the entry point address.
    fn entry_offset(self) -> (r: usize)
        ensures
            r == self.header_layout().entry,
    ;

    /// The offset of the processor specific flags.
    fn flags_offset(self) -> (r: usize)
        ensures
            r == self.header_layout().flags,
    ;

    /// The offset of the size of the file header.
    fn header_size_offset(self) -> (r: usize)
        ensures
            r == self.header_layout().header_size,
    ;

    /// The offset of the file offset of the program header table.
    fn program_header_offset_offset(self) -> (r: usize)
        ensures
            r == self.header_layout().program_header_offset,
    ;

    /// The offset of the number of entries in the program header table.
    fn program_header_count_offset(self) -> (r: usize)
        ensures
            r == self.header_layout().program_header_count,
    ;

    /// The offset of the size of an entry in the program header table.
    fn program_header_size_offset(self) -> (r: usize)
        ensures
            r == self.header_layout().program_header_size,
    ;

    /// The offset of the file offset of the section header table.
    fn section_header_offset_offset(self) -> (r: usize)
        ensures
            r == self.header_layout().section_header_offset,
    ;

    /// The offset of the number of entries in the section header table.
    fn section_header_count_offset(self) -> (r: usize)
        ensures
            r == self.header_layout().section_header_count,
    ;

    /// The offset of the size of an entry in the section header table.
    fn section_header_size_offset(self) -> (r: usize)
        ensures
            r == self.header_layout().section_header_size,
    ;

    /// The offset of the index of the section that holds the section names.
    fn section_header_string_table_index_offset(self) -> (r: usize)
        ensures
            r == self.header_layout().section_header_string_table_index,
    ;

    /// The length of the fixed part of the file header.
    fn expected_elf_header_size(self) -> (r: usize)
        ensures
            r == self.header_layout().size,
    ;
}

/// What the raw construction of a header makes of the bytes `s`: the class and the encoding that
/// their tags select, or the first check that fails.
pub open spec fn spec_raw_header<C: ClassParse, E: EncodingParse>(s: Seq<u8>) -> Result<
    (C, E),
    ParseElfHeaderRawError,
> {
    if s.len() < IDENT_SIZE {
        Err(ParseElfHeaderRawError::TooSmall)
    } else {
        let class = Class(s[CLASS_INDEX as int]);
        let encoding = Encoding(s[ENCODING_INDEX as int]);
        match C::spec_from_elf_class(class) {
            None => Err(ParseElfHeaderRawError::UnsupportedClass(UnsupportedClassError(class))),
            Some(c) => match E::spec_from_elf_encoding(encoding) {
                None => Err(
                    ParseElfHeaderRawError::UnsupportedEncoding(UnsupportedEncodingError(encoding)),
                ),
                Some(e) => if s.len() < c.header_layout().size {
                    Err(ParseElfHeaderRawError::TooSmall)
                } else {
                    Ok((c, e))
                },
            },
        }
    }
}

/// The header size that the bytes `s` declare, read with class `c` and encoding `e`.
pub open spec fn declared_header_size<C: ClassParse, E: EncodingParse>(
    s: Seq<u8>,
    c: C,
    e: E,
) -> nat {
    uint_at(e.is_big_endian(), s, c.header_layout().header_size as int, 2)
}

/// What the minimal parse of a header makes of the bytes `s`: the class and the encoding that
/// their tags select, or the first check that fails.
pub open spec fn spec_minimal_header<C: ClassParse, E: EncodingParse>(s: Seq<u8>) -> Result<
    (C, E),
    ParseElfHeaderMinimalError,
> {
    match ident_minimal_error(s) {
        Some(error) => Err(ParseElfHeaderMinimalError::IdentError(error)),
        None => {
            let class = Class(s[CLASS_INDEX as int]);
            let encoding = Encoding(s[ENCODING_INDEX as int]);
            match C::spec_from_elf_class(class) {
                None => Err(
                    ParseElfHeaderMinimalError::UnsupportedClass(UnsupportedClassError(class)),
                ),
                Some(c) => match E::spec_from_elf_encoding(encoding) {
                    None => Err(
                        ParseElfHeaderMinimalError::UnsupportedEncoding(
                            UnsupportedEncodingError(encoding),
                        ),
                    ),
                    Some(e) => if s.len() < c.header_layout().size {
                        Err(ParseElfHeaderMinimalError::TooSmall)
                    } else if declared_header_size(s, c, e) < c.header_layout().size {
                        Err(ParseElfHeaderMinimalError::InvalidElfHeaderSize)
                    } else {
                        Ok((c, e))
                    },
                },
            }
        },
    }
}

/// View of the file header at the start of a byte slice.
///
/// The fields are decoded from the slice on each access.
#[derive(Debug, Hash, PartialEq, Eq)]
pub struct ElfHeader<'slice, C: ClassParse, E: EncodingParse, S: ParseState> {
    /// The bytes of the file; the header is at their start.
    bytes: &'slice [u8],
    /// The class of the file.
    class: C,
    /// The encoding of the file.
    encoding: E,
    /// Marker of the checks that were made on the header.
    state: PhantomData<S>,
}

impl<'slice, C: ClassParse, E: EncodingParse, S: ParseState> ElfHeader<'slice, C, E, S> {
    #[verifier::type_invariant]
    spec fn inv(self) -> bool {
        &&& self.bytes@.len() >= IDENT_SIZE
        &&& self.bytes@.len() >= self.class.header_layout().size
        &&& self.class.header_layout().fits(self.class.address_width())
        &&& S::checks_declared_sizes() ==> declared_header_size(
            self.bytes@,
            self.class,
            self.encoding,
        ) >= self.class.header_layout().size
    }

    /// The bytes that this view reads from; the header is at their start.
    pub closed spec fn spec_bytes(&self) -> Seq<u8> {
        self.bytes@
    }

    /// The class that this view reads with.
    pub closed spec fn spec_class(&self) -> C {
        self.class
    }

    /// The encoding that this view reads with.
    pub closed spec fn spec_encoding(&self) -> E {
        self.encoding
    }

    /// Where the fields of this header lie.
    pub open spec fn layout(&self) -> HeaderLayout {
        self.spec_class().header_layout()
    }

    /// Width in bytes of the addresses of this header.
    pub open spec fn address_width(&self) -> nat {
        self.spec_class().address_width()
    }

    /// The values of the fields of this header.
    pub open spec fn fields(&self) -> HeaderFields {
        header_fields(
            self.spec_bytes(),
            self.layout(),
            self.address_width(),
            self.spec_encoding().is_big_endian(),
        )
    }

    /// A view over `slice` with the given class and encoding, whose type invariant holds.
    pub(crate) fn from_parts(slice: &'slice [u8], class: C, encoding: E) -> (r: Self)
        requires
            slice@.len() >= IDENT_SIZE,
            slice@.len() >= class.header_layout().size,
            S::checks_declared_sizes() ==> declared_header_size(slice@, class, encoding)
                >= class.header_layout().size,
        ensures
            r.spec_bytes() == slice@,
            r.spec_class() == class,
            r.spec_encoding() == encoding,
    {
        proof {
            class.lemma_header_layout();
        }
        ElfHeader { bytes: slice, class, encoding, state: PhantomData }
    }

    /// The class that this view reads with.
    pub(crate) fn class(&self) -> (r: C)
        ensures
            r == self.spec_class(),
    {
        self.class
    }

    /// The encoding that this view reads with.
    pub(crate) fn encoding(&self) -> (r: E)
        ensures
            r == self.spec_encoding(),
    {
        self.encoding
    }

    /// Returns the identification block of this header.
    pub fn identifier(&self) -> (r: ElfIdent<'slice, S>)
        ensures
            r.spec_bytes() == self.spec_bytes(),
    {
        proof {
            use_type_invariant(self);
        }
        ElfIdent::from_slice(self.bytes)
    }

    /// Returns the type of this file.
    pub fn elf_type(&self) -> (r: ElfType)
        ensures
            r.0 == self.fields().elf_type,
    {
        proof {
            use_type_invariant(self);
        }
        ElfType(self.encoding.parse_u16_at(self.class.elf_type_offset(), self.bytes))
    }

    /// Returns the architecture that this file targets.
    pub fn machine(&self) -> (r: Machine)
        ensures
            r.0 == self.fields().machine,
    {
        proof {
            use_type_invariant(self);
        }
        Machine(self.encoding.parse_u16_at(self.class.machine_offset(), self.bytes))
    }

    /// Returns the version of this file.
    pub fn file_version(&self) -> (r: u32)
        ensures
            r == self.fields().file_version,
    {
        proof {
            use_type_invariant(self);
        }
        self.encoding.parse_u32_at(self.class.file_version_offset(), self.bytes)
    }

    /// Returns the processor specific flags of this file.
    pub fn flags(&self) -> (r: u32)
        ensures
            r == self.fields().flags,
    {
        proof {
            use_type_invariant(self);
        }
        self.encoding.parse_u32_at(self.class.flags_offset(), self.bytes)
    }

    /// Returns the size in bytes that the file declares for its header.
    ///
    /// A header made by [`ElfHeader::minimal_parse`] declares at least the length of the fixed
    /// part of the header of its class.
    pub fn header_size(&self) -> (r: u16)
        ensures
            r == self.fields().header_size,
            S::checks_declared_sizes() ==> r >= self.layout().size,
    {
        proof {
            use_type_invariant(self);
        }
        self.encoding.parse_u16_at(self.class.header_size_offset(), self.bytes)
    }

    /// Returns the virtual address of the entry point of this file.
    pub fn entry(&self) -> (r: C::ClassUsize)
        ensures
            C::usize_value(r) == self.fields().entry,
    {
        proof {
            use_type_invariant(self);
        }
        self.class.parse_class_usize_at(self.encoding, self.class.entry_offset(), self.bytes)
    }

    /// Returns the offset in the file of the program header table.
    pub fn program_header_offset(&self) -> (r: C::ClassUsize)
        ensures
            C::usize_value(r) == self.fields().program_header_offset,
    {
        proof {
            use_type_invariant(self);
        }
        self.class.parse_class_usize_at(
            self.encoding,
            self.class.program_header_offset_offset(),
            self.bytes,
        )
    }

    /// Returns the number of entries in the program header table.
    pub fn program_header_count(&self) -> (r: u16)
        ensures
            r == self.fields().program_header_count,
    {
        proof {
            use_type_invariant(self);
        }
        self.encoding.parse_u16_at(self.class.program_header_count_offset(), self.bytes)
    }

    /// Returns the size of each entry in the program header table.
    pub fn program_header_size(&self) -> (r: u16)
        ensures
            r == self.fields().program_header_size,
    {
        proof {
            use_type_invariant(self);
        }
        self.encoding.parse_u16_at(self.class.program_header_size_offset(), self.bytes)
    }

    /// Returns the offset in the file of the section header table.
    pub fn section_header_offset(&self) -> (r: C::ClassUsize)
        ensures
            C::usize_value(r) == self.fields().section_header_offset,
    {
        proof {
            use_type_invariant(self);
        }
        self.class.parse_class_usize_at(
            self.encoding,
            self.class.section_header_offset_offset(),
            self.bytes,
        )
    }

    /// Returns the number of entries in the section header table.
    pub fn section_header_count(&self) -> (r: u16)
        ensures
            r == self.fields().section_header_count,
    {
        proof {
            use_type_invariant(self);
        }
        self.encoding.parse_u16_at(self.class.section_header_count_offset(), self.bytes)
    }

    /// Returns the size of each entry in the section header table.
    pub fn section_header_size(&self) -> (r: u16)
        ensures
            r == self.fields().section_header_size,
    {
        proof {
            use_type_invariant(self);
        }
        self.encoding.parse_u16_at(self.class.section_header_size_offset(), self.bytes)
    }

    /// Returns the index in the section header table of the section that holds the section
    /// names.
    pub fn section_header_string_table_index(&self) -> (r: u16)
        ensures
            r == self.fields().section_header_string_table_index,
    {
        proof {
            use_type_invariant(self);
        }
        self.encoding.parse_u16_at(
            self.class.section_header_string_table_index_offset(),
            self.bytes,
        )
    }
}

impl<'slice, C: ClassParse, E: EncodingParse, S: ParseState> Clone for ElfHeader<'slice, C, E, S> {
    fn clone(&self) -> (r: Self)
        ensures
            r == *self,
    {
        proof {
            use_type_invariant(self);
        }
        ElfHeader { bytes: self.bytes, class: self.class, encoding: self.encoding, state: PhantomData }
    }
}

impl<'slice, C: ClassParse, E: EncodingParse, S: ParseState> Copy for ElfHeader<'slice, C, E, S> {

}

impl<'slice, C: ClassParse, E: EncodingParse> ElfHeader<'slice, C, E, Raw> {
    /// Creates a view of the header at the start of `slice`.
    ///
    /// The slice must hold the identification block and the fixed part of the header of the
    /// class that its class tag selects; the values of the fields are not checked.
    ///
    /// # Errors
    ///
    /// - [`ParseElfHeaderRawError::TooSmall`]: `slice` is too short.
    /// - [`ParseElfHeaderRawError::UnsupportedClass`]: `C` does not accept the class tag.
    /// - [`ParseElfHeaderRawError::UnsupportedEncoding`]: `E` does not accept the encoding tag.
    pub fn new(slice: &'slice [u8]) -> (r: Result<Self, ParseElfHeaderRawError>)
        ensures
            match r {
                Ok(header) => {
                    &&& spec_raw_header::<C, E>(slice@) == Ok::<(C, E), ParseElfHeaderRawError>(
                        (header.spec_class(), header.spec_encoding()),
                    )
                    &&& header.spec_bytes() == slice@
                },
                Err(error) => spec_raw_header::<C, E>(slice@) == Err::<(C, E), _>(error),
            },
    {
        let ident = match ElfIdent::new(slice) {
            Some(ident) => ident,
            None => return Err(ParseElfHeaderRawError::TooSmall),
        };
        let class = match C::from_elf_class(ident.class()) {
            Ok(class) => class,
            Err(error) => return Err(ParseElfHeaderRawError::from(error)),
        };
        let encoding = match E::from_elf_encoding(ident.encoding()) {
            Ok(encoding) => encoding,
            Err(error) => return Err(ParseElfHeaderRawError::from(error)),
        };
        if slice.len() < class.expected_elf_header_size() {
            return Err(ParseElfHeaderRawError::TooSmall);
        }
        Ok(ElfHeader::from_parts(slice, class, encoding))
    }
}

impl<'slice, C: ClassParse, E: EncodingParse> ElfHeader<'slice, C, E, MinimalParse> {
    /// Creates a view of the header at the start of `slice`, once the identification block has
    /// passed its minimal parse and the header declares a size of at least the length of the
    /// fixed part of the header of its class.
    ///
    /// # Errors
    ///
    /// - [`ParseElfHeaderMinimalError::IdentError`]: the identification block failed its
    ///     minimal parse.
    /// - [`ParseElfHeaderMinimalError::UnsupportedClass`]: `C` does not accept the class tag.
    /// - [`ParseElfHeaderMinimalError::UnsupportedEncoding`]: `E` does not accept the encoding
    ///     tag.
    /// - [`ParseElfHeaderMinimalError::TooSmall`]: `slice` is too short for the header.
    /// - [`ParseElfHeaderMinimalError::InvalidElfHeaderSize`]: the header declares a smaller
    ///     size.
    pub fn minimal_parse(slice: &'slice [u8]) -> (r: Result<Self, ParseElfHeaderMinimalError>)
        ensures
            match r {
                Ok(header) => {
                    &&& spec_minimal_header::<C, E>(slice@) == Ok::<
                        (C, E),
                        ParseElfHeaderMinimalError,
                    >((header.spec_class(), header.spec_encoding()))
                    &&& header.spec_bytes() == slice@
                },
                Err(error) => spec_minimal_header::<C, E>(slice@) == Err::<(C, E), _>(error),
            },
    {
        let ident = match ElfIdent::minimal_parse(slice) {
            Ok(ident) => ident,
            Err(error) => return Err(ParseElfHeaderMinimalError::from(error)),
        };
        let class = match C::from_elf_class(ident.class()) {
            Ok(class) => class,
            Err(error) => return Err(ParseElfHeaderMinimalError::from(error)),
        };
        let encoding = match E::from_elf_encoding(ident.encoding()) {
            Ok(encoding) => encoding,
            Err(error) => return Err(ParseElfHeaderMinimalError::from(error)),
        };
        let expected = class.expected_elf_header_size();
        if slice.len() < expected {
            return Err(ParseElfHeaderMinimalError::TooSmall);
        }
        proof {
            class.lemma_header_layout();
        }
        let declared = encoding.parse_u16_at(class.header_size_offset(), slice);
        if (declared as usize) < expected {
            return Err(ParseElfHeaderMinimalError::InvalidElfHeaderSize);
        }
        Ok(ElfHeader::from_parts(slice, class, encoding))
    }
}

/// Errors of the raw construction of an [`ElfHeader`].
#[derive(Clone, Copy, Debug, Hash, PartialEq, Eq, PartialOrd, Ord)]
pub enum ParseElfHeaderRawError {
    /// The slice is too short.
    TooSmall,
    /// The class tag names a class that the parser was not built for.
    UnsupportedClass(UnsupportedClassError),
    /// The encoding tag names a byte order that the parser was not built for.
    UnsupportedEncoding(UnsupportedEncodingError),
}

/// Errors of the minimal parse of an [`ElfHeader`].
#[derive(Clone, Copy, Debug, Hash, PartialEq, Eq, PartialOrd, Ord)]
pub enum ParseElfHeaderMinimalError {
    /// The identification block failed its minimal parse.
    IdentError(ParseElfIdentMinimalError),
    /// The slice is too short.
    TooSmall,
    /// The class tag names a class that the parser was not built for.
    UnsupportedClass(UnsupportedClassError),
    /// The encoding tag names a byte order that the parser was not built for.
    UnsupportedEncoding(UnsupportedEncodingError),
    /// The header declares a size smaller than the fixed part of the header of its class.
    InvalidElfHeaderSize,
}

impl vstd::std_specs::convert::FromSpecImpl<UnsupportedClassError> for ParseElfHeaderRawError {
    open spec fn obeys_from_spec() -> bool {
        true
    }

    open spec fn from_spec(v: UnsupportedClassError) -> ParseElfHeaderRawError {
        ParseElfHeaderRawError::UnsupportedClass(v)
    }
}

impl From<UnsupportedClassError> for ParseElfHeaderRawError {
    fn from(value: UnsupportedClassError) -> (r: ParseElfHeaderRawError) {
        ParseElfHeaderRawError::UnsupportedClass(value)
    }
}

impl vstd::std_specs::convert::FromSpecImpl<UnsupportedEncodingError> for ParseElfHeaderRawError {
    open spec fn obeys_from_spec() -> bool {
        true
    }

    open spec fn from_spec(v: UnsupportedEncodingError) -> ParseElfHeaderRawError {
        ParseElfHeaderRawError::UnsupportedEncoding(v)
    }
}

impl From<UnsupportedEncodingError> for ParseElfHeaderRawError {
    fn from(value: UnsupportedEncodingError) -> (r: ParseElfHeaderRawError) {
        ParseElfHeaderRawError::UnsupportedEncoding(value)
    }
}

impl vstd::std_specs::convert::FromSpecImpl<ParseElfIdentMinimalError> for ParseElfHeaderMinimalError {
    open spec fn obeys_from_spec() -> bool {
        true
    }

    open spec fn from_spec(v: ParseElfIdentMinimalError) -> ParseElfHeaderMinimalError {
        ParseElfHeaderMinimalError::IdentError(v)
    }
}

impl From<ParseElfIdentMinimalError> for ParseElfHeaderMinimalError {
    fn from(value: ParseElfIdentMinimalError) -> (r: ParseElfHeaderMinimalError) {
        ParseElfHeaderMinimalError::IdentError(value)
    }
}

impl vstd::std_specs::convert::FromSpecImpl<UnsupportedClassError> for ParseElfHeaderMinimalError {
    open spec fn obeys_from_spec() -> bool {
        true
    }

    open spec fn from_spec(v: UnsupportedClassError) -> ParseElfHeaderMinimalError {
        ParseElfHeaderMinimalError::UnsupportedClass(v)
    }
}

impl From<UnsupportedClassError> for ParseElfHeaderMinimalError {
    fn from(value: UnsupportedClassError) -> (r: ParseElfHeaderMinimalError) {
        ParseElfHeaderMinimalError::UnsupportedClass(value)
    }
}

impl vstd::std_specs::convert::FromSpecImpl<UnsupportedEncodingError> for ParseElfHeaderMinimalError {
    open spec fn obeys_from_spec() -> bool {
        true
    }

    open spec fn from_spec(v: UnsupportedEncodingError) -> ParseElfHeaderMinimalError {
        ParseElfHeaderMinimalError::UnsupportedEncoding(v)
    }
}

impl From<UnsupportedEncodingError> for ParseElfHeaderMinimalError {
    fn from(value: UnsupportedEncodingError) -> (r: ParseElfHeaderMinimalError) {
        ParseElfHeaderMinimalError::UnsupportedEncoding(value)
    }
}

/// The name of the ElfType tag `value`, where the format names it.
pub open spec fn elf_type_name(value: u16) -> Option<&'static str> {
    if value == ElfType::NONE {
        Some("None")
    } else if value == ElfType::RELOCATABLE {
        Some("Relocatable")
    } else if value == ElfType::EXECUTABLE {
        Some("Executable")
    } else if value == ElfType::SHARED {
        Some("SharedObject")
    } else if value == ElfType::CORE {
        Some("Core")
    } else {
        None
    }
}

/// The type of an ELF file.
#[derive(Clone, Copy, Debug, Hash, PartialEq, Eq, PartialOrd, Ord, Structural)]
pub struct ElfType(pub u16);

impl ElfType {
    /// No type.
    pub const NONE: u16 = 0;
    /// A relocatable file.
    pub const RELOCATABLE: u16 = 1;
    /// An executable file.
    pub const EXECUTABLE: u16 = 2;
    /// A shared object.
    pub const SHARED: u16 = 3;
    /// A core file.
    pub const CORE: u16 = 4;

    /// Returns the name of this tag, or `None` for a value that has no name.
    pub fn name(&self) -> (r: Option<&'static str>)
        ensures
            r == elf_type_name(self.0),
    {
        if self.0 == ElfType::NONE {
            Some("None")
        } else if self.0 == ElfType::RELOCATABLE {
            Some("Relocatable")
        } else if self.0 == ElfType::EXECUTABLE {
            Some("Executable")
        } else if self.0 == ElfType::SHARED {
            Some("SharedObject")
        } else if self.0 == ElfType::CORE {
            Some("Core")
        } else {
            None
        }
    }
}

/// The name of the Machine tag `value`, where the format names it.
pub open spec fn machine_name(value: u16) -> Option<&'static str> {
    if value == Machine::NONE {
        Some("None")
    } else if value == Machine::INTEL_386 {
        Some("Intel386")
    } else if value == Machine::ARM {
        Some("Aarch32")
    } else if value == Machine::X86_64 {
        Some("x86_64")
    } else if value == Machine::AARCH64 {
        Some("Aarch64")
    } else {
        None
    }
}

/// The architecture that an ELF file targets.
#[derive(Clone, Copy, Debug, Hash, PartialEq, Eq, PartialOrd, Ord, Structural)]
pub struct Machine(pub u16);

impl Machine {
    /// No particular machine.
    pub const NONE: u16 = 0;
    /// The Intel 80386 architecture.
    pub const INTEL_386: u16 = 3;
    /// The 32-bit Arm architecture.
    pub const ARM: u16 = 40;
    /// The AMD x86_64 architecture.
    pub const X86_64: u16 = 62;
    /// The 64-bit Arm architecture.
    pub const AARCH64: u16 = 183;

    /// Returns the name of this tag, or `None` for a value that has no name.
    pub fn name(&self) -> (r: Option<&'static str>)
        ensures
            r == machine_name(self.0),
    {
        if self.0 == Machine::NONE {
            Some("None")
        } else if self.0 == Machine::INTEL_386 {
            Some("Intel386")
        } else if self.0 == Machine::ARM {
            Some("Aarch32")
        } else if self.0 == Machine::X86_64 {
            Some("x86_64")
        } else if self.0 == Machine::AARCH64 {
            Some("Aarch64")
        } else {
            None
        }
    }
}

/// The message that describes `error`.
pub open spec fn raw_header_error_message(error: ParseElfHeaderRawError) -> &'static str {
    match error {
        ParseElfHeaderRawError::TooSmall => "slice too small",
        ParseElfHeaderRawError::UnsupportedClass(_) => "unsupported ELF class",
        ParseElfHeaderRawError::UnsupportedEncoding(_) => "unsupported ELF encoding",
    }
}

impl ParseElfHeaderRawError {
    /// Returns a message that describes this error.
    pub fn message(&self) -> (r: &'static str)
        ensures
            r == raw_header_error_message(*self),
    {
        match *self {
            ParseElfHeaderRawError::TooSmall => "slice too small",
            ParseElfHeaderRawError::UnsupportedClass(_) => "unsupported ELF class",
            ParseElfHeaderRawError::UnsupportedEncoding(_) => "unsupported ELF encoding",
        }
    }
}

/// The message that describes `error`.
pub open spec fn minimal_header_error_message(error: ParseElfHeaderMinimalError) -> &'static str {
    match error {
        ParseElfHeaderMinimalError::IdentError(ParseElfIdentMinimalError::TooSmall) => "error while parsing ELF identifier: slice too small",
        ParseElfHeaderMinimalError::IdentError(ParseElfIdentMinimalError::UnsupportedClass(_)) => "error while parsing ELF identifier: unsupported ELF class",
        ParseElfHeaderMinimalError::IdentError(ParseElfIdentMinimalError::UnsupportedEncoding(_)) => "error while parsing ELF identifier: unsupported ELF encoding",
        ParseElfHeaderMinimalError::TooSmall => "slice too small",
        ParseElfHeaderMinimalError::UnsupportedClass(_) => "unsupported ELF class",
        ParseElfHeaderMinimalError::UnsupportedEncoding(_) => "unsupported ELF encoding",
        ParseElfHeaderMinimalError::InvalidElfHeaderSize => "given ELF header size is smaller than expected",
    }
}

impl ParseElfHeaderMinimalError {
    /// Returns a message that describes this error.
    pub fn message(&self) -> (r: &'static str)
        ensures
            r == minimal_header_error_message(*self),
    {
        match *self {
            ParseElfHeaderMinimalError::IdentError(ParseElfIdentMinimalError::TooSmall) => "error while parsing ELF identifier: slice too small",
            ParseElfHeaderMinimalError::IdentError(ParseElfIdentMinimalError::UnsupportedClass(_)) => "error while parsing ELF identifier: unsupported ELF class",
            ParseElfHeaderMinimalError::IdentError(ParseElfIdentMinimalError::UnsupportedEncoding(_)) => "error while parsing ELF identifier: unsupported ELF encoding",
            ParseElfHeaderMinimalError::TooSmall => "slice too small",
            ParseElfHeaderMinimalError::UnsupportedClass(_) => "unsupported ELF class",
            ParseElfHeaderMinimalError::UnsupportedEncoding(_) => "unsupported ELF encoding",
            ParseElfHeaderMinimalError::InvalidElfHeaderSize => "given ELF header size is smaller than expected",
        }
    }
}

} // verus!
