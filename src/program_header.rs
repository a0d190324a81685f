//! Program headers: the descriptions of the segments of a file.
use vstd::prelude::*;

use crate::class::{ClassParse, ClassParseBase};
use crate::encoding::{uint_at, EncodingParse};

verus! {

/// Where each field of a program header starts, in bytes from the start of the entry, and how
/// long the fixed part of an entry is.
pub struct ProgramHeaderLayout {
    pub segment_type: nat,
    pub flags: nat,
    pub file_offset: nat,
    pub file_size: nat,
    pub virtual_address: nat,
    pub physical_address: nat,
    pub memory_size: nat,
    pub alignment: nat,
    pub size: nat,
}

impl ProgramHeaderLayout {
    /// Every field, with addresses of `address_width` bytes, lies inside the entry.
    pub open spec fn fits(self, address_width: nat) -> bool {
        &&& self.segment_type + 4 <= self.size
        &&& self.flags + 4 <= self.size
        &&& self.file_offset + address_width <= self.size
        &&& self.file_size + address_width <= self.size
        &&& self.virtual_address + address_width <= self.size
        &&& self.physical_address + address_width <= self.size
        &&& self.memory_size + address_width <= self.size
        &&& self.alignment + address_width <= self.size
        &&& self.size <= u16::MAX
    }
}

/// The values of the fields of a program header.
pub struct ProgramHeaderFields {
    pub segment_type: nat,
    pub flags: nat,
    pub file_offset: nat,
    pub file_size: nat,
    pub virtual_address: nat,
    pub physical_address: nat,
    pub memory_size: nat,
    pub alignment: nat,
}

/// The fields of the program header at the start of `s`, read with `layout`, addresses of
/// `address_width` bytes and the given byte order.
pub open spec fn program_header_fields(
    s: Seq<u8>,
    layout: ProgramHeaderLayout,
    address_width: nat,
    big_endian: bool,
) -> ProgramHeaderFields {
    ProgramHeaderFields {
        segment_type: uint_at(big_endian, s, layout.segment_type as int, 4),
        flags: uint_at(big_endian, s, layout.flags as int, 4),
        file_offset: uint_at(big_endian, s, layout.file_offset as int, address_width),
        file_size: uint_at(big_endian, s, layout.file_size as int, address_width),
        virtual_address: uint_at(big_endian, s, layout.virtual_address as int, address_width),
        physical_address: uint_at(big_endian, s, layout.physical_address as int, address_width),
        memory_size: uint_at(big_endian, s, layout.memory_size as int, address_width),
        alignment: uint_at(big_endian, s, layout.alignment as int, address_width),
    }
}

/// The layout of a program header for a class.
pub trait ClassParseProgramHeader: ClassParseBase {
    /// Where the fields of a program header lie for this class.
    spec fn program_header_layout(self) -> ProgramHeaderLayout;

    /// The program header layout of this class fits its address width.
    proof fn lemma_program_header_layout(self)
        ensures
            self.program_header_layout().fits(self.address_width()),
    ;

    /// The offset of the [`SegmentType`].
    fn segment_type_offset(self) -> (r: usize)
        ensures
            r == self.program_header_layout().segment_type,
    ;

    /// The offset of the segment flags.
    fn segment_flags_offset(self) -> (r: usize)
        ensures
            r == self.program_header_layout().flags,
    ;

    /// The offset of the file offset of the segment.
    fn segment_file_offset_offset(self) -> (r: usize)
        ensures
            r == self.program_header_layout().file_offset,
    ;

    /// The offset of the number of bytes of the segment in the file.
    fn segment_file_size_offset(self) -> (r: usize)
        ensures
            r == self.program_header_layout().file_size,
    ;

    /// The offset of the virtual address of the loaded segment.
    fn segment_virtual_address_offset(self) -> (r: usize)
        ensures
            r == self.program_header_layout().virtual_address,
    ;

    /// The offset of the physical address of the loaded segment.
    fn segment_physical_address_offset(self) -> (r: usize)
        ensures
            r == self.program_header_layout().physical_address,
    ;

    /// The offset of the number of bytes of the loaded segment.
    fn segment_memory_size_offset(self) -> (r: usize)
        ensures
            r == self.program_header_layout().memory_size,
    ;

    /// The offset of the alignment of the segment.
    fn segment_alignment_offset(self) -> (r: usize)
        ensures
            r == self.program_header_layout().alignment,
    ;

    /// The length of the fixed part of a program header.
    fn expected_program_header_size(self) -> (r: usize)
        ensures
            r == self.program_header_layout().size,
    ;
}

/// View of one entry of the program header table.
///
/// The fields are decoded from the slice on each access; bytes past the fixed part of the entry
/// are not read.
#[derive(Debug, Hash, PartialEq, Eq)]
pub struct RawProgramHeader<'slice, C: ClassParse, E: EncodingParse> {
    /// The bytes of the entry.
    bytes: &'slice [u8],
    /// The class of the file.
    class: C,
    /// The encoding of the file.
    encoding: E,
}

impl<'slice, C: ClassParse, E: EncodingParse> RawProgramHeader<'slice, C, E> {
    #[verifier::type_invariant]
    spec fn inv(self) -> bool {
        &&& self.bytes@.len() >= self.class.program_header_layout().size
        &&& self.class.program_header_layout().fits(self.class.address_width())
    }

    /// The bytes that this view reads from.
    pub closed spec fn spec_bytes(&self) -> Seq<u8> {
        self.bytes@
    }

    /// The class that this view reads with.
    pub closed spec fn spec_class(&self) -> C {
        self.class
    }

    /// The encoding that this view reads with.
    pub closed spec fn spec_encoding(&self) -> E {
        self.encoding
    }

    /// Where the fields of this entry lie.
    pub open spec fn layout(&self) -> ProgramHeaderLayout {
        self.spec_class().program_header_layout()
    }

    /// Width in bytes of the addresses of this entry.
    pub open spec fn address_width(&self) -> nat {
        self.spec_class().address_width()
    }

    /// The values of the fields of this entry.
    pub open spec fn fields(&self) -> ProgramHeaderFields {
        program_header_fields(
            self.spec_bytes(),
            self.layout(),
            self.address_width(),
            self.spec_encoding().is_big_endian(),
        )
    }

    /// Creates a view of the program header at the start of `slice`, read with `class` and
    /// `encoding`.
    ///
    /// Returns `None` if `slice` is shorter than the fixed part of a program header of `class`.
    pub fn parse(class: C, encoding: E, slice: &'slice [u8]) -> (r: Option<Self>)
        ensures
            r is Some <==> slice@.len() >= class.program_header_layout().size,
            r matches Some(header) ==> {
                &&& header.spec_bytes() == slice@
                &&& header.spec_class() == class
                &&& header.spec_encoding() == encoding
            },
    {
        if slice.len() < class.expected_program_header_size() {
            return None;
        }
        proof {
            class.lemma_program_header_layout();
        }
        Some(RawProgramHeader { bytes: slice, class, encoding })
    }

    /// Returns the type of the segment, which says how to read the other fields.
    pub fn segment_type(&self) -> (r: SegmentType)
        ensures
            r.0 == self.fields().segment_type,
    {
        proof {
            use_type_invariant(self);
        }
        SegmentType(self.encoding.parse_u32_at(self.class.segment_type_offset(), self.bytes))
    }

    /// Returns the flags of the segment.
    pub fn flags(&self) -> (r: SegmentFlags)
        ensures
            r.0 == self.fields().flags,
    {
        proof {
            use_type_invariant(self);
        }
        SegmentFlags(self.encoding.parse_u32_at(self.class.segment_flags_offset(), self.bytes))
    }

    /// Returns the offset in the file of the first byte of the segment.
    pub fn file_offset(&self) -> (r: C::ClassUsize)
        ensures
            C::usize_value(r) == self.fields().file_offset,
    {
        proof {
            use_type_invariant(self);
        }
        self.class.parse_class_usize_at(self.encoding, self.class.segment_file_offset_offset(), self.bytes)
    }

    /// Returns the number of bytes of the segment in the file.
    pub fn file_size(&self) -> (r: C::ClassUsize)
        ensures
            C::usize_value(r) == self.fields().file_size,
    {
        proof {
            use_type_invariant(self);
        }
        self.class.parse_class_usize_at(self.encoding, self.class.segment_file_size_offset(), self.bytes)
    }

    /// Returns the virtual address of the first byte of the segment once loaded.
    pub fn virtual_address(&self) -> (r: C::ClassUsize)
        ensures
            C::usize_value(r) == self.fields().virtual_address,
    {
        proof {
            use_type_invariant(self);
        }
        self.class.parse_class_usize_at(self.encoding, self.class.segment_virtual_address_offset(), self.bytes)
    }

    /// Returns the physical address of the first byte of the segment once loaded.
    pub fn physical_address(&self) -> (r: C::ClassUsize)
        ensures
            C::usize_value(r) == self.fields().physical_address,
    {
        proof {
            use_type_invariant(self);
        }
        self.class.parse_class_usize_at(self.encoding, self.class.segment_physical_address_offset(), self.bytes)
    }

    /// Returns the number of bytes of the segment once loaded.
    pub fn memory_size(&self) -> (r: C::ClassUsize)
        ensures
            C::usize_value(r) == self.fields().memory_size,
    {
        proof {
            use_type_invariant(self);
        }
        self.class.parse_class_usize_at(self.encoding, self.class.segment_memory_size_offset(), self.bytes)
    }

    /// Returns the alignment of the segment, in the file and in memory.
    pub fn alignment(&self) -> (r: C::ClassUsize)
        ensures
            C::usize_value(r) == self.fields().alignment,
    {
        proof {
            use_type_invariant(self);
        }
        self.class.parse_class_usize_at(self.encoding, self.class.segment_alignment_offset(), self.bytes)
    }
}

impl<'slice, C: ClassParse, E: EncodingParse> Clone for RawProgramHeader<'slice, C, E> {
    fn clone(&self) -> (r: Self)
        ensures
            r == *self,
    {
        proof {
            use_type_invariant(self);
        }
        RawProgramHeader { bytes: self.bytes, class: self.class, encoding: self.encoding }
    }
}

impl<'slice, C: ClassParse, E: EncodingParse> Copy for RawProgramHeader<'slice, C, E> {

}

/// The name of the SegmentType tag `value`, where the format names it.
pub open spec fn segment_type_name(value: u32) -> Option<&'static str> {
    if value == SegmentType::NULL {
        Some("Null")
    } else if value == SegmentType::LOAD {
        Some("Load")
    } else if value == SegmentType::DYNAMIC {
        Some("Dynamic")
    } else if value == SegmentType::INTERPRETER {
        Some("Interpreter")
    } else if value == SegmentType::NOTE {
        Some("Note")
    } else if value == SegmentType::SHLIB {
        Some("Shlib")
    } else if value == SegmentType::PHDR {
        Some("ProgramHeaders")
    } else if value == SegmentType::TLS {
        Some("Tls")
    } else {
        None
    }
}

/// The type of a segment.
#[derive(Clone, Copy, Debug, Hash, PartialEq, Eq, PartialOrd, Ord, Structural)]
pub struct SegmentType(pub u32);

impl SegmentType {
    /// An unused entry.
    pub const NULL: u32 = 0;
    /// A segment to be loaded.
    pub const LOAD: u32 = 1;
    /// Dynamic linking information.
    pub const DYNAMIC: u32 = 2;
    /// The path of the program interpreter.
    pub const INTERPRETER: u32 = 3;
    /// Auxiliary information.
    pub const NOTE: u32 = 4;
    /// Reserved.
    pub const SHLIB: u32 = 5;
    /// The program header table itself.
    pub const PHDR: u32 = 6;
    /// The thread-local storage template.
    pub const TLS: u32 = 7;

    /// Returns the name of this tag, or `None` for a value that has no name.
    pub fn name(&self) -> (r: Option<&'static str>)
        ensures
            r == segment_type_name(self.0),
    {
        if self.0 == SegmentType::NULL {
            Some("Null")
        } else if self.0 == SegmentType::LOAD {
            Some("Load")
        } else if self.0 == SegmentType::DYNAMIC {
            Some("Dynamic")
        } else if self.0 == SegmentType::INTERPRETER {
            Some("Interpreter")
        } else if self.0 == SegmentType::NOTE {
            Some("Note")
        } else if self.0 == SegmentType::SHLIB {
            Some("Shlib")
        } else if self.0 == SegmentType::PHDR {
            Some("ProgramHeaders")
        } else if self.0 == SegmentType::TLS {
            Some("Tls")
        } else {
            None
        }
    }
}

/// The permissions of a segment, as bit flags.
#[derive(Clone, Copy, Debug, Hash, PartialEq, Eq, PartialOrd, Ord, Structural)]
pub struct SegmentFlags(pub u32);

impl SegmentFlags {
    /// The segment is executable.
    pub const EXECUTE: u32 = 0x1;
    /// The segment is writable.
    pub const WRITE: u32 = 0x2;
    /// The segment is readable.
    pub const READ: u32 = 0x4;
    /// The bits reserved for operating system specific meanings.
    pub const MASK_OS: u32 = 0x0ff0_ffff;
    /// The bits reserved for processor specific meanings.
    pub const MASK_PROCESSOR: u32 = 0xf000_0000;
}

} // verus!
