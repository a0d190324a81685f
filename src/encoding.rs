//! Byte-order aware decoding of fixed-width scalars.
use vstd::prelude::*;

use crate::ident::Encoding;

verus! {

/// The encoding tag of a file names a byte order that the parser was not built for.
#[derive(Clone, Copy, Debug, Hash, PartialEq, Eq, PartialOrd, Ord, Structural)]
pub struct UnsupportedEncodingError(pub Encoding);

/// `256` to the power `n`: one more than the largest number that `n` bytes hold.
pub open spec fn pow256(n: nat) -> nat
    decreases n,
{
    if n == 0 {
        1
    } else {
        256 * pow256((n - 1) as nat)
    }
}

/// The number that `s` holds with its least significant byte first.
pub open spec fn le_value(s: Seq<u8>) -> nat
    decreases s.len(),
{
    if s.len() == 0 {
        0
    } else {
        s[0] as nat + 256 * le_value(s.drop_first())
    }
}

/// The number that `s` holds with its most significant byte first.
pub open spec fn be_value(s: Seq<u8>) -> nat
    decreases s.len(),
{
    if s.len() == 0 {
        0
    } else {
        be_value(s.drop_last()) * 256 + s.last() as nat
    }
}

/// The number that `s` holds in the given byte order.
pub open spec fn uint_value(big_endian: bool, s: Seq<u8>) -> nat {
    if big_endian {
        be_value(s)
    } else {
        le_value(s)
    }
}

/// The unsigned number held by the `width` bytes of `bytes` that start at `offset`.
pub open spec fn uint_at(big_endian: bool, bytes: Seq<u8>, offset: int, width: nat) -> nat {
    uint_value(big_endian, bytes.subrange(offset, offset + width))
}

/// `value`, a number of `width` bytes, read as two's complement.
pub open spec fn signed_value(value: nat, width: nat) -> int {
    if 2 * value < pow256(width) {
        value as int
    } else {
        value - pow256(width)
    }
}

/// Raising 256 to a larger power gives a larger number.
pub proof fn lemma_pow256_monotonic(a: nat, b: nat)
    requires
        a <= b,
    ensures
        1 <= pow256(a) <= pow256(b),
    decreases b,
{
    if b > a {
        lemma_pow256_monotonic(a, (b - 1) as nat);
    } else if a > 0 {
        lemma_pow256_monotonic((a - 1) as nat, (a - 1) as nat);
    }
}

/// A number read from a slice depends only on the bytes that hold it.
pub proof fn lemma_uint_at_frame(big_endian: bool, s: Seq<u8>, t: Seq<u8>, offset: int, width: nat)
    requires
        0 <= offset,
        offset + width <= s.len(),
        offset + width <= t.len(),
        forall|i: int| offset <= i < offset + width ==> s[i] == t[i],
    ensures
        uint_at(big_endian, s, offset, width) == uint_at(big_endian, t, offset, width),
{
    assert(s.subrange(offset, offset + width) =~= t.subrange(offset, offset + width));
}

/// Decodes the unsigned number held by `width` bytes of `data` from `offset` on.
fn read_uint(big_endian: bool, data: &[u8], offset: usize, width: usize) -> (r: u64)
    requires
        width <= 8,
        offset + width <= data@.len(),
    ensures
        r == uint_at(big_endian, data@, offset as int, width as nat),
        r < pow256(width as nat),
{
    let ghost s = data@.subrange(offset as int, offset + width);
    let len = data.len();
    proof {
        reveal_with_fuel(pow256, 9);
        assert(pow256(8) == 0x1_0000_0000_0000_0000);
    }
    let mut value: u64 = 0;
    let mut i: usize = 0;
    while i < width
        invariant
            i <= width <= 8,
            offset + width <= data@.len() == len,
            s == data@.subrange(offset as int, offset + width),
            pow256(8) == 0x1_0000_0000_0000_0000,
            value < pow256(i as nat),
            big_endian ==> value == be_value(s.subrange(0, i as int)),
            !big_endian ==> value == le_value(s.subrange(width - i, width as int)),
        decreases width - i,
    {
        let index = if big_endian {
            offset + i
        } else {
            offset + (width - 1 - i)
        };
        proof {
            lemma_pow256_monotonic((i + 1) as nat, 8);
            assert(pow256((i + 1) as nat) == 256 * pow256(i as nat));
        }
        value = value * 256 + data[index] as u64;
        proof {
            if big_endian {
                assert(s.subrange(0, i + 1).drop_last() =~= s.subrange(0, i as int));
            } else {
                assert(s.subrange(width - i - 1, width as int).drop_first() =~= s.subrange(
                    width - i,
                    width as int,
                ));
            }
        }
        i = i + 1;
    }
    assert(s.subrange(0, width as int) =~= s);
    assert(s.subrange(width - width, width as int) =~= s);
    value
}

/// A byte order, and the decoding of fixed-width scalars in it.
pub trait EncodingParse: Copy + Sized {
    /// Whether scalars are stored most significant byte first.
    spec fn is_big_endian(self) -> bool;

    /// The value of this type that the encoding tag `encoding` selects, if there is one.
    spec fn spec_from_elf_encoding(encoding: Encoding) -> Option<Self>;

    /// The value of this type that the encoding tag `encoding` selects.
    fn from_elf_encoding(encoding: Encoding) -> (r: Result<Self, UnsupportedEncodingError>)
        ensures
            r == (match Self::spec_from_elf_encoding(encoding) {
                Some(e) => Ok(e),
                None => Err(UnsupportedEncodingError(encoding)),
            }),
    ;

    /// Whether scalars are stored most significant byte first.
    fn big_endian(self) -> (r: bool)
        ensures
            r == self.is_big_endian(),
    ;

    /// Decodes the `u16` at `offset` in `data`.
    fn parse_u16_at(self, offset: usize, data: &[u8]) -> (r: u16)
        requires
            offset + 2 <= data@.len(),
        ensures
            r == uint_at(self.is_big_endian(), data@, offset as int, 2),
    {
        let value = read_uint(self.big_endian(), data, offset, 2);
        proof {
            reveal_with_fuel(pow256, 3);
        }
        value as u16
    }

    /// Decodes the `u32` at `offset` in `data`.
    fn parse_u32_at(self, offset: usize, data: &[u8]) -> (r: u32)
        requires
            offset + 4 <= data@.len(),
        ensures
            r == uint_at(self.is_big_endian(), data@, offset as int, 4),
    {
        let value = read_uint(self.big_endian(), data, offset, 4);
        proof {
            reveal_with_fuel(pow256, 5);
        }
        value as u32
    }

    /// Decodes the `u64` at `offset` in `data`.
    fn parse_u64_at(self, offset: usize, data: &[u8]) -> (r: u64)
        requires
            offset + 8 <= data@.len(),
        ensures
            r == uint_at(self.is_big_endian(), data@, offset as int, 8),
    {
        read_uint(self.big_endian(), data, offset, 8)
    }

    /// Decodes the `i32` at `offset` in `data`.
    fn parse_i32_at(self, offset: usize, data: &[u8]) -> (r: i32)
        requires
            offset + 4 <= data@.len(),
        ensures
            r == signed_value(uint_at(self.is_big_endian(), data@, offset as int, 4), 4),
    {
        let value = read_uint(self.big_endian(), data, offset, 4);
        proof {
            reveal_with_fuel(pow256, 5);
        }
        if value < 0x8000_0000 {
            value as i32
        } else {
            (value as i64 - 0x1_0000_0000) as i32
        }
    }

    /// Decodes the `i64` at `offset` in `data`.
    fn parse_i64_at(self, offset: usize, data: &[u8]) -> (r: i64)
        requires
            offset + 8 <= data@.len(),
        ensures
            r == signed_value(uint_at(self.is_big_endian(), data@, offset as int, 8), 8),
    {
        let value = read_uint(self.big_endian(), data, offset, 8);
        proof {
            reveal_with_fuel(pow256, 9);
        }
        if value < 0x8000_0000_0000_0000 {
            value as i64
        } else {
            (value - 0x8000_0000_0000_0000) as i64 - 0x7fff_ffff_ffff_ffff - 1
        }
    }
}

/// Scalars stored least significant byte first.
#[derive(Clone, Copy, Debug, Hash, Default, PartialEq, Eq, PartialOrd, Ord)]
pub struct LittleEndian;

/// Scalars stored most significant byte first.
#[derive(Clone, Copy, Debug, Hash, Default, PartialEq, Eq, PartialOrd, Ord)]
pub struct BigEndian;

impl EncodingParse for LittleEndian {
    open spec fn is_big_endian(self) -> bool {
        false
    }

    open spec fn spec_from_elf_encoding(encoding: Encoding) -> Option<Self> {
        if encoding.0 == Encoding::LITTLE_ENDIAN {
            Some(LittleEndian)
        } else {
            None
        }
    }

    fn from_elf_encoding(encoding: Encoding) -> (r: Result<Self, UnsupportedEncodingError>) {
        if encoding.0 != Encoding::LITTLE_ENDIAN {
            return Err(UnsupportedEncodingError(encoding));
        }
        Ok(LittleEndian)
    }

    fn big_endian(self) -> (r: bool) {
        false
    }
}

impl EncodingParse for BigEndian {
    open spec fn is_big_endian(self) -> bool {
        true
    }

    open spec fn spec_from_elf_encoding(encoding: Encoding) -> Option<Self> {
        if encoding.0 == Encoding::BIG_ENDIAN {
            Some(BigEndian)
        } else {
            None
        }
    }

    fn from_elf_encoding(encoding: Encoding) -> (r: Result<Self, UnsupportedEncodingError>) {
        if encoding.0 != Encoding::BIG_ENDIAN {
            return Err(UnsupportedEncodingError(encoding));
        }
        Ok(BigEndian)
    }

    fn big_endian(self) -> (r: bool) {
        true
    }
}

/// One of two byte orders, chosen by the encoding tag of the file.
///
/// The first byte order wins where both accept a tag.
#[derive(Clone, Copy, Debug, Hash, PartialEq, Eq, PartialOrd, Ord)]
pub enum Merge<A: EncodingParse, B: EncodingParse> {
    /// The first byte order.
    A(A),
    /// The second byte order.
    B(B),
}

impl<A: EncodingParse, B: EncodingParse> EncodingParse for Merge<A, B> {
    open spec fn is_big_endian(self) -> bool {
        match self {
            Merge::A(a) => a.is_big_endian(),
            Merge::B(b) => b.is_big_endian(),
        }
    }

    open spec fn spec_from_elf_encoding(encoding: Encoding) -> Option<Self> {
        match A::spec_from_elf_encoding(encoding) {
            Some(a) => Some(Merge::A(a)),
            None => match B::spec_from_elf_encoding(encoding) {
                Some(b) => Some(Merge::B(b)),
                None => None,
            },
        }
    }

    fn from_elf_encoding(encoding: Encoding) -> (r: Result<Self, UnsupportedEncodingError>) {
        if let Ok(a) = A::from_elf_encoding(encoding) {
            return Ok(Merge::A(a));
        }
        match B::from_elf_encoding(encoding) {
            Ok(b) => Ok(Merge::B(b)),
            Err(error) => Err(error),
        }
    }

    fn big_endian(self) -> (r: bool) {
        match self {
            Merge::A(a) => a.big_endian(),
            Merge::B(b) => b.big_endian(),
        }
    }
}

} // verus!
