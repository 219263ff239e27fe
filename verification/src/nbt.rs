//! The binary named-tag data model: elements, compounds, tag types, and
//! reading, writing and skipping of their payloads over byte slices.
//!
//! String payloads are carried as raw bytes and floating-point payloads as
//! their IEEE 754 bit patterns, so every value is a plain one.

pub mod scanner;
pub mod string;
pub mod visitor;

use self::scanner::{NbtScanner, ScannerResult};
use self::visitor::NbtElementVisitor;
use vstd::prelude::*;

verus! {

pub const END_TYPE: u8 = 0;

pub const U8_TYPE: u8 = 1;

pub const I16_TYPE: u8 = 2;

pub const I32_TYPE: u8 = 3;

pub const I64_TYPE: u8 = 4;

pub const F32_TYPE: u8 = 5;

pub const F64_TYPE: u8 = 6;

pub const U8_VEC_TYPE: u8 = 7;

pub const STRING_TYPE: u8 = 8;

pub const LIST_TYPE: u8 = 9;

pub const COMPOUND_TYPE: u8 = 10;

pub const I32_VEC_TYPE: u8 = 11;

pub const I64_VEC_TYPE: u8 = 12;

/// The kind of a binary tag element.
#[derive(Clone, Copy, Debug, PartialEq, Eq, Structural)]
pub enum NbtType {
    String,
    U8,
    I16,
    I32,
    I64,
    F32,
    F64,
    U8Vec,
    I32Vec,
    I64Vec,
    List,
    Compound,
    End,
}

/// Error returned when tag data cannot be read.
#[derive(Clone, Copy, Debug, PartialEq, Eq, Structural)]
pub enum NbtError {
    /// A collection length read from the input was negative.
    NegativeLength,
}

impl NbtType {
    /// Whether values of this kind never change once read.
    pub fn is_immutable(&self) -> (r: bool)
        ensures
            r == match *self {
                NbtType::String | NbtType::U8 | NbtType::I16 => true,
                _ => false,
            },
    {
        matches!(self, NbtType::String | NbtType::U8 | NbtType::I16)
    }

    /// The kind's name as it appears in crash reports. Defined for every
    /// kind but lists, compounds and end markers; asking for those is a
    /// caller error, ruled out by the precondition.
    pub fn get_crash_report_name(&self) -> (r: &str)
        requires
            !(self matches NbtType::List || self matches NbtType::Compound
                || self matches NbtType::End),
        ensures
            r@ == match *self {
                NbtType::String => "STRING"@,
                NbtType::U8 => "BYTE"@,
                NbtType::I16 => "SHORT"@,
                NbtType::I32 => "INT"@,
                NbtType::I64 => "LONG"@,
                NbtType::F32 => "FLOAT"@,
                NbtType::F64 => "DOUBLE"@,
                NbtType::U8Vec => "BYTE[]"@,
                NbtType::I32Vec => "INT[]"@,
                NbtType::I64Vec => "LONG[]"@,
                _ => Seq::<char>::empty(),
            },
    {
        match self {
            NbtType::String => "STRING",
            NbtType::U8 => "BYTE",
            NbtType::I16 => "SHORT",
            NbtType::I32 => "INT",
            NbtType::I64 => "LONG",
            NbtType::F32 => "FLOAT",
            NbtType::F64 => "DOUBLE",
            NbtType::U8Vec => "BYTE[]",
            NbtType::I32Vec => "INT[]",
            NbtType::I64Vec => "LONG[]",
            // unreachable: the precondition admits only the kinds above
            _ => vstd::pervasive::unreached(),
        }
    }

    /// The kind's name as it appears in command feedback. Defined for every
    /// kind but lists, compounds and end markers; asking for those is a
    /// caller error, ruled out by the precondition.
    pub fn get_command_feedback_name(&self) -> (r: &str)
        requires
            !(self matches NbtType::List || self matches NbtType::Compound
                || self matches NbtType::End),
        ensures
            r@ == match *self {
                NbtType::String => "STAG_String"@,
                NbtType::U8 => "TAG_Byte"@,
                NbtType::I16 => "TAG_Short"@,
                NbtType::I32 => "TAG_Int"@,
                NbtType::I64 => "TAG_Long"@,
                NbtType::F32 => "TAG_Float"@,
                NbtType::F64 => "TAG_Double"@,
                NbtType::U8Vec => "TAG_Byte_Array"@,
                NbtType::I32Vec => "TAG_Int_Array"@,
                NbtType::I64Vec => "TAG_Long_Array"@,
                _ => Seq::<char>::empty(),
            },
    {
        match self {
            NbtType::String => "STAG_String",
            NbtType::U8 => "TAG_Byte",
            NbtType::I16 => "TAG_Short",
            NbtType::I32 => "TAG_Int",
            NbtType::I64 => "TAG_Long",
            NbtType::F32 => "TAG_Float",
            NbtType::F64 => "TAG_Double",
            NbtType::U8Vec => "TAG_Byte_Array",
            NbtType::I32Vec => "TAG_Int_Array",
            NbtType::I64Vec => "TAG_Long_Array",
            // unreachable: the precondition admits only the kinds above
            _ => vstd::pervasive::unreached(),
        }
    }

    /// The fixed payload size of this kind in bytes, where it has one.
    pub open spec fn spec_size_in_bytes(&self) -> Option<usize> {
        match *self {
            NbtType::U8 => Some(1usize),
            NbtType::I16 => Some(2usize),
            NbtType::I32 => Some(4usize),
            NbtType::I64 => Some(8usize),
            NbtType::F32 => Some(4usize),
            NbtType::F64 => Some(8usize),
            _ => None,
        }
    }

    /// The fixed payload size of this kind in bytes, where it has one.
    #[verifier::when_used_as_spec(spec_size_in_bytes)]
    pub fn get_size_in_bytes(&self) -> (r: Option<usize>)
        ensures
            r == self.spec_size_in_bytes(),
    {
        match self {
            NbtType::U8 => Some(1),
            NbtType::I16 => Some(2),
            NbtType::I32 => Some(4),
            NbtType::I64 => Some(8),
            NbtType::F32 => Some(4),
            NbtType::F64 => Some(8),
            _ => None,
        }
    }

    /// Whether this kind is a scalar or string: the kinds whose payloads
    /// the streaming functions handle.
    pub open spec fn is_scalar_type(&self) -> bool {
        match *self {
            NbtType::String | NbtType::U8 | NbtType::I16 | NbtType::I32 | NbtType::I64
                | NbtType::F32 | NbtType::F64 => true,
            _ => false,
        }
    }

    /// Where a skip of one value of this kind leaves the reader: past the
    /// fixed payload for scalars, past the length prefix alone for strings,
    /// and past the prefixed count of bytes for byte arrays.
    pub open spec fn spec_skip(&self, s: Seq<u8>, pos: int) -> int {
        match *self {
            NbtType::String => spec_advance(s.len() as int, pos, 2),
            NbtType::U8Vec => {
                let j = as_i32(spec_be_u32(s, pos)) as int;
                let mid = spec_advance(s.len() as int, pos, 4);
                if j > 0 {
                    spec_advance(s.len() as int, mid, j)
                } else {
                    mid
                }
            },
            _ => match self.spec_size_in_bytes() {
                Some(size) => spec_advance(s.len() as int, pos, size as int),
                None => pos,
            },
        }
    }

    /// Skips one value of this kind. Defined for every kind but integer
    /// arrays, lists, compounds and end markers; skipping those is a caller
    /// error, ruled out by the precondition.
    pub fn skip(&self, input: &[u8], pos: &mut usize)
        requires
            *old(pos) <= input@.len(),
            !(self matches NbtType::I32Vec || self matches NbtType::I64Vec
                || self matches NbtType::List || self matches NbtType::Compound
                || self matches NbtType::End),
        ensures
            *final(pos) == self.spec_skip(input@, *old(pos) as int),
            *final(pos) <= input@.len(),
    {
        if let Some(size) = self.get_size_in_bytes() {
            let ghost start = *pos;
            let mut k: usize = 0;
            while k < size
                invariant
                    *pos <= input@.len(),
                    k <= size,
                    *pos == spec_advance(input@.len() as int, start as int, k as int),
                decreases size - k,
            {
                let _ = read_u8(input, pos);
                k += 1;
            }
            return ;
        }
        match self {
            NbtType::String => {
                let _ = read_unsigned_short(input, pos);
            },
            NbtType::U8Vec => {
                let j = to_i32(read_be_u32(input, pos));
                let ghost mid = *pos;
                let mut k: i32 = 0;
                while k < j
                    invariant
                        *pos <= input@.len(),
                        j > 0 ==> 0 <= k <= j,
                        j <= 0 ==> k == 0,
                        *pos == spec_advance(input@.len() as int, mid as int, k as int),
                    decreases j - k,
                {
                    let _ = read_u8(input, pos);
                    k += 1;
                }
            },
            _ => {},
        }
    }

    /// Skips `count` values of this kind: the fixed payload `count` times
    /// for scalars, `count` length prefixes for strings, and nothing for
    /// every other kind.
    pub fn skip_counted(&self, input: &[u8], pos: &mut usize, count: usize)
        requires
            *old(pos) <= input@.len(),
            count <= usize::MAX / 8,
        ensures
            *final(pos) == match *self {
                NbtType::String => spec_advance(input@.len() as int, *old(pos) as int, 2 * count),
                _ => match self.spec_size_in_bytes() {
                    Some(size) => spec_advance(
                        input@.len() as int,
                        *old(pos) as int,
                        size * count,
                    ),
                    None => *old(pos) as int,
                },
            },
            *final(pos) <= input@.len(),
    {
        if let Some(size) = self.get_size_in_bytes() {
            let total = size * count;
            let ghost start = *pos;
            let mut k: usize = 0;
            while k < total
                invariant
                    *pos <= input@.len(),
                    k <= total,
                    *pos == spec_advance(input@.len() as int, start as int, k as int),
                decreases total - k,
            {
                let _ = read_u8(input, pos);
                k += 1;
            }
            return ;
        }
        match self {
            NbtType::String => {
                let ghost start = *pos;
                let mut k: usize = 0;
                while k < count
                    invariant
                        *pos <= input@.len(),
                        k <= count,
                        *pos == spec_advance(input@.len() as int, start as int, 2 * k),
                    decreases count - k,
                {
                    let _ = read_unsigned_short(input, pos);
                    k += 1;
                }
            },
            _ => {},
        }
    }

    /// Feeds one value of this kind, read from the input, to a scanner and
    /// returns what the scanner asked for. A string takes all remaining
    /// input as its payload. Defined for scalars and strings; the rest is a
    /// caller error, ruled out by the precondition.
    pub fn do_accept<S: NbtScanner>(&self, input: &[u8], pos: &mut usize, scanner: &mut S) -> (r:
        ScannerResult)
        requires
            *old(pos) <= input@.len(),
            self.is_scalar_type(),
        ensures
            *final(pos) <= input@.len(),
            *final(pos) == match *self {
                NbtType::String => input@.len() as int,
                _ => match self.spec_size_in_bytes() {
                    Some(size) => spec_advance(input@.len() as int, *old(pos) as int, size as int),
                    None => *old(pos) as int,
                },
            },
    {
        match self {
            NbtType::String => {
                let rest = &input[*pos..input.len()];
                *pos = input.len();
                scanner.visit_string(rest)
            },
            NbtType::U8 => {
                let v = read_u8(input, pos);
                scanner.visit_u8(v)
            },
            NbtType::I16 => {
                let v = to_i16(read_unsigned_short(input, pos));
                scanner.visit_i16(v)
            },
            NbtType::I32 => {
                let v = to_i32(read_be_u32(input, pos));
                scanner.visit_i32(v)
            },
            NbtType::I64 => {
                let v = to_i64(read_be_u64(input, pos));
                scanner.visit_i64(v)
            },
            NbtType::F32 => {
                let bits = read_be_u32(input, pos);
                scanner.visit_f32_bits(bits)
            },
            NbtType::F64 => {
                let bits = read_be_u64(input, pos);
                scanner.visit_f64_bits(bits)
            },
            // unreachable: the precondition admits only scalar kinds
            _ => vstd::pervasive::unreached(),
        }
    }

    /// Announces this kind to the scanner, then visits the value, skips it,
    /// or leaves it untouched, as the scanner asked. Defined for scalars and
    /// strings; the rest is a caller error, ruled out by the precondition.
    pub fn accept<S: NbtScanner>(&self, input: &[u8], pos: &mut usize, scanner: &mut S)
        requires
            *old(pos) <= input@.len(),
            self.is_scalar_type(),
        ensures
            *final(pos) <= input@.len(),
            // the value was visited, skipped, or left alone, as the scanner chose
            *final(pos) == *old(pos) || *final(pos) == self.spec_skip(input@, *old(pos) as int)
                || *final(pos) == match *self {
                NbtType::String => input@.len() as int,
                _ => match self.spec_size_in_bytes() {
                    Some(size) => spec_advance(input@.len() as int, *old(pos) as int, size as int),
                    None => *old(pos) as int,
                },
            },
    {
        match scanner.start(*self) {
            ScannerResult::Continue => {
                let _ = self.do_accept(input, pos, scanner);
            },
            ScannerResult::Break => {},
            ScannerResult::Halt => self.skip(input, pos),
        }
    }
}

/// The byte of `s` at `i`, reading as zero past either end: a reader that
/// runs out of input sees zeroed bytes.
pub open spec fn byte_at(s: Seq<u8>, i: int) -> u8 {
    if 0 <= i < s.len() {
        s[i]
    } else {
        0
    }
}

/// Where a reader stands after taking `n` bytes from position `pos` of an
/// input of length `len`: it never passes the end.
pub open spec fn spec_advance(len: int, pos: int, n: int) -> int {
    if pos + n <= len {
        pos + n
    } else {
        len
    }
}

/// The big-endian 16-bit value read at `pos`.
pub open spec fn spec_be_u16(s: Seq<u8>, pos: int) -> u16 {
    (byte_at(s, pos) * 0x100 + byte_at(s, pos + 1)) as u16
}

/// The big-endian 32-bit value read at `pos`.
pub open spec fn spec_be_u32(s: Seq<u8>, pos: int) -> u32 {
    (spec_be_u16(s, pos) * 0x1_0000 + spec_be_u16(s, pos + 2)) as u32
}

/// The big-endian 64-bit value read at `pos`.
pub open spec fn spec_be_u64(s: Seq<u8>, pos: int) -> u64 {
    (spec_be_u32(s, pos) * 0x1_0000_0000 + spec_be_u32(s, pos + 4)) as u64
}

/// The 16-bit two's-complement value of the unsigned pattern `u`.
pub open spec fn as_i16(u: u16) -> i16 {
    if u < 0x8000 {
        u as i16
    } else {
        (u - 0x1_0000) as i16
    }
}

/// The 32-bit two's-complement value of the unsigned pattern `u`.
pub open spec fn as_i32(u: u32) -> i32 {
    if u < 0x8000_0000 {
        u as i32
    } else {
        (u - 0x1_0000_0000) as i32
    }
}

/// The 64-bit two's-complement value of the unsigned pattern `u`.
pub open spec fn as_i64(u: u64) -> i64 {
    if u < 0x8000_0000_0000_0000 {
        u as i64
    } else {
        (u - 0x1_0000_0000_0000_0000) as i64
    }
}

/// The unsigned 16-bit pattern of the two's-complement value `v`.
pub open spec fn as_u16(v: i16) -> u16 {
    if v >= 0 {
        v as u16
    } else {
        (v + 0x1_0000) as u16
    }
}

/// The unsigned 32-bit pattern of the two's-complement value `v`.
pub open spec fn as_u32(v: i32) -> u32 {
    if v >= 0 {
        v as u32
    } else {
        (v + 0x1_0000_0000) as u32
    }
}

/// The unsigned 64-bit pattern of the two's-complement value `v`.
pub open spec fn as_u64(v: i64) -> u64 {
    if v >= 0 {
        v as u64
    } else {
        (v + 0x1_0000_0000_0000_0000) as u64
    }
}

/// Reads one byte, or zero when the input is exhausted.
pub fn read_u8(input: &[u8], pos: &mut usize) -> (r: u8)
    requires
        *old(pos) <= input@.len(),
    ensures
        r == byte_at(input@, *old(pos) as int),
        *final(pos) == spec_advance(input@.len() as int, *old(pos) as int, 1),
        *final(pos) <= input@.len(),
{
    if *pos < input.len() {
        let b = input[*pos];
        *pos += 1;
        b
    } else {
        0
    }
}

/// Reads a big-endian 16-bit unsigned value, missing bytes reading as zero.
pub fn read_unsigned_short(input: &[u8], pos: &mut usize) -> (r: u16)
    requires
        *old(pos) <= input@.len(),
    ensures
        r == spec_be_u16(input@, *old(pos) as int),
        *final(pos) == spec_advance(input@.len() as int, *old(pos) as int, 2),
        *final(pos) <= input@.len(),
{
    let a = read_u8(input, pos);
    let b = read_u8(input, pos);
    (a as u16) * 0x100 + (b as u16)
}

/// Reads a big-endian 32-bit unsigned value, missing bytes reading as zero.
pub fn read_be_u32(input: &[u8], pos: &mut usize) -> (r: u32)
    requires
        *old(pos) <= input@.len(),
    ensures
        r == spec_be_u32(input@, *old(pos) as int),
        *final(pos) == spec_advance(input@.len() as int, *old(pos) as int, 4),
        *final(pos) <= input@.len(),
{
    let a = read_unsigned_short(input, pos);
    let b = read_unsigned_short(input, pos);
    (a as u32) * 0x1_0000 + (b as u32)
}

/// Reads a big-endian 64-bit unsigned value, missing bytes reading as zero.
pub fn read_be_u64(input: &[u8], pos: &mut usize) -> (r: u64)
    requires
        *old(pos) <= input@.len(),
    ensures
        r == spec_be_u64(input@, *old(pos) as int),
        *final(pos) == spec_advance(input@.len() as int, *old(pos) as int, 8),
        *final(pos) <= input@.len(),
{
    let a = read_be_u32(input, pos);
    let b = read_be_u32(input, pos);
    (a as u64) * 0x1_0000_0000 + (b as u64)
}

/// The two's-complement 16-bit value of an unsigned pattern.
pub fn to_i16(u: u16) -> (r: i16)
    ensures
        r == as_i16(u),
{
    if u < 0x8000 {
        u as i16
    } else {
        -((0xFFFF - u) as i16) - 1
    }
}

/// The two's-complement 32-bit value of an unsigned pattern.
pub fn to_i32(u: u32) -> (r: i32)
    ensures
        r == as_i32(u),
{
    if u < 0x8000_0000 {
        u as i32
    } else {
        -((0xFFFF_FFFF - u) as i32) - 1
    }
}

/// The two's-complement 64-bit value of an unsigned pattern.
pub fn to_i64(u: u64) -> (r: i64)
    ensures
        r == as_i64(u),
{
    if u < 0x8000_0000_0000_0000 {
        u as i64
    } else {
        -((0xFFFF_FFFF_FFFF_FFFF - u) as i64) - 1
    }
}

/// The unsigned 16-bit pattern of a two's-complement value.
pub fn to_u16(v: i16) -> (r: u16)
    ensures
        r == as_u16(v),
{
    if v >= 0 {
        v as u16
    } else {
        0xFFFF - ((-(v + 1)) as u16)
    }
}

/// The unsigned 32-bit pattern of a two's-complement value.
pub fn to_u32(v: i32) -> (r: u32)
    ensures
        r == as_u32(v),
{
    if v >= 0 {
        v as u32
    } else {
        0xFFFF_FFFF - ((-(v + 1)) as u32)
    }
}

/// The unsigned 64-bit pattern of a two's-complement value.
pub fn to_u64(v: i64) -> (r: u64)
    ensures
        r == as_u64(v),
{
    if v >= 0 {
        v as u64
    } else {
        0xFFFF_FFFF_FFFF_FFFF - ((-(v + 1)) as u64)
    }
}

/// The big-endian bytes of a 16-bit unsigned value.
pub open spec fn be16_bytes(u: u16) -> Seq<u8> {
    seq![(u / 0x100) as u8, (u % 0x100) as u8]
}

/// The big-endian bytes of a 32-bit unsigned value.
pub open spec fn be32_bytes(u: u32) -> Seq<u8> {
    be16_bytes((u / 0x1_0000) as u16) + be16_bytes((u % 0x1_0000) as u16)
}

/// The big-endian bytes of a 64-bit unsigned value.
pub open spec fn be64_bytes(u: u64) -> Seq<u8> {
    be32_bytes((u / 0x1_0000_0000) as u32) + be32_bytes((u % 0x1_0000_0000) as u32)
}

/// Appends the big-endian bytes of a 16-bit unsigned value.
pub fn write_be_u16(output: &mut Vec<u8>, u: u16)
    ensures
        final(output)@ == old(output)@ + be16_bytes(u),
{
    output.push((u / 0x100) as u8);
    output.push((u % 0x100) as u8);
    proof {
        assert(final(output)@ =~= old(output)@ + be16_bytes(u));
    }
}

/// Appends the big-endian bytes of a 32-bit unsigned value.
pub fn write_be_u32(output: &mut Vec<u8>, u: u32)
    ensures
        final(output)@ == old(output)@ + be32_bytes(u),
{
    write_be_u16(output, (u / 0x1_0000) as u16);
    write_be_u16(output, (u % 0x1_0000) as u16);
    proof {
        assert(final(output)@ =~= old(output)@ + be32_bytes(u));
    }
}

/// Appends the big-endian bytes of a 64-bit unsigned value.
pub fn write_be_u64(output: &mut Vec<u8>, u: u64)
    ensures
        final(output)@ == old(output)@ + be64_bytes(u),
{
    write_be_u32(output, (u / 0x1_0000_0000) as u32);
    write_be_u32(output, (u % 0x1_0000_0000) as u32);
    proof {
        assert(final(output)@ =~= old(output)@ + be64_bytes(u));
    }
}

/// One binary tag element. String payloads are raw bytes; `F32` and `F64`
/// carry the IEEE 754 bit patterns of their values.
pub enum NbtElement {
    String(Vec<u8>),
    U8(u8),
    I16(i16),
    I32(i32),
    I64(i64),
    F32(u32),
    F64(u64),
    U8Vec(Vec<u8>),
    I32Vec(Vec<i32>),
    I64Vec(Vec<i64>),
    List(Vec<NbtElement>, u8),
    Compound(NbtCompound),
    End,
}

/// A compound element: an ordered collection of named elements with
/// distinct names.
pub struct NbtCompound {
    entries: Vec<(String, NbtElement)>,
}

/// Deep element equality: same variant, payloads equal by value, lists and
/// compounds equal entry by entry.
pub open spec fn elem_eq(a: NbtElement, b: NbtElement) -> bool
    decreases a,
{
    match (a, b) {
        (NbtElement::String(x), NbtElement::String(y)) => x@ == y@,
        (NbtElement::U8(x), NbtElement::U8(y)) => x == y,
        (NbtElement::I16(x), NbtElement::I16(y)) => x == y,
        (NbtElement::I32(x), NbtElement::I32(y)) => x == y,
        (NbtElement::I64(x), NbtElement::I64(y)) => x == y,
        (NbtElement::F32(x), NbtElement::F32(y)) => x == y,
        (NbtElement::F64(x), NbtElement::F64(y)) => x == y,
        (NbtElement::U8Vec(x), NbtElement::U8Vec(y)) => x@ == y@,
        (NbtElement::I32Vec(x), NbtElement::I32Vec(y)) => x@ == y@,
        (NbtElement::I64Vec(x), NbtElement::I64Vec(y)) => x@ == y@,
        (NbtElement::List(x, xt), NbtElement::List(y, yt)) => xt == yt && x@.len() == y@.len()
            && (forall|i: int| 0 <= i < x@.len() ==> elem_eq(#[trigger] x@[i], y@[i])),
        (NbtElement::Compound(x), NbtElement::Compound(y)) => compound_eq(x, y),
        (NbtElement::End, NbtElement::End) => true,
        _ => false,
    }
}

/// Deep compound equality: same names in the same order, values deeply
/// equal.
pub open spec fn compound_eq(a: NbtCompound, b: NbtCompound) -> bool
    decreases a,
{
    a.spec_entries().len() == b.spec_entries().len() && (forall|i: int|
        0 <= i < a.spec_entries().len() ==> (#[trigger] a.spec_entries()[i].0)@
            == b.spec_entries()[i].0@ && elem_eq(a.spec_entries()[i].1, b.spec_entries()[i].1))
}

impl NbtElement {
    /// The numeric type code of this element.
    pub fn get_type(&self) -> (r: u8)
        ensures
            r == match self {
                NbtElement::String(_) => STRING_TYPE,
                NbtElement::U8(_) => U8_TYPE,
                NbtElement::I16(_) => I16_TYPE,
                NbtElement::I32(_) => I32_TYPE,
                NbtElement::I64(_) => I64_TYPE,
                NbtElement::F32(_) => F32_TYPE,
                NbtElement::F64(_) => F64_TYPE,
                NbtElement::U8Vec(_) => U8_VEC_TYPE,
                NbtElement::I32Vec(_) => I32_VEC_TYPE,
                NbtElement::I64Vec(_) => I64_VEC_TYPE,
                NbtElement::List(_, _) => LIST_TYPE,
                NbtElement::Compound(_) => COMPOUND_TYPE,
                NbtElement::End => END_TYPE,
            },
    {
        match self {
            NbtElement::String(_) => STRING_TYPE,
            NbtElement::U8(_) => U8_TYPE,
            NbtElement::I16(_) => I16_TYPE,
            NbtElement::I32(_) => I32_TYPE,
            NbtElement::I64(_) => I64_TYPE,
            NbtElement::F32(_) => F32_TYPE,
            NbtElement::F64(_) => F64_TYPE,
            NbtElement::U8Vec(_) => U8_VEC_TYPE,
            NbtElement::I32Vec(_) => I32_VEC_TYPE,
            NbtElement::I64Vec(_) => I64_VEC_TYPE,
            NbtElement::List(_, _) => LIST_TYPE,
            NbtElement::Compound(_) => COMPOUND_TYPE,
            NbtElement::End => END_TYPE,
        }
    }

    /// The tag type of this element.
    pub open spec fn get_nbt_type_spec(&self) -> NbtType {
        match self {
            NbtElement::String(_) => NbtType::String,
            NbtElement::U8(_) => NbtType::U8,
            NbtElement::I16(_) => NbtType::I16,
            NbtElement::I32(_) => NbtType::I32,
            NbtElement::I64(_) => NbtType::I64,
            NbtElement::F32(_) => NbtType::F32,
            NbtElement::F64(_) => NbtType::F64,
            NbtElement::U8Vec(_) => NbtType::U8Vec,
            NbtElement::I32Vec(_) => NbtType::I32Vec,
            NbtElement::I64Vec(_) => NbtType::I64Vec,
            NbtElement::List(_, _) => NbtType::List,
            NbtElement::Compound(_) => NbtType::Compound,
            NbtElement::End => NbtType::End,
        }
    }

    /// The tag type of this element.
    #[verifier::when_used_as_spec(get_nbt_type_spec)]
    pub fn get_nbt_type(&self) -> (r: NbtType)
        ensures
            r == self.get_nbt_type_spec(),
    {
        match self {
            NbtElement::String(_) => NbtType::String,
            NbtElement::U8(_) => NbtType::U8,
            NbtElement::I16(_) => NbtType::I16,
            NbtElement::I32(_) => NbtType::I32,
            NbtElement::I64(_) => NbtType::I64,
            NbtElement::F32(_) => NbtType::F32,
            NbtElement::F64(_) => NbtType::F64,
            NbtElement::U8Vec(_) => NbtType::U8Vec,
            NbtElement::I32Vec(_) => NbtType::I32Vec,
            NbtElement::I64Vec(_) => NbtType::I64Vec,
            NbtElement::List(_, _) => NbtType::List,
            NbtElement::Compound(_) => NbtType::Compound,
            NbtElement::End => NbtType::End,
        }
    }

    /// The in-memory size estimate of this element, defined for strings,
    /// bytes and 16-bit integers; asking for any other kind is a caller
    /// error, ruled out by the precondition.
    pub fn get_size_in_bytes(&self) -> (r: usize)
        requires
            self matches NbtElement::String(v) ==> 36 + 2 * v@.len() <= usize::MAX,
            self matches NbtElement::String(_) || self matches NbtElement::U8(_)
                || self matches NbtElement::I16(_),
        ensures
            r == match self {
                NbtElement::String(v) => (36 + 2 * v@.len()) as int,
                NbtElement::U8(_) => 9int,
                NbtElement::I16(_) => 10int,
                _ => 0int,
            },
    {
        match self {
            NbtElement::String(value) => 36 + 2 * value.len(),
            NbtElement::U8(_) => 9,
            NbtElement::I16(_) => 10,
            // unreachable: the precondition admits only the kinds above
            _ => vstd::pervasive::unreached(),
        }
    }

    /// The bytes one scalar or string element serializes to.
    pub open spec fn spec_written(&self) -> Seq<u8> {
        match self {
            NbtElement::String(v) => v@,
            NbtElement::U8(b) => seq![*b],
            NbtElement::I16(v) => be16_bytes(as_u16(*v)),
            NbtElement::I32(v) => be32_bytes(as_u32(*v)),
            NbtElement::I64(v) => be64_bytes(as_u64(*v)),
            NbtElement::F32(bits) => be32_bytes(*bits),
            NbtElement::F64(bits) => be64_bytes(*bits),
            _ => Seq::empty(),
        }
    }

    /// Whether this element is a scalar or string: the kinds `write`,
    /// `do_accept` and `accept_scanner` are defined for.
    pub open spec fn is_scalar(&self) -> bool {
        match self {
            NbtElement::String(_) | NbtElement::U8(_) | NbtElement::I16(_) | NbtElement::I32(_)
                | NbtElement::F32(_) | NbtElement::F64(_) | NbtElement::I64(_) => true,
            _ => false,
        }
    }

    /// Serializes one scalar or string element: its payload bytes, numbers
    /// big-endian. Writing any other kind is a caller error, ruled out by
    /// the precondition.
    pub fn write(&self, output: &mut Vec<u8>)
        requires
            self.is_scalar(),
        ensures
            final(output)@ == old(output)@ + self.spec_written(),
    {
        match self {
            NbtElement::String(v) => {
                output.extend_from_slice(v.as_slice());
                proof {
                    assert(final(output)@ =~= old(output)@ + self.spec_written());
                }
            },
            NbtElement::U8(b) => {
                output.push(*b);
                proof {
                    assert(final(output)@ =~= old(output)@ + self.spec_written());
                }
            },
            NbtElement::I16(v) => write_be_u16(output, to_u16(*v)),
            NbtElement::I32(v) => write_be_u32(output, to_u32(*v)),
            NbtElement::I64(v) => write_be_u64(output, to_u64(*v)),
            NbtElement::F32(bits) => write_be_u32(output, *bits),
            NbtElement::F64(bits) => write_be_u64(output, *bits),
            // unreachable: the precondition admits only scalar kinds
            _ => vstd::pervasive::unreached(),
        }
    }

    /// Hands this element to a visitor.
    pub fn accept<V: NbtElementVisitor>(&self, visitor: &mut V) {
        visitor.visit(self)
    }

    /// Feeds this element's payload to a scanner and returns what the
    /// scanner asked for. Defined for scalars and strings; the rest is a
    /// caller error, ruled out by the precondition.
    pub fn do_accept<S: NbtScanner>(&self, visitor: &mut S) -> ScannerResult
        requires
            self.is_scalar(),
    {
        match self {
            NbtElement::String(value) => visitor.visit_string(value.as_slice()),
            NbtElement::U8(value) => visitor.visit_u8(*value),
            NbtElement::I16(value) => visitor.visit_i16(*value),
            NbtElement::I32(value) => visitor.visit_i32(*value),
            NbtElement::I64(value) => visitor.visit_i64(*value),
            NbtElement::F32(bits) => visitor.visit_f32_bits(*bits),
            NbtElement::F64(bits) => visitor.visit_f64_bits(*bits),
            // unreachable: the precondition admits only scalar kinds
            _ => vstd::pervasive::unreached(),
        }
    }

    /// Announces this element's type to a scanner and, when the scanner
    /// asks to continue, feeds it the payload.
    pub fn accept_scanner<S: NbtScanner>(&self, visitor: &mut S)
        requires
            self.is_scalar(),
    {
        let result = visitor.start(self.get_nbt_type());
        if result == ScannerResult::Continue {
            let _ = self.do_accept(visitor);
        }
    }
}

impl NbtCompound {
    /// The named entries, in insertion order.
    pub closed spec fn spec_entries(&self) -> Seq<(String, NbtElement)> {
        self.entries@
    }

    /// First position at or after `i` whose entry is named `key`.
    pub open spec fn find_key_in(
        entries: Seq<(String, NbtElement)>,
        key: Seq<char>,
        i: int,
    ) -> Option<int>
        decreases entries.len() - i,
    {
        if i < 0 || i >= entries.len() {
            None
        } else if entries[i].0@ == key {
            Some(i)
        } else {
            Self::find_key_in(entries, key, i + 1)
        }
    }

    /// The position of the entry named `key`, if any.
    pub open spec fn spec_lookup(&self, key: Seq<char>) -> Option<int> {
        Self::find_key_in(self.spec_entries(), key, 0)
    }

    /// Entry names are distinct; every constructor and mutation preserves
    /// this.
    pub open spec fn wf(&self) -> bool {
        forall|i: int, j: int|
            0 <= i < j < self.spec_entries().len() ==> (#[trigger] self.spec_entries()[i].0)@ != (
            #[trigger] self.spec_entries()[j].0)@
    }

    /// An empty compound.
    pub fn new() -> (r: Self)
        ensures
            r.spec_entries().len() == 0,
            r.wf(),
    {
        Self { entries: Vec::new() }
    }

    /// How many entries the compound holds.
    pub fn get_size(&self) -> (r: usize)
        ensures
            r == self.spec_entries().len(),
    {
        self.entries.len()
    }

    /// The entry names, in insertion order.
    pub fn get_keys(&self) -> (r: Vec<&str>)
        ensures
            r@.len() == self.spec_entries().len(),
            forall|i: int| 0 <= i < r@.len() ==> (#[trigger] r@[i])@ == self.spec_entries()[i].0@,
    {
        let n = self.entries.len();
        let mut keys: Vec<&str> = Vec::new();
        for i in 0..n
            invariant
                n == self.spec_entries().len(),
                keys@.len() == i,
                forall|j: int| 0 <= j < i ==> (#[trigger] keys@[j])@ == self.spec_entries()[j].0@,
        {
            keys.push(self.entries[i].0.as_str());
        }
        keys
    }

    /// The element named `key`, if any.
    pub fn get(&self, key: &str) -> (r: Option<&NbtElement>)
        ensures
            match r {
                Some(e) => self.spec_lookup(key@) matches Some(i) && *e == self.spec_entries()[i].1,
                None => self.spec_lookup(key@) is None,
            },
    {
        let key_string = key.to_owned();
        let n = self.entries.len();
        for i in 0..n
            invariant
                key_string@ == key@,
                n == self.spec_entries().len(),
                Self::find_key_in(self.spec_entries(), key@, 0) == Self::find_key_in(
                    self.spec_entries(),
                    key@,
                    i as int,
                ),
        {
            if self.entries[i].0 == key_string {
                return Some(&self.entries[i].1);
            }
        }
        None
    }

    /// Inserts `element` under `key`: replaces and returns the value of an
    /// existing entry with that name (the stored name stays), or appends a
    /// new entry and returns nothing.
    pub fn put(&mut self, key: String, element: NbtElement) -> (r: Option<NbtElement>)
        requires
            old(self).wf(),
        ensures
            final(self).wf(),
            match old(self).spec_lookup(key@) {
                Some(i) => final(self).spec_entries() == old(self).spec_entries().update(
                    i,
                    (old(self).spec_entries()[i].0, element),
                ) && r == Some(old(self).spec_entries()[i].1),
                None => final(self).spec_entries() == old(self).spec_entries().push((key, element))
                    && r is None,
            },
    {
        let n = self.entries.len();
        let mut idx: usize = 0;
        let mut found = false;
        while idx < n && !found
            invariant
                *self == *old(self),
                self.wf(),
                n == self.spec_entries().len(),
                0 <= idx <= n,
                found ==> idx < n && self.spec_entries()[idx as int].0@ == key@,
                !found ==> Self::find_key_in(self.spec_entries(), key@, 0) == Self::find_key_in(
                    self.spec_entries(),
                    key@,
                    idx as int,
                ),
                !found ==> forall|j: int|
                    0 <= j < idx ==> (#[trigger] self.spec_entries()[j].0)@ != key@,
                found ==> Self::find_key_in(self.spec_entries(), key@, 0) == Some(idx as int),
            decreases n - idx + (if found { 0int } else { 1int }),
        {
            if self.entries[idx].0 == key {
                found = true;
            } else {
                idx += 1;
            }
        }
        if found {
            let (name, old_value) = self.entries.remove(idx);
            self.entries.insert(idx, (name, element));
            proof {
                assert(self.spec_entries() =~= old(self).spec_entries().update(
                    idx as int,
                    (old(self).spec_entries()[idx as int].0, element),
                ));
                assert forall|i: int, j: int|
                    0 <= i < j < self.spec_entries().len() implies (
                #[trigger] self.spec_entries()[i].0)@ != (#[trigger] self.spec_entries()[j].0)@ by {
                    assert((old(self).spec_entries()[i].0)@ != (old(self).spec_entries()[j].0)@);
                }
            }
            Some(old_value)
        } else {
            self.entries.push((key, element));
            proof {
                assert forall|i: int, j: int|
                    0 <= i < j < self.spec_entries().len() implies (
                #[trigger] self.spec_entries()[i].0)@ != (#[trigger] self.spec_entries()[j].0)@ by {
                    if j < old(self).spec_entries().len() {
                        assert((old(self).spec_entries()[i].0)@ != (old(self).spec_entries()[j].0)@);
                    } else {
                        assert((old(self).spec_entries()[i].0)@ != key@);
                    }
                }
            }
            None
        }
    }

    /// The boolean stored under `key`: a byte entry read as `!= 0`, or
    /// nothing when the entry is absent or not a byte.
    pub fn get_bool(&self, key: &str) -> (r: Option<bool>)
        ensures
            match self.spec_lookup(key@) {
                Some(i) => r == (match self.spec_entries()[i].1 {
                    NbtElement::U8(b) => Some(b != 0),
                    _ => Option::<bool>::None,
                }),
                None => r is None,
            },
    {
        match self.get(key) {
            Some(NbtElement::U8(b)) => Some(*b != 0),
            _ => None,
        }
    }

    /// The 32-bit integer stored under `key`, or nothing when the entry is
    /// absent or not one.
    pub fn get_int(&self, key: &str) -> (r: Option<i32>)
        ensures
            match self.spec_lookup(key@) {
                Some(i) => r == (match self.spec_entries()[i].1 {
                    NbtElement::I32(v) => Some(v),
                    _ => Option::<i32>::None,
                }),
                None => r is None,
            },
    {
        match self.get(key) {
            Some(NbtElement::I32(v)) => Some(*v),
            _ => None,
        }
    }

    /// Stores a 32-bit integer under `key`, as `put` does.
    pub fn insert_int(&mut self, key: String, value: i32)
        requires
            old(self).wf(),
        ensures
            final(self).wf(),
            match old(self).spec_lookup(key@) {
                Some(i) => final(self).spec_entries() == old(self).spec_entries().update(
                    i,
                    (old(self).spec_entries()[i].0, NbtElement::I32(value)),
                ),
                None => final(self).spec_entries() == old(self).spec_entries().push(
                    (key, NbtElement::I32(value)),
                ),
            },
    {
        let _ = self.put(key, NbtElement::I32(value));
    }
}

/// What a saturating size tracker holds after recording `bytes` more on top
/// of `alloc`, against ceiling `max`.
pub open spec fn tracker_after(max: usize, alloc: usize, bytes: int) -> usize {
    if max == 0 {
        alloc
    } else if alloc + bytes > max {
        max
    } else {
        (alloc + bytes) as usize
    }
}

/// Recording twice is recording the sum: saturation composes.
proof fn lemma_tracker_after_twice(max: usize, alloc: usize, x: int, y: int)
    requires
        x >= 0,
        y >= 0,
        max > 0 ==> alloc <= max,
    ensures
        tracker_after(max, tracker_after(max, alloc, x), y) == tracker_after(max, alloc, x + y),
{
}

impl NbtType {
    /// Reads one value of this kind from the input, recording its allocated
    /// size in `tracker`. A string takes all remaining input as its payload;
    /// numbers are big-endian; a byte, integer or float short of input reads
    /// the missing bytes as zero; an array with a negative length prefix is
    /// an error. Defined for every kind but lists, compounds and end
    /// markers; reading those is a caller error, ruled out by the
    /// precondition.
    #[verifier::rlimit(100)]
    #[verifier::spinoff_prover]
    pub fn read(&self, input: &[u8], pos: &mut usize, tracker: &mut NbtTagSizeTracker) -> (r:
        Result<NbtElement, NbtError>)
        requires
            *old(pos) <= input@.len(),
            36 + 2 * input@.len() <= usize::MAX,
            old(tracker).inv(),
            !(self matches NbtType::List || self matches NbtType::Compound
                || self matches NbtType::End),
        ensures
            *final(pos) <= input@.len(),
            final(tracker).inv(),
            final(tracker).spec_max_bytes() == old(tracker).spec_max_bytes(),
            ({
                let s = input@;
                let len = s.len() as int;
                let p = *old(pos) as int;
                let max = old(tracker).spec_max_bytes();
                let alloc = old(tracker).spec_allocated_bytes();
                match *self {
                    NbtType::String => r matches Ok(e) && (e matches NbtElement::String(v) && v@
                        == s.subrange(p, len)) && *final(pos) == len && final(tracker).spec_allocated_bytes() == tracker_after(max, alloc, 36 + 2 * (len - p)),
                    NbtType::U8 => r == Ok::<_, NbtError>(NbtElement::U8(byte_at(s, p))) && *final(pos) == spec_advance(len, p, 1) && final(tracker).spec_allocated_bytes()
                        == tracker_after(max, alloc, 9),
                    NbtType::I16 => r == Ok::<_, NbtError>(
                        NbtElement::I16(as_i16(spec_be_u16(s, p))),
                    ) && *final(pos) == spec_advance(len, p, 2) && final(tracker).spec_allocated_bytes() == tracker_after(max, alloc, 10),
                    NbtType::I32 => r == Ok::<_, NbtError>(
                        NbtElement::I32(as_i32(spec_be_u32(s, p))),
                    ) && *final(pos) == spec_advance(len, p, 4) && final(tracker).spec_allocated_bytes() == tracker_after(max, alloc, 12),
                    NbtType::I64 => r == Ok::<_, NbtError>(
                        NbtElement::I64(as_i64(spec_be_u64(s, p))),
                    ) && *final(pos) == spec_advance(len, p, 8) && final(tracker).spec_allocated_bytes() == tracker_after(max, alloc, 16),
                    NbtType::F32 => r == Ok::<_, NbtError>(NbtElement::F32(spec_be_u32(s, p)))
                        && *final(pos) == spec_advance(len, p, 4) && final(tracker).spec_allocated_bytes() == tracker_after(max, alloc, 12),
                    NbtType::F64 => r == Ok::<_, NbtError>(NbtElement::F64(spec_be_u64(s, p)))
                        && *final(pos) == spec_advance(len, p, 8) && final(tracker).spec_allocated_bytes() == tracker_after(max, alloc, 16),
                    NbtType::U8Vec => {
                        let j = as_i32(spec_be_u32(s, p)) as int;
                        let mid = spec_advance(len, p, 4);
                        if j < 0 {
                            r == Err::<NbtElement, _>(NbtError::NegativeLength) && *final(pos)
                                == mid && final(tracker).spec_allocated_bytes() == tracker_after(
                                max,
                                alloc,
                                24,
                            )
                        } else {
                            (r matches Ok(e) && (e matches NbtElement::U8Vec(v) && v@.len() == j
                                && (forall|m: int|
                                0 <= m < j ==> (#[trigger] v@[m]) == byte_at(s, mid + m))))
                                && *final(pos) == spec_advance(len, mid, j) && final(tracker).spec_allocated_bytes() == tracker_after(max, alloc, 24 + j)
                        }
                    },
                    NbtType::I32Vec => {
                        let j = as_i32(spec_be_u32(s, p)) as int;
                        let mid = spec_advance(len, p, 4);
                        if j < 0 {
                            r == Err::<NbtElement, _>(NbtError::NegativeLength) && *final(pos)
                                == mid && final(tracker).spec_allocated_bytes() == tracker_after(
                                max,
                                alloc,
                                24,
                            )
                        } else {
                            (r matches Ok(e) && (e matches NbtElement::I32Vec(v) && v@.len() == j
                                && (forall|m: int|
                                0 <= m < j ==> (#[trigger] v@[m]) == as_i32(
                                    spec_be_u32(s, mid + 4 * m),
                                )))) && *final(pos) == spec_advance(len, mid, 4 * j) && final(tracker).spec_allocated_bytes() == tracker_after(max, alloc, 24 + 4 * j)
                        }
                    },
                    NbtType::I64Vec => {
                        let j = as_i32(spec_be_u32(s, p)) as int;
                        let mid = spec_advance(len, p, 4);
                        if j < 0 {
                            r == Err::<NbtElement, _>(NbtError::NegativeLength) && *final(pos)
                                == mid && final(tracker).spec_allocated_bytes() == tracker_after(
                                max,
                                alloc,
                                24,
                            )
                        } else {
                            (r matches Ok(e) && (e matches NbtElement::I64Vec(v) && v@.len() == j
                                && (forall|m: int|
                                0 <= m < j ==> (#[trigger] v@[m]) == as_i64(
                                    spec_be_u64(s, mid + 8 * m),
                                )))) && *final(pos) == spec_advance(len, mid, 8 * j) && final(tracker).spec_allocated_bytes() == tracker_after(max, alloc, 24 + 8 * j)
                        }
                    },
                    _ => true,
                }
            }),
    {
        match self {
            NbtType::String => {
                tracker.add(36);
                let rest = &input[*pos..input.len()];
                let mut v: Vec<u8> = Vec::new();
                v.extend_from_slice(rest);
                *pos = input.len();
                tracker.add(2 * v.len());
                proof {
                    lemma_tracker_after_twice(
                        old(tracker).spec_max_bytes(),
                        old(tracker).spec_allocated_bytes(),
                        36,
                        2 * (input@.len() - *old(pos)),
                    );
                }
                Ok(NbtElement::String(v))
            },
            NbtType::U8 => {
                tracker.add(9);
                Ok(NbtElement::U8(read_u8(input, pos)))
            },
            NbtType::I16 => {
                tracker.add(10);
                Ok(NbtElement::I16(to_i16(read_unsigned_short(input, pos))))
            },
            NbtType::I32 => {
                tracker.add(12);
                Ok(NbtElement::I32(to_i32(read_be_u32(input, pos))))
            },
            NbtType::I64 => {
                tracker.add(16);
                Ok(NbtElement::I64(to_i64(read_be_u64(input, pos))))
            },
            NbtType::F32 => {
                tracker.add(12);
                Ok(NbtElement::F32(read_be_u32(input, pos)))
            },
            NbtType::F64 => {
                tracker.add(16);
                Ok(NbtElement::F64(read_be_u64(input, pos)))
            },
            NbtType::U8Vec => {
                tracker.add(24);
                let j32 = to_i32(read_be_u32(input, pos));
                if j32 < 0 {
                    return Err(NbtError::NegativeLength);
                }
                let j = j32 as usize;
                tracker.add(j);
                proof {
                    lemma_tracker_after_twice(
                        old(tracker).spec_max_bytes(),
                        old(tracker).spec_allocated_bytes(),
                        24,
                        j as int,
                    );
                }
                let ghost mid = *pos;
                let mut v: Vec<u8> = Vec::with_capacity(j);
                let mut k: usize = 0;
                while k < j
                    invariant
                        *pos <= input@.len(),
                        k <= j,
                        *pos == spec_advance(input@.len() as int, mid as int, k as int),
                        v@.len() == k,
                        forall|m: int|
                            0 <= m < k ==> (#[trigger] v@[m]) == byte_at(input@, mid + m),
                    decreases j - k,
                {
                    v.push(read_u8(input, pos));
                    k += 1;
                }
                Ok(NbtElement::U8Vec(v))
            },
            NbtType::I32Vec => {
                tracker.add(24);
                let j32 = to_i32(read_be_u32(input, pos));
                if j32 < 0 {
                    return Err(NbtError::NegativeLength);
                }
                let j = j32 as usize;
                tracker.add(j);
                tracker.add(j);
                tracker.add(j);
                tracker.add(j);
                proof {
                    let max = old(tracker).spec_max_bytes();
                    let alloc = old(tracker).spec_allocated_bytes();
                    lemma_tracker_after_twice(max, alloc, 24, j as int);
                    lemma_tracker_after_twice(max, alloc, 24 + j, j as int);
                    lemma_tracker_after_twice(max, alloc, 24 + 2 * j, j as int);
                    lemma_tracker_after_twice(max, alloc, 24 + 3 * j, j as int);
                }
                let ghost mid = *pos;
                let mut v: Vec<i32> = Vec::with_capacity(j);
                let mut k: usize = 0;
                while k < j
                    invariant
                        *pos <= input@.len(),
                        k <= j,
                        j <= 0x7FFF_FFFF,
                        *pos == spec_advance(input@.len() as int, mid as int, 4 * k),
                        v@.len() == k,
                        forall|m: int|
                            0 <= m < k ==> (#[trigger] v@[m]) == as_i32(
                                spec_be_u32(input@, mid + 4 * m),
                            ),
                    decreases j - k,
                {
                    let ghost pos_before = *pos;
                    let x = to_i32(read_be_u32(input, pos));
                    proof {
                        lemma_be_u32_at_end(input@, pos_before as int, mid + 4 * k);
                    }
                    v.push(x);
                    k += 1;
                }
                Ok(NbtElement::I32Vec(v))
            },
            NbtType::I64Vec => {
                tracker.add(24);
                let j32 = to_i32(read_be_u32(input, pos));
                if j32 < 0 {
                    return Err(NbtError::NegativeLength);
                }
                let j = j32 as usize;
                tracker.add(j);
                tracker.add(j);
                tracker.add(j);
                tracker.add(j);
                tracker.add(j);
                tracker.add(j);
                tracker.add(j);
                tracker.add(j);
                proof {
                    let max = old(tracker).spec_max_bytes();
                    let alloc = old(tracker).spec_allocated_bytes();
                    lemma_tracker_after_twice(max, alloc, 24, j as int);
                    lemma_tracker_after_twice(max, alloc, 24 + j, j as int);
                    lemma_tracker_after_twice(max, alloc, 24 + 2 * j, j as int);
                    lemma_tracker_after_twice(max, alloc, 24 + 3 * j, j as int);
                    lemma_tracker_after_twice(max, alloc, 24 + 4 * j, j as int);
                    lemma_tracker_after_twice(max, alloc, 24 + 5 * j, j as int);
                    lemma_tracker_after_twice(max, alloc, 24 + 6 * j, j as int);
                    lemma_tracker_after_twice(max, alloc, 24 + 7 * j, j as int);
                }
                let ghost mid = *pos;
                let mut v: Vec<i64> = Vec::with_capacity(j);
                let mut k: usize = 0;
                while k < j
                    invariant
                        *pos <= input@.len(),
                        k <= j,
                        j <= 0x7FFF_FFFF,
                        *pos == spec_advance(input@.len() as int, mid as int, 8 * k),
                        v@.len() == k,
                        forall|m: int|
                            0 <= m < k ==> (#[trigger] v@[m]) == as_i64(
                                spec_be_u64(input@, mid + 8 * m),
                            ),
                    decreases j - k,
                {
                    let ghost pos_before = *pos;
                    let x = to_i64(read_be_u64(input, pos));
                    proof {
                        lemma_be_u64_at_end(input@, pos_before as int, mid + 8 * k);
                    }
                    v.push(x);
                    k += 1;
                }
                Ok(NbtElement::I64Vec(v))
            },
            // unreachable: the precondition admits only the kinds above
            _ => vstd::pervasive::unreached(),
        }
    }
}

/// Reading a big-endian value at a clipped position past the end gives the
/// same zeros as reading at the unclipped one.
proof fn lemma_be_u32_at_end(s: Seq<u8>, clipped: int, unclipped: int)
    requires
        clipped == unclipped || (clipped >= s.len() && unclipped >= s.len()),
    ensures
        spec_be_u32(s, clipped) == spec_be_u32(s, unclipped),
{
}

/// As `lemma_be_u32_at_end`, for 64-bit reads.
proof fn lemma_be_u64_at_end(s: Seq<u8>, clipped: int, unclipped: int)
    requires
        clipped == unclipped || (clipped >= s.len() && unclipped >= s.len()),
    ensures
        spec_be_u64(s, clipped) == spec_be_u64(s, unclipped),
{
    lemma_be_u32_at_end(s, clipped, unclipped);
    lemma_be_u32_at_end(s, clipped + 4, unclipped + 4);
}

/// Tracks how many bytes a tag read has allocated, saturating at a
/// configured ceiling; a ceiling of zero disables tracking.
#[derive(Default)]
pub struct NbtTagSizeTracker {
    max_bytes: usize,
    allocated_bytes: usize,
}

impl NbtTagSizeTracker {
    /// The configured ceiling.
    pub closed spec fn spec_max_bytes(&self) -> usize {
        self.max_bytes
    }

    /// The bytes recorded so far.
    pub closed spec fn spec_allocated_bytes(&self) -> usize {
        self.allocated_bytes
    }

    /// Recorded bytes never pass the ceiling when tracking is on.
    pub open spec fn inv(&self) -> bool {
        self.spec_max_bytes() > 0 ==> self.spec_allocated_bytes() <= self.spec_max_bytes()
    }

    /// What one `add` leaves recorded: the sum, saturated at the ceiling,
    /// and untouched when tracking is off.
    pub open spec fn spec_added(&self, bytes: usize) -> usize {
        if self.spec_max_bytes() == 0 {
            self.spec_allocated_bytes()
        } else if self.spec_allocated_bytes() + bytes > self.spec_max_bytes() {
            self.spec_max_bytes()
        } else {
            (self.spec_allocated_bytes() + bytes) as usize
        }
    }

    /// A tracker with the given ceiling and nothing recorded.
    pub fn new(max_bytes: usize) -> (r: Self)
        ensures
            r.spec_max_bytes() == max_bytes,
            r.spec_allocated_bytes() == 0,
            r.inv(),
    {
        Self { max_bytes, allocated_bytes: 0 }
    }

    /// Records `bytes` more, saturating at the ceiling.
    pub fn add(&mut self, bytes: usize)
        requires
            old(self).inv(),
        ensures
            final(self).inv(),
            final(self).spec_max_bytes() == old(self).spec_max_bytes(),
            final(self).spec_allocated_bytes() == old(self).spec_added(bytes),
    {
        if self.max_bytes == 0 {
            return;
        }
        if bytes > self.max_bytes - self.allocated_bytes {
            self.allocated_bytes = self.max_bytes;
        } else {
            self.allocated_bytes = self.allocated_bytes + bytes;
        }
    }

    /// The bytes recorded so far.
    pub fn get_allocated_bytes(&self) -> (r: usize)
        ensures
            r == self.spec_allocated_bytes(),
    {
        self.allocated_bytes
    }
}


/// Whether two byte vectors hold the same bytes.
fn vec_u8_eq(x: &Vec<u8>, y: &Vec<u8>) -> (r: bool)
    ensures
        r == (x@ == y@),
{
    let n = x.len();
    if n != y.len() {
        proof {
            assert(x@ !~= y@);
        }
        return false;
    }
    for i in 0..n
        invariant
            n == x@.len() == y@.len(),
            forall|j: int| 0 <= j < i ==> x@[j] == y@[j],
    {
        if x[i] != y[i] {
            proof {
                assert(x@ !~= y@);
            }
            return false;
        }
    }
    proof {
        assert(x@ =~= y@);
    }
    true
}

/// Whether two 32-bit integer vectors hold the same values.
fn vec_i32_eq(x: &Vec<i32>, y: &Vec<i32>) -> (r: bool)
    ensures
        r == (x@ == y@),
{
    let n = x.len();
    if n != y.len() {
        proof {
            assert(x@ !~= y@);
        }
        return false;
    }
    for i in 0..n
        invariant
            n == x@.len() == y@.len(),
            forall|j: int| 0 <= j < i ==> x@[j] == y@[j],
    {
        if x[i] != y[i] {
            proof {
                assert(x@ !~= y@);
            }
            return false;
        }
    }
    proof {
        assert(x@ =~= y@);
    }
    true
}

/// Whether two 64-bit integer vectors hold the same values.
fn vec_i64_eq(x: &Vec<i64>, y: &Vec<i64>) -> (r: bool)
    ensures
        r == (x@ == y@),
{
    let n = x.len();
    if n != y.len() {
        proof {
            assert(x@ !~= y@);
        }
        return false;
    }
    for i in 0..n
        invariant
            n == x@.len() == y@.len(),
            forall|j: int| 0 <= j < i ==> x@[j] == y@[j],
    {
        if x[i] != y[i] {
            proof {
                assert(x@ !~= y@);
            }
            return false;
        }
    }
    proof {
        assert(x@ =~= y@);
    }
    true
}

/// Deep element equality, executed: decides `elem_eq`.
fn elem_eq_exec(a: &NbtElement, b: &NbtElement) -> (r: bool)
    ensures
        r == elem_eq(*a, *b),
    decreases *a,
{
    match (a, b) {
        (NbtElement::String(x), NbtElement::String(y)) => vec_u8_eq(x, y),
        (NbtElement::U8(x), NbtElement::U8(y)) => x == y,
        (NbtElement::I16(x), NbtElement::I16(y)) => x == y,
        (NbtElement::I32(x), NbtElement::I32(y)) => x == y,
        (NbtElement::I64(x), NbtElement::I64(y)) => x == y,
        (NbtElement::F32(x), NbtElement::F32(y)) => x == y,
        (NbtElement::F64(x), NbtElement::F64(y)) => x == y,
        (NbtElement::U8Vec(x), NbtElement::U8Vec(y)) => vec_u8_eq(x, y),
        (NbtElement::I32Vec(x), NbtElement::I32Vec(y)) => vec_i32_eq(x, y),
        (NbtElement::I64Vec(x), NbtElement::I64Vec(y)) => vec_i64_eq(x, y),
        (NbtElement::List(x, xt), NbtElement::List(y, yt)) => {
            if xt != yt {
                return false;
            }
            let n = x.len();
            if n != y.len() {
                return false;
            }
            for i in 0..n
                invariant
                    n == x@.len() == y@.len(),
                    a matches NbtElement::List(xx, xxt) && xx@ == x@ && xxt == xt,
                    b matches NbtElement::List(yy, yyt) && yy@ == y@ && yyt == yt,
                    xt == yt,
                    forall|j: int| 0 <= j < i ==> elem_eq(#[trigger] x@[j], y@[j]),
            {
                if !elem_eq_exec(&x[i], &y[i]) {
                    proof {
                        assert(!elem_eq(*a, *b));
                    }
                    return false;
                }
            }
            proof {
                assert(elem_eq(*a, *b));
            }
            true
        },
        (NbtElement::Compound(x), NbtElement::Compound(y)) => compound_eq_exec(x, y),
        (NbtElement::End, NbtElement::End) => true,
        _ => false,
    }
}

/// Deep compound equality, executed: decides `compound_eq`.
fn compound_eq_exec(a: &NbtCompound, b: &NbtCompound) -> (r: bool)
    ensures
        r == compound_eq(*a, *b),
    decreases *a,
{
    let n = a.entries.len();
    if n != b.entries.len() {
        return false;
    }
    for i in 0..n
        invariant
            n == a.spec_entries().len() == b.spec_entries().len(),
            forall|j: int|
                0 <= j < i ==> (#[trigger] a.spec_entries()[j].0)@ == b.spec_entries()[j].0@
                    && elem_eq(a.spec_entries()[j].1, b.spec_entries()[j].1),
    {
        if !(a.entries[i].0 == b.entries[i].0) {
            return false;
        }
        proof {
            assert(a.spec_entries()[i as int].1 == a.entries@[i as int].1);
        }
        if !elem_eq_exec(&a.entries[i].1, &b.entries[i].1) {
            proof {
                assert(!compound_eq(*a, *b));
            }
            return false;
        }
    }
    proof {
        assert(a.spec_entries().len() == b.spec_entries().len());
        assert(forall|j: int|
            0 <= j < n ==> (#[trigger] a.spec_entries()[j].0)@ == b.spec_entries()[j].0@
                && elem_eq(a.spec_entries()[j].1, b.spec_entries()[j].1));
        reveal_with_fuel(compound_eq, 2);
        assert(compound_eq(*a, *b));
    }
    true
}

impl PartialEq for NbtElement {
    fn eq(&self, other: &Self) -> (r: bool) {
        elem_eq_exec(self, other)
    }
}

impl vstd::std_specs::cmp::PartialEqSpecImpl for NbtElement {
    open spec fn obeys_eq_spec() -> bool {
        true
    }

    open spec fn eq_spec(&self, other: &Self) -> bool {
        elem_eq(*self, *other)
    }
}

impl PartialEq for NbtCompound {
    fn eq(&self, other: &Self) -> (r: bool) {
        compound_eq_exec(self, other)
    }
}

impl vstd::std_specs::cmp::PartialEqSpecImpl for NbtCompound {
    open spec fn obeys_eq_spec() -> bool {
        true
    }

    open spec fn eq_spec(&self, other: &Self) -> bool {
        compound_eq(*self, *other)
    }
}

impl Clone for NbtElement {
    fn clone(&self) -> (r: Self)
        ensures
            elem_eq(r, *self),
        decreases *self,
    {
        match self {
            NbtElement::String(x) => NbtElement::String(x.clone()),
            NbtElement::U8(x) => NbtElement::U8(*x),
            NbtElement::I16(x) => NbtElement::I16(*x),
            NbtElement::I32(x) => NbtElement::I32(*x),
            NbtElement::I64(x) => NbtElement::I64(*x),
            NbtElement::F32(x) => NbtElement::F32(*x),
            NbtElement::F64(x) => NbtElement::F64(*x),
            NbtElement::U8Vec(x) => NbtElement::U8Vec(x.clone()),
            NbtElement::I32Vec(x) => NbtElement::I32Vec(x.clone()),
            NbtElement::I64Vec(x) => NbtElement::I64Vec(x.clone()),
            NbtElement::List(x, t) => {
                let n = x.len();
                let mut out: Vec<NbtElement> = Vec::new();
                for i in 0..n
                    invariant
                        n == x@.len(),
                        self matches NbtElement::List(xx, _) && xx@ == x@,
                        out@.len() == i,
                        forall|j: int| 0 <= j < i ==> elem_eq(#[trigger] out@[j], x@[j]),
                {
                    out.push(x[i].clone());
                }
                NbtElement::List(out, *t)
            },
            NbtElement::Compound(x) => NbtElement::Compound(x.clone()),
            NbtElement::End => NbtElement::End,
        }
    }
}

impl Clone for NbtCompound {
    fn clone(&self) -> (r: Self)
        ensures
            compound_eq(r, *self),
        decreases *self,
    {
        let n = self.entries.len();
        let mut out: Vec<(String, NbtElement)> = Vec::new();
        let mut i: usize = 0;
        while i < n
            invariant
                n == self.spec_entries().len(),
                out@.len() == i,
                i <= n,
                forall|j: int|
                    0 <= j < i ==> (#[trigger] out@[j].0)@ == self.spec_entries()[j].0@ && elem_eq(
                        out@[j].1,
                        self.spec_entries()[j].1,
                    ),
            decreases n - i,
        {
            proof {
                assert(self.spec_entries()[i as int] == self.entries@[i as int]);
            }
            let ghost prev = out@;
            let name = self.entries[i].0.clone();
            let element = self.entries[i].1.clone();
            proof {
                assert(name@ == self.spec_entries()[i as int].0@);
                assert(elem_eq(element, self.spec_entries()[i as int].1));
            }
            out.push((name, element));
            proof {
                assert forall|j: int|
                    0 <= j < i + 1 implies (#[trigger] out@[j].0)@ == self.spec_entries()[j].0@
                        && elem_eq(out@[j].1, self.spec_entries()[j].1) by {
                    if j < i {
                        assert(out@[j] == prev[j]);
                    } else {
                        assert(out@[j] == (name, element));
                    }
                }
            }
            i += 1;
        }
        let r = NbtCompound { entries: out };
        proof {
            assert forall|j: int|
                0 <= j < n implies (#[trigger] r.spec_entries()[j].0)@ == self.spec_entries()[j].0@
                    && elem_eq(r.spec_entries()[j].1, self.spec_entries()[j].1) by {
                assert(r.spec_entries()[j] == out@[j]);
                assert((out@[j].0)@ == self.spec_entries()[j].0@);
            }
            reveal_with_fuel(compound_eq, 2);
            assert(compound_eq(r, *self));
        }
        r
    }
}


/// Deeply equal compounds agree on well-formedness: their entry names match
/// pairwise.
pub proof fn lemma_compound_eq_wf(a: NbtCompound, b: NbtCompound)
    requires
        compound_eq(a, b),
    ensures
        a.wf() == b.wf(),
{
    if a.wf() {
        assert forall|i: int, j: int|
            0 <= i < j < b.spec_entries().len() implies (#[trigger] b.spec_entries()[i].0)@ != (
        #[trigger] b.spec_entries()[j].0)@ by {
            assert((a.spec_entries()[i].0)@ != (a.spec_entries()[j].0)@);
        }
    }
    if b.wf() {
        assert forall|i: int, j: int|
            0 <= i < j < a.spec_entries().len() implies (#[trigger] a.spec_entries()[i].0)@ != (
        #[trigger] a.spec_entries()[j].0)@ by {
            assert((b.spec_entries()[i].0)@ != (b.spec_entries()[j].0)@);
        }
    }
}

} // verus!
