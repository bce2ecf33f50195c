//! Value types, limits and the other type descriptors, with the primitive
//! encoders (integers, floats, byte vectors, names) that everything else is
//! written with.
use crate::leb::{lemma_i32_round_trip, lemma_i64_round_trip, sleb, uleb, write_signed, write_unsigned};
use vstd::prelude::*;
use vstd::utf8::encode_utf8;

verus! {

/// The four numeric value types.
#[derive(Debug, Copy, Clone, PartialEq, Eq, Structural)]
pub enum ValType {
    I32,
    I64,
    F32,
    F64,
}

impl ValType {
    /// The tag byte of the value type.
    pub open spec fn tag(self) -> u8 {
        match self {
            ValType::I32 => 0x7F,
            ValType::I64 => 0x7E,
            ValType::F32 => 0x7D,
            ValType::F64 => 0x7C,
        }
    }
}

/// A byte vector: the number of bytes in unsigned LEB128, then the bytes.
pub open spec fn byte_vec(b: Seq<u8>) -> Seq<u8> {
    uleb(b.len()) + b
}

/// A name: its UTF-8 bytes as a byte vector, so the prefix counts bytes.
pub open spec fn name_encoding(s: Seq<char>) -> Seq<u8> {
    byte_vec(encode_utf8(s))
}

/// The four bytes of `x`, least significant first.
pub open spec fn le_bytes32(x: u32) -> Seq<u8> {
    seq![
        (x & 0xff) as u8,
        ((x >> 8) & 0xff) as u8,
        ((x >> 16) & 0xff) as u8,
        ((x >> 24) & 0xff) as u8,
    ]
}

/// The eight bytes of `x`, least significant first.
pub open spec fn le_bytes64(x: u64) -> Seq<u8> {
    seq![
        (x & 0xff) as u8,
        ((x >> 8) & 0xff) as u8,
        ((x >> 16) & 0xff) as u8,
        ((x >> 24) & 0xff) as u8,
        ((x >> 32) & 0xff) as u8,
        ((x >> 40) & 0xff) as u8,
        ((x >> 48) & 0xff) as u8,
        ((x >> 56) & 0xff) as u8,
    ]
}

/// A result type: the number of value types, then their tags.
pub open spec fn result_encoding(s: Seq<ValType>) -> Seq<u8> {
    uleb(s.len()) + s.map_values(|t: ValType| t.tag())
}

/// The byte strings `f(x)` of the elements `x` of `s`, one after the other.
pub open spec fn concat<T>(s: Seq<T>, f: spec_fn(T) -> Seq<u8>) -> Seq<u8> {
    s.map_values(f).flatten()
}

/// Taking one more element of `s` adds its bytes at the end.
pub proof fn lemma_concat_step<T>(s: Seq<T>, f: spec_fn(T) -> Seq<u8>, i: int)
    requires
        0 <= i < s.len(),
    ensures
        concat(s.subrange(0, i + 1), f) == concat(s.subrange(0, i), f) + f(s[i]),
{
    assert(s.subrange(0, i + 1).map_values(f) =~= s.subrange(0, i).map_values(f).push(f(s[i])));
    s.subrange(0, i).map_values(f).lemma_flatten_push(f(s[i]));
}

/// Appends `bytes` to `out`.
pub fn append_bytes(out: &mut Vec<u8>, bytes: &[u8])
    ensures
        final(out)@ == old(out)@ + bytes@,
{
    let ghost start = out@;
    let mut i: usize = 0;
    while i < bytes.len()
        invariant
            i <= bytes@.len(),
            out@ == start + bytes@.subrange(0, i as int),
        decreases bytes@.len() - i,
    {
        out.push(bytes[i]);
        i = i + 1;
        assert(out@ =~= start + bytes@.subrange(0, i as int));
    }
    assert(bytes@.subrange(0, bytes@.len() as int) =~= bytes@);
}

/// Appends the unsigned LEB128 encoding of `val`, at most five bytes, and
/// returns how many bytes were written.
pub fn encode_u32(out: &mut Vec<u8>, val: u32) -> (n: usize)
    ensures
        final(out)@ == old(out)@ + uleb(val as nat),
        n == uleb(val as nat).len(),
        n <= 5,
{
    let start = out.len();
    write_unsigned(out, val as u64);
    proof {
        crate::leb::lemma_u32_round_trip(val);
    }
    out.len() - start
}

/// Appends the unsigned LEB128 encoding of a length or count.
pub fn encode_len(out: &mut Vec<u8>, len: usize)
    ensures
        final(out)@ == old(out)@ + uleb(len as nat),
{
    write_unsigned(out, len as u64);
}

/// Appends the signed LEB128 encoding of `val`, at most five bytes, and
/// returns how many bytes were written.
pub fn encode_i32(out: &mut Vec<u8>, val: i32) -> (n: usize)
    ensures
        final(out)@ == old(out)@ + sleb(val as int),
        n == sleb(val as int).len(),
        n <= 5,
{
    let start = out.len();
    write_signed(out, val as i64);
    proof {
        lemma_i32_round_trip(val);
    }
    out.len() - start
}

/// Appends the signed LEB128 encoding of `val`, at most ten bytes, and
/// returns how many bytes were written.
pub fn encode_i64(out: &mut Vec<u8>, val: i64) -> (n: usize)
    ensures
        final(out)@ == old(out)@ + sleb(val as int),
        n == sleb(val as int).len(),
        n <= 10,
{
    let start = out.len();
    write_signed(out, val);
    proof {
        lemma_i64_round_trip(val);
    }
    out.len() - start
}

/// Appends the IEEE 754 single-precision value whose bit pattern is `bits`,
/// as four little-endian bytes; every bit, NaN payloads included, is kept.
pub fn encode_f32(out: &mut Vec<u8>, bits: u32) -> (n: usize)
    ensures
        final(out)@ == old(out)@ + le_bytes32(bits),
        n == 4,
{
    out.push((bits & 0xff) as u8);
    out.push(((bits >> 8) & 0xff) as u8);
    out.push(((bits >> 16) & 0xff) as u8);
    out.push(((bits >> 24) & 0xff) as u8);
    assert(out@ =~= old(out)@ + le_bytes32(bits));
    4
}

/// Appends the IEEE 754 double-precision value whose bit pattern is `bits`,
/// as eight little-endian bytes; every bit, NaN payloads included, is kept.
pub fn encode_f64(out: &mut Vec<u8>, bits: u64) -> (n: usize)
    ensures
        final(out)@ == old(out)@ + le_bytes64(bits),
        n == 8,
{
    out.push((bits & 0xff) as u8);
    out.push(((bits >> 8) & 0xff) as u8);
    out.push(((bits >> 16) & 0xff) as u8);
    out.push(((bits >> 24) & 0xff) as u8);
    out.push(((bits >> 32) & 0xff) as u8);
    out.push(((bits >> 40) & 0xff) as u8);
    out.push(((bits >> 48) & 0xff) as u8);
    out.push(((bits >> 56) & 0xff) as u8);
    assert(out@ =~= old(out)@ + le_bytes64(bits));
    8
}


/// Appends a vector whose `size` elements are already encoded in `bytes`:
/// `size` in unsigned LEB128, then `bytes`. Returns how many bytes were
/// written.
pub fn encode_vec(out: &mut Vec<u8>, bytes: &[u8], size: usize) -> (n: usize)
    ensures
        final(out)@ == old(out)@ + uleb(size as nat) + bytes@,
        n == uleb(size as nat).len() + bytes@.len(),
{
    let start = out.len();
    encode_len(out, size);
    append_bytes(out, bytes);
    assert(out@ =~= old(out)@ + uleb(size as nat) + bytes@);
    out.len() - start
}

/// Appends `val` as a name: its UTF-8 bytes, prefixed by their number.
/// Returns how many bytes were written.
pub fn encode_name(out: &mut Vec<u8>, val: &str) -> (n: usize)
    ensures
        final(out)@ == old(out)@ + name_encoding(val@),
        n == name_encoding(val@).len(),
{
    let bytes = val.as_bytes();
    encode_vec(out, bytes, bytes.len())
}

/// Appends the tag byte of a value type.
pub fn encode_val_type(out: &mut Vec<u8>, ty: ValType) -> (n: usize)
    ensures
        final(out)@ == old(out)@.push(ty.tag()),
        n == 1,
{
    match ty {
        ValType::I32 => out.push(0x7F),
        ValType::I64 => out.push(0x7E),
        ValType::F32 => out.push(0x7D),
        ValType::F64 => out.push(0x7C),
    }
    1
}

/// A vector of indices: their number, then each in unsigned LEB128.
pub open spec fn index_vec(s: Seq<u32>) -> Seq<u8> {
    uleb(s.len()) + concat(s, |i: u32| uleb(i as nat))
}

/// Appends a vector of indices.
pub fn encode_index_vec(out: &mut Vec<u8>, indices: &[u32])
    ensures
        final(out)@ == old(out)@ + index_vec(indices@),
{
    let mut buf: Vec<u8> = Vec::new();
    let mut i: usize = 0;
    while i < indices.len()
        invariant
            i <= indices@.len(),
            buf@ == concat(indices@.subrange(0, i as int), |i: u32| uleb(i as nat)),
        decreases indices@.len() - i,
    {
        encode_u32(&mut buf, indices[i]);
        proof {
            lemma_concat_step(indices@, |i: u32| uleb(i as nat), i as int);
        }
        i = i + 1;
    }
    assert(indices@.subrange(0, indices@.len() as int) =~= indices@);
    encode_vec(out, buf.as_slice(), indices.len());
}

/// Appends a result type: the number of value types, then their tags.
pub fn encode_result_type(out: &mut Vec<u8>, types: &[ValType])
    ensures
        final(out)@ == old(out)@ + result_encoding(types@),
{
    let mut buf: Vec<u8> = Vec::new();
    let mut i: usize = 0;
    while i < types.len()
        invariant
            i <= types@.len(),
            buf@ == types@.subrange(0, i as int).map_values(|t: ValType| t.tag()),
        decreases types@.len() - i,
    {
        encode_val_type(&mut buf, types[i]);
        i = i + 1;
        assert(buf@ =~= types@.subrange(0, i as int).map_values(|t: ValType| t.tag()));
    }
    assert(types@.subrange(0, types@.len() as int) =~= types@);
    encode_vec(out, buf.as_slice(), types.len());
}

/// The bounds of a memory or a table, in pages or elements. A caller keeps
/// `max >= min` where a maximum is given; the encoder writes what it is
/// given.
#[derive(Debug, Copy, Clone, PartialEq, Eq, Structural)]
pub struct Limits {
    /// minimum
    pub min: u32,
    /// maximum (optional)
    pub max: Option<u32>,
}

impl Limits {
    /// `0x00 min` without a maximum, `0x01 min max` with one.
    pub open spec fn encoding(self) -> Seq<u8> {
        match self.max {
            Some(max) => seq![0x01u8] + uleb(self.min as nat) + uleb(max as nat),
            None => seq![0x00u8] + uleb(self.min as nat),
        }
    }

    /// Appends the encoding of the limits.
    pub fn encode(&self, out: &mut Vec<u8>)
        ensures
            final(out)@ == old(out)@ + self.encoding(),
    {
        match self.max {
            Some(max) => {
                out.push(0x01);
                encode_u32(out, self.min);
                encode_u32(out, max);
            },
            None => {
                out.push(0x00);
                encode_u32(out, self.min);
            },
        }
        assert(out@ =~= old(out)@ + self.encoding());
    }
}

/// A function type: the types of the parameters and of the results.
/// More than one result needs the multi-value extension; the encoder writes
/// them all the same.
#[derive(Debug, Clone, PartialEq)]
pub struct FunctionType {
    pub parameter_types: Vec<ValType>,
    pub return_types: Vec<ValType>,
}

impl FunctionType {
    /// `0x60`, the parameter result type, the return result type.
    pub open spec fn encoding(self) -> Seq<u8> {
        seq![0x60u8] + result_encoding(self.parameter_types@) + result_encoding(
            self.return_types@,
        )
    }

    /// Appends the encoding of the function type.
    pub fn encode(&self, out: &mut Vec<u8>)
        ensures
            final(out)@ == old(out)@ + self.encoding(),
    {
        out.push(0x60);
        encode_result_type(out, self.parameter_types.as_slice());
        encode_result_type(out, self.return_types.as_slice());
        assert(out@ =~= old(out)@ + self.encoding());
    }
}

/// Describes a memory: its limits, in pages.
#[derive(Debug, Copy, Clone, PartialEq, Eq, Structural)]
pub struct MemoryType {
    /// the limits of the memory object
    pub lim: Limits,
}

impl MemoryType {
    /// The limits alone.
    pub open spec fn encoding(self) -> Seq<u8> {
        self.lim.encoding()
    }

    /// Appends the encoding of the memory type.
    pub fn encode(&self, out: &mut Vec<u8>)
        ensures
            final(out)@ == old(out)@ + self.encoding(),
    {
        self.lim.encode(out)
    }
}

/// Describes a table of function references: its limits.
#[derive(Debug, Copy, Clone, PartialEq, Eq, Structural)]
pub struct TableType {
    /// the limits of the table
    pub lim: Limits,
}

impl TableType {
    /// The funcref tag `0x70`, then the limits.
    pub open spec fn encoding(self) -> Seq<u8> {
        seq![0x70u8] + self.lim.encoding()
    }

    /// Appends the encoding of the table type.
    pub fn encode(&self, out: &mut Vec<u8>)
        ensures
            final(out)@ == old(out)@ + self.encoding(),
    {
        out.push(0x70);
        self.lim.encode(out);
        assert(out@ =~= old(out)@ + self.encoding());
    }
}

/// The type of a global and whether it may change. Importing or exporting a
/// mutable global needs the mutable-globals extension.
#[derive(Debug, Copy, Clone, PartialEq, Eq, Structural)]
pub struct GlobalType {
    pub ty: ValType,
    pub mutable: bool,
}

impl GlobalType {
    /// The value type's tag, then `0x01` if mutable and `0x00` if not.
    pub open spec fn encoding(self) -> Seq<u8> {
        seq![self.ty.tag(), if self.mutable { 0x01u8 } else { 0x00u8 }]
    }

    /// Appends the encoding of the global type.
    pub fn encode(&self, out: &mut Vec<u8>)
        ensures
            final(out)@ == old(out)@ + self.encoding(),
    {
        encode_val_type(out, self.ty);
        if self.mutable {
            out.push(0x01);
        } else {
            out.push(0x00);
        }
        assert(out@ =~= old(out)@ + self.encoding());
    }
}

} // verus!
