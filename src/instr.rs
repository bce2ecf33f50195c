//! Instructions and expressions, and their binary encoding: an opcode byte
//! followed by the instruction's immediates, with block bodies encoded
//! recursively and closed by the `end` byte `0x0B`.
use crate::leb::{sleb, uleb};
use crate::sections::{FuncIdx, GlobalIdx, LabelIdx, LocalIdx, TypeIdx};
use crate::types::{
    encode_f32, encode_f64, encode_i32, encode_i64, encode_index_vec, encode_u32, encode_val_type,
    index_vec, le_bytes32, le_bytes64, ValType,
};
use vstd::prelude::*;

verus! {

/// The type of a block: no result, one value type, or a type index for a
/// multi-value block.
#[derive(Debug, Copy, Clone)]
pub enum BlockType {
    Empty,
    Type(ValType),
    TypeIdx(u32),
}

impl BlockType {
    /// `0x40` for no result, the value type's tag, or the index in signed
    /// LEB128.
    pub open spec fn encoding(self) -> Seq<u8> {
        match self {
            BlockType::Empty => seq![0x40u8],
            BlockType::Type(ty) => seq![ty.tag()],
            BlockType::TypeIdx(idx) => sleb(idx as int),
        }
    }

    /// Appends the encoding of the block type and returns its length.
    pub fn encode(&self, out: &mut Vec<u8>) -> (n: usize)
        ensures
            final(out)@ == old(out)@ + self.encoding(),
            n == self.encoding().len(),
    {
        match self {
            BlockType::Empty => {
                out.push(0x40);
                1
            },
            BlockType::Type(ty) => encode_val_type(out, *ty),
            BlockType::TypeIdx(idx) => encode_i64(out, *idx as i64),
        }
    }
}

/// The immediate of a load or a store: alignment exponent and offset.
#[derive(Debug, Copy, Clone)]
pub struct MemoryArgument {
    pub alignment: u32,
    pub offset: u32,
}

impl MemoryArgument {
    /// Alignment, then offset, each in unsigned LEB128.
    pub open spec fn encoding(self) -> Seq<u8> {
        uleb(self.alignment as nat) + uleb(self.offset as nat)
    }

    /// Appends the encoding of the memory argument and returns its length.
    pub fn encode(&self, out: &mut Vec<u8>) -> (n: usize)
        ensures
            final(out)@ == old(out)@ + self.encoding(),
            n == self.encoding().len(),
    {
        let length = encode_u32(out, self.alignment);
        let more = encode_u32(out, self.offset);
        assert(out@ =~= old(out)@ + self.encoding());
        length + more
    }
}

/// The value type that a numeric instruction works on.
#[derive(Debug, Copy, Clone)]
pub enum MemoryType {
    /// i32
    Int,
    /// i64
    Long,
    /// f32
    Float,
    /// f64
    Double,
}

/// The width in memory of a narrow load or store.
#[derive(Debug, Copy, Clone)]
pub enum StorageType {
    /// 8 bits
    Byte,
    /// 16 bits
    Short,
    /// 32 bits
    Int,
}

/// The operand of a constant instruction. A float is given by its IEEE 754
/// bit pattern (what `f32::to_bits` and `f64::to_bits` return), which is
/// written unchanged.
#[derive(Debug, Copy, Clone)]
pub enum Literal {
    Int(i32),
    Long(i64),
    Float(u32),
    Double(u64),
}

/// The integer value type that an integer instruction works on.
#[derive(Debug, Copy, Clone)]
pub enum IntegerType {
    Int,
    Long,
}

/// The float value type that a float instruction works on.
#[derive(Debug, Copy, Clone)]
pub enum FloatType {
    Float,
    Double,
}

/// An instruction. Variants that exist for several value types take the
/// type as a field; block-structured ones hold their bodies.
#[derive(Debug)]
#[allow(inconsistent_fields)]
pub enum Instruction {
    Unreachable,
    NOP,
    Block { ty: BlockType, instrs: Vec<Instruction> },
    Loop { ty: BlockType, instrs: Vec<Instruction> },
    If {
        ty: BlockType,
        accept_instrs: Vec<Instruction>,
        reject_instrs: Option<Vec<Instruction>>,
    },
    Branch(LabelIdx),
    BranchIf(LabelIdx),
    BranchTable { labels: Vec<LabelIdx>, operand: LabelIdx },
    Return,
    Call(FuncIdx),
    CallIndirect(TypeIdx),
    Drop,
    Select,
    LocalGet(LocalIdx),
    LocalSet(LocalIdx),
    LocalTee(LocalIdx),
    GlobalGet(GlobalIdx),
    GlobalSet(GlobalIdx),
    /// `storage` gives the narrow width and whether it is sign-extended.
    Load { mem: MemoryArgument, ty: MemoryType, storage: Option<(bool, StorageType)> },
    Store { mem: MemoryArgument, ty: MemoryType, storage: Option<StorageType> },
    MemorySize,
    MemoryGrow,
    Const(Literal),
    EqualZero(IntegerType),
    Equal(MemoryType),
    NotEqual(MemoryType),
    LessThanInt { ty: IntegerType, signed: bool },
    GreaterThanInt { ty: IntegerType, signed: bool },
    LessOrEqualInt { ty: IntegerType, signed: bool },
    GreaterOrEqualInt { ty: IntegerType, signed: bool },
    LessThanFloat(FloatType),
    GreaterThanFloat(FloatType),
    LessOrEqualFloat(FloatType),
    GreaterOrEqualFloat(FloatType),
    CountLeadingZero(IntegerType),
    CountTrailingZero(IntegerType),
    CountOnes(IntegerType),
    Add(MemoryType),
    Subtract(MemoryType),
    Multiply(MemoryType),
    IntDivision { ty: IntegerType, signed: bool },
    FloatDivision(FloatType),
    Remainder { ty: IntegerType, signed: bool },
    And(IntegerType),
    Or(IntegerType),
    Xor(IntegerType),
    ShiftLeft(IntegerType),
    ShiftRight { ty: IntegerType, signed: bool },
    LeftRotation(IntegerType),
    RightRotation(IntegerType),
    Absolute(FloatType),
    Negate(FloatType),
    Ceil(FloatType),
    Floor(FloatType),
    Truncate(FloatType),
    Nearest(FloatType),
    SquareRoot(FloatType),
    Minimum(FloatType),
    Maximum(FloatType),
    CopySign(FloatType),
    IntWrap,
    /// i64.extend_i32, signed or not
    IntExtend(bool),
    IntTruncate { ty: IntegerType, float: FloatType, signed: bool },
    Convert { ty: FloatType, int: IntegerType, signed: bool },
    FloatDemote,
    FloatPromote,
    IntReinterpret,
    LongReinterpret,
    FloatReinterpret,
    DoubleReinterpret,
    Extend { ty: IntegerType, base: StorageType },
    SaturateTruncate { ty: IntegerType, float: FloatType, signed: bool },
}

/// The encodings of a sequence of instructions, one after the other.
pub open spec fn instrs_encoding(s: Seq<Instruction>) -> Seq<u8>
    decreases s,
{
    if s.len() == 0 {
        Seq::empty()
    } else {
        instrs_encoding(s.subrange(0, s.len() - 1)) + s[s.len() - 1].encoding()
    }
}

/// Every instruction of the sequence can be encoded.
pub open spec fn instrs_wf(s: Seq<Instruction>) -> bool
    decreases s,
{
    forall|k: int| 0 <= k < s.len() ==> (#[trigger] s[k]).wf()
}

impl Instruction {
    /// The first byte of the instruction: its opcode, or the prefix `0xFC`
    /// of the saturating truncations. The combinations that `wf` rules out
    /// have no opcode; `0x00` stands for them only to make this total.
    pub open spec fn opcode(self) -> u8 {
        match self {
            Instruction::Unreachable => 0x00,
            Instruction::NOP => 0x01,
            Instruction::Block { .. } => 0x02,
            Instruction::Loop { .. } => 0x03,
            Instruction::If { .. } => 0x04,
            Instruction::Branch(_) => 0x0C,
            Instruction::BranchIf(_) => 0x0D,
            Instruction::BranchTable { .. } => 0x0E,
            Instruction::Return => 0x0F,
            Instruction::Call(_) => 0x10,
            Instruction::CallIndirect(_) => 0x11,
            Instruction::Drop => 0x1A,
            Instruction::Select => 0x1B,
            Instruction::LocalGet(_) => 0x20,
            Instruction::LocalSet(_) => 0x21,
            Instruction::LocalTee(_) => 0x22,
            Instruction::GlobalGet(_) => 0x23,
            Instruction::GlobalSet(_) => 0x24,
            Instruction::Load { ty, storage, .. } => match (ty, storage) {
                (MemoryType::Int, None) => 0x28,
                (MemoryType::Long, None) => 0x29,
                (MemoryType::Float, None) => 0x2A,
                (MemoryType::Double, None) => 0x2B,
                (MemoryType::Int, Some((true, StorageType::Byte))) => 0x2C,
                (MemoryType::Int, Some((false, StorageType::Byte))) => 0x2D,
                (MemoryType::Int, Some((true, StorageType::Short))) => 0x2E,
                (MemoryType::Int, Some((false, StorageType::Short))) => 0x2F,
                (MemoryType::Long, Some((true, StorageType::Byte))) => 0x30,
                (MemoryType::Long, Some((false, StorageType::Byte))) => 0x31,
                (MemoryType::Long, Some((true, StorageType::Short))) => 0x32,
                (MemoryType::Long, Some((false, StorageType::Short))) => 0x33,
                (MemoryType::Long, Some((true, StorageType::Int))) => 0x34,
                (MemoryType::Long, Some((false, StorageType::Int))) => 0x35,
                _ => 0x00,
            },
            Instruction::Store { ty, storage, .. } => match (ty, storage) {
                (MemoryType::Int, None) => 0x36,
                (MemoryType::Long, None) => 0x37,
                (MemoryType::Float, None) => 0x38,
                (MemoryType::Double, None) => 0x39,
                (MemoryType::Int, Some(StorageType::Byte)) => 0x3A,
                (MemoryType::Int, Some(StorageType::Short)) => 0x3B,
                (MemoryType::Long, Some(StorageType::Byte)) => 0x3C,
                (MemoryType::Long, Some(StorageType::Short)) => 0x3D,
                (MemoryType::Long, Some(StorageType::Int)) => 0x3E,
                _ => 0x00,
            },
            Instruction::MemorySize => 0x3F,
            Instruction::MemoryGrow => 0x40,
            Instruction::Const(literal) => match literal {
                Literal::Int(_) => 0x41,
                Literal::Long(_) => 0x42,
                Literal::Float(_) => 0x43,
                Literal::Double(_) => 0x44,
            },
            Instruction::EqualZero(ty) => match ty {
                IntegerType::Int => 0x45,
                IntegerType::Long => 0x50,
            },
            Instruction::Equal(ty) => match ty {
                MemoryType::Int => 0x46,
                MemoryType::Long => 0x51,
                MemoryType::Float => 0x5B,
                MemoryType::Double => 0x61,
            },
            Instruction::NotEqual(ty) => match ty {
                MemoryType::Int => 0x47,
                MemoryType::Long => 0x52,
                MemoryType::Float => 0x5C,
                MemoryType::Double => 0x62,
            },
            Instruction::LessThanInt { ty, signed } => match (ty, signed) {
                (IntegerType::Int, true) => 0x48,
                (IntegerType::Int, false) => 0x49,
                (IntegerType::Long, true) => 0x53,
                (IntegerType::Long, false) => 0x54,
            },
            Instruction::GreaterThanInt { ty, signed } => match (ty, signed) {
                (IntegerType::Int, true) => 0x4A,
                (IntegerType::Int, false) => 0x4B,
                (IntegerType::Long, true) => 0x55,
                (IntegerType::Long, false) => 0x56,
            },
            Instruction::LessOrEqualInt { ty, signed } => match (ty, signed) {
                (IntegerType::Int, true) => 0x4C,
                (IntegerType::Int, false) => 0x4D,
                (IntegerType::Long, true) => 0x57,
                (IntegerType::Long, false) => 0x58,
            },
            Instruction::GreaterOrEqualInt { ty, signed } => match (ty, signed) {
                (IntegerType::Int, true) => 0x4E,
                (IntegerType::Int, false) => 0x4F,
                (IntegerType::Long, true) => 0x59,
                (IntegerType::Long, false) => 0x5A,
            },
            Instruction::LessThanFloat(ty) => match ty {
                FloatType::Float => 0x5D,
                FloatType::Double => 0x63,
            },
            Instruction::GreaterThanFloat(ty) => match ty {
                FloatType::Float => 0x5E,
                FloatType::Double => 0x64,
            },
            Instruction::LessOrEqualFloat(ty) => match ty {
                FloatType::Float => 0x5F,
                FloatType::Double => 0x65,
            },
            Instruction::GreaterOrEqualFloat(ty) => match ty {
                FloatType::Float => 0x60,
                FloatType::Double => 0x66,
            },
            Instruction::CountLeadingZero(ty) => match ty {
                IntegerType::Int => 0x67,
                IntegerType::Long => 0x79,
            },
            Instruction::CountTrailingZero(ty) => match ty {
                IntegerType::Int => 0x68,
                IntegerType::Long => 0x7A,
            },
            Instruction::CountOnes(ty) => match ty {
                IntegerType::Int => 0x69,
                IntegerType::Long => 0x7B,
            },
            Instruction::Add(ty) => match ty {
                MemoryType::Int => 0x6A,
                MemoryType::Long => 0x7C,
                MemoryType::Float => 0x92,
                MemoryType::Double => 0xA0,
            },
            Instruction::Subtract(ty) => match ty {
                MemoryType::Int => 0x6B,
                MemoryType::Long => 0x7D,
                MemoryType::Float => 0x93,
                MemoryType::Double => 0xA1,
            },
            Instruction::Multiply(ty) => match ty {
                MemoryType::Int => 0x6C,
                MemoryType::Long => 0x7E,
                MemoryType::Float => 0x94,
                MemoryType::Double => 0xA2,
            },
            Instruction::IntDivision { ty, signed } => match (ty, signed) {
                (IntegerType::Int, true) => 0x6D,
                (IntegerType::Int, false) => 0x6E,
                (IntegerType::Long, true) => 0x7F,
                (IntegerType::Long, false) => 0x80,
            },
            Instruction::FloatDivision(ty) => match ty {
                FloatType::Float => 0x95,
                FloatType::Double => 0xA3,
            },
            Instruction::Remainder { ty, signed } => match (ty, signed) {
                (IntegerType::Int, true) => 0x6F,
                (IntegerType::Int, false) => 0x70,
                (IntegerType::Long, true) => 0x81,
                (IntegerType::Long, false) => 0x82,
            },
            Instruction::And(ty) => match ty {
                IntegerType::Int => 0x71,
                IntegerType::Long => 0x83,
            },
            Instruction::Or(ty) => match ty {
                IntegerType::Int => 0x72,
                IntegerType::Long => 0x84,
            },
            Instruction::Xor(ty) => match ty {
                IntegerType::Int => 0x73,
                IntegerType::Long => 0x85,
            },
            Instruction::ShiftLeft(ty) => match ty {
                IntegerType::Int => 0x74,
                IntegerType::Long => 0x86,
            },
            Instruction::ShiftRight { ty, signed } => match (ty, signed) {
                (IntegerType::Int, true) => 0x75,
                (IntegerType::Int, false) => 0x76,
                (IntegerType::Long, true) => 0x87,
                (IntegerType::Long, false) => 0x88,
            },
            Instruction::LeftRotation(ty) => match ty {
                IntegerType::Int => 0x77,
                IntegerType::Long => 0x89,
            },
            Instruction::RightRotation(ty) => match ty {
                IntegerType::Int => 0x78,
                IntegerType::Long => 0x8A,
            },
            Instruction::Absolute(ty) => match ty {
                FloatType::Float => 0x8B,
                FloatType::Double => 0x99,
            },
            Instruction::Negate(ty) => match ty {
                FloatType::Float => 0x8C,
                FloatType::Double => 0x9A,
            },
            Instruction::Ceil(ty) => match ty {
                FloatType::Float => 0x8D,
                FloatType::Double => 0x9B,
            },
            Instruction::Floor(ty) => match ty {
                FloatType::Float => 0x8E,
                FloatType::Double => 0x9C,
            },
            Instruction::Truncate(ty) => match ty {
                FloatType::Float => 0x8F,
                FloatType::Double => 0x9D,
            },
            Instruction::Nearest(ty) => match ty {
                FloatType::Float => 0x90,
                FloatType::Double => 0x9E,
            },
            Instruction::SquareRoot(ty) => match ty {
                FloatType::Float => 0x91,
                FloatType::Double => 0x9F,
            },
            Instruction::Minimum(ty) => match ty {
                FloatType::Float => 0x96,
                FloatType::Double => 0xA4,
            },
            Instruction::Maximum(ty) => match ty {
                FloatType::Float => 0x97,
                FloatType::Double => 0xA5,
            },
            Instruction::CopySign(ty) => match ty {
                FloatType::Float => 0x98,
                FloatType::Double => 0xA6,
            },
            Instruction::IntWrap => 0xA7,
            Instruction::IntExtend(signed) => match signed {
                true => 0xAC,
                false => 0xAD,
            },
            Instruction::IntTruncate { ty, float, signed } => match (ty, float, signed) {
                (IntegerType::Int, FloatType::Float, true) => 0xA8,
                (IntegerType::Int, FloatType::Float, false) => 0xA9,
                (IntegerType::Int, FloatType::Double, true) => 0xAA,
                (IntegerType::Int, FloatType::Double, false) => 0xAB,
                (IntegerType::Long, FloatType::Float, true) => 0xAE,
                (IntegerType::Long, FloatType::Float, false) => 0xAF,
                (IntegerType::Long, FloatType::Double, true) => 0xB0,
                (IntegerType::Long, FloatType::Double, false) => 0xB1,
            },
            Instruction::Convert { ty, int: from, signed } => match (ty, from, signed) {
                (FloatType::Float, IntegerType::Int, true) => 0xB2,
                (FloatType::Float, IntegerType::Int, false) => 0xB3,
                (FloatType::Float, IntegerType::Long, true) => 0xB4,
                (FloatType::Float, IntegerType::Long, false) => 0xB5,
                (FloatType::Double, IntegerType::Int, true) => 0xB7,
                (FloatType::Double, IntegerType::Int, false) => 0xB8,
                (FloatType::Double, IntegerType::Long, true) => 0xB9,
                (FloatType::Double, IntegerType::Long, false) => 0xBA,
            },
            Instruction::FloatDemote => 0xB6,
            Instruction::FloatPromote => 0xBB,
            Instruction::IntReinterpret => 0xBC,
            Instruction::LongReinterpret => 0xBD,
            Instruction::FloatReinterpret => 0xBE,
            Instruction::DoubleReinterpret => 0xBF,
            Instruction::Extend { ty, base } => match (ty, base) {
                (IntegerType::Int, StorageType::Byte) => 0xC0,
                (IntegerType::Int, StorageType::Short) => 0xC1,
                (IntegerType::Long, StorageType::Byte) => 0xC2,
                (IntegerType::Long, StorageType::Short) => 0xC3,
                (IntegerType::Long, StorageType::Int) => 0xC4,
                _ => 0x00,
            },
            Instruction::SaturateTruncate { .. } => 0xFC,
        }
    }

    /// The instruction can be encoded: a narrow load or store has a width
    /// below its value type's and an integer value type, a sign extension
    /// starts from a width below its value type's, and so on in every nested
    /// body.
    pub open spec fn wf(self) -> bool
        decreases self,
    {
        match self {
            Instruction::Block { instrs, .. } => instrs_wf(instrs@),
            Instruction::Loop { instrs, .. } => instrs_wf(instrs@),
            Instruction::If { accept_instrs, reject_instrs, .. } => {
                &&& instrs_wf(accept_instrs@)
                &&& match reject_instrs {
                    Some(reject) => instrs_wf(reject@),
                    None => true,
                }
            },
            Instruction::Load { ty, storage, .. } => match (ty, storage) {
                (MemoryType::Int, Some((_, StorageType::Int))) => false,
                (MemoryType::Float, Some(_)) => false,
                (MemoryType::Double, Some(_)) => false,
                _ => true,
            },
            Instruction::Store { ty, storage, .. } => match (ty, storage) {
                (MemoryType::Int, Some(StorageType::Int)) => false,
                (MemoryType::Float, Some(_)) => false,
                (MemoryType::Double, Some(_)) => false,
                _ => true,
            },
            Instruction::Extend { ty, base } => match (ty, base) {
                (IntegerType::Int, StorageType::Int) => false,
                _ => true,
            },
            _ => true,
        }
    }

    /// The opcode, then the immediates: indices in unsigned LEB128, integer
    /// constants in signed LEB128, float constants as little-endian bytes,
    /// block bodies closed by `0x0B` (with `0x05` before an `else` body).
    pub open spec fn encoding(self) -> Seq<u8>
        decreases self,
    {
        seq![self.opcode()] + match self {
            Instruction::Block { ty, instrs } => ty.encoding() + instrs_encoding(instrs@) + seq![
                0x0Bu8,
            ],
            Instruction::Loop { ty, instrs } => ty.encoding() + instrs_encoding(instrs@) + seq![
                0x0Bu8,
            ],
            Instruction::If { ty, accept_instrs, reject_instrs } => ty.encoding()
                + instrs_encoding(accept_instrs@) + match reject_instrs {
                Some(reject) => seq![0x05u8] + instrs_encoding(reject@),
                None => Seq::empty(),
            } + seq![0x0Bu8],
            Instruction::Branch(label) => uleb(label as nat),
            Instruction::BranchIf(label) => uleb(label as nat),
            Instruction::BranchTable { labels, operand } => index_vec(labels@) + uleb(
                operand as nat,
            ),
            Instruction::Call(idx) => uleb(idx as nat),
            Instruction::CallIndirect(idx) => uleb(idx as nat) + seq![0x00u8],
            Instruction::LocalGet(idx) => uleb(idx as nat),
            Instruction::LocalSet(idx) => uleb(idx as nat),
            Instruction::LocalTee(idx) => uleb(idx as nat),
            Instruction::GlobalGet(idx) => uleb(idx as nat),
            Instruction::GlobalSet(idx) => uleb(idx as nat),
            Instruction::Load { mem, .. } => mem.encoding(),
            Instruction::Store { mem, .. } => mem.encoding(),
            Instruction::MemorySize => seq![0x00u8],
            Instruction::MemoryGrow => seq![0x00u8],
            Instruction::Const(literal) => match literal {
                Literal::Int(v) => sleb(v as int),
                Literal::Long(v) => sleb(v as int),
                Literal::Float(bits) => le_bytes32(bits),
                Literal::Double(bits) => le_bytes64(bits),
            },
            Instruction::SaturateTruncate { ty, float, signed } => uleb(
                Self::saturate_suffix(ty, float, signed) as nat,
            ),
            _ => Seq::empty(),
        }
    }

    /// The sub-opcode that follows `0xFC` in a saturating truncation.
    pub open spec fn saturate_suffix(ty: IntegerType, float: FloatType, signed: bool) -> u8 {
        match (ty, float, signed) {
                (IntegerType::Int, FloatType::Float, true) => 0x00,
                (IntegerType::Int, FloatType::Float, false) => 0x01,
                (IntegerType::Int, FloatType::Double, true) => 0x02,
                (IntegerType::Int, FloatType::Double, false) => 0x03,
                (IntegerType::Long, FloatType::Float, true) => 0x04,
                (IntegerType::Long, FloatType::Float, false) => 0x05,
                (IntegerType::Long, FloatType::Double, true) => 0x06,
                (IntegerType::Long, FloatType::Double, false) => 0x07,
            }
    }

    /// The opcode of the instruction, as `opcode` gives it.
    pub fn opcode_byte(&self) -> (r: u8)
        ensures
            r == self.opcode(),
    {
        match self {
            Instruction::Unreachable => 0x00,
            Instruction::NOP => 0x01,
            Instruction::Block { .. } => 0x02,
            Instruction::Loop { .. } => 0x03,
            Instruction::If { .. } => 0x04,
            Instruction::Branch(_) => 0x0C,
            Instruction::BranchIf(_) => 0x0D,
            Instruction::BranchTable { .. } => 0x0E,
            Instruction::Return => 0x0F,
            Instruction::Call(_) => 0x10,
            Instruction::CallIndirect(_) => 0x11,
            Instruction::Drop => 0x1A,
            Instruction::Select => 0x1B,
            Instruction::LocalGet(_) => 0x20,
            Instruction::LocalSet(_) => 0x21,
            Instruction::LocalTee(_) => 0x22,
            Instruction::GlobalGet(_) => 0x23,
            Instruction::GlobalSet(_) => 0x24,
            Instruction::Load { ty, storage, .. } => match (ty, storage) {
                (MemoryType::Int, None) => 0x28,
                (MemoryType::Long, None) => 0x29,
                (MemoryType::Float, None) => 0x2A,
                (MemoryType::Double, None) => 0x2B,
                (MemoryType::Int, Some((true, StorageType::Byte))) => 0x2C,
                (MemoryType::Int, Some((false, StorageType::Byte))) => 0x2D,
                (MemoryType::Int, Some((true, StorageType::Short))) => 0x2E,
                (MemoryType::Int, Some((false, StorageType::Short))) => 0x2F,
                (MemoryType::Long, Some((true, StorageType::Byte))) => 0x30,
                (MemoryType::Long, Some((false, StorageType::Byte))) => 0x31,
                (MemoryType::Long, Some((true, StorageType::Short))) => 0x32,
                (MemoryType::Long, Some((false, StorageType::Short))) => 0x33,
                (MemoryType::Long, Some((true, StorageType::Int))) => 0x34,
                (MemoryType::Long, Some((false, StorageType::Int))) => 0x35,
                _ => 0x00,
            },
            Instruction::Store { ty, storage, .. } => match (ty, storage) {
                (MemoryType::Int, None) => 0x36,
                (MemoryType::Long, None) => 0x37,
                (MemoryType::Float, None) => 0x38,
                (MemoryType::Double, None) => 0x39,
                (MemoryType::Int, Some(StorageType::Byte)) => 0x3A,
                (MemoryType::Int, Some(StorageType::Short)) => 0x3B,
                (MemoryType::Long, Some(StorageType::Byte)) => 0x3C,
                (MemoryType::Long, Some(StorageType::Short)) => 0x3D,
                (MemoryType::Long, Some(StorageType::Int)) => 0x3E,
                _ => 0x00,
            },
            Instruction::MemorySize => 0x3F,
            Instruction::MemoryGrow => 0x40,
            Instruction::Const(literal) => match literal {
                Literal::Int(_) => 0x41,
                Literal::Long(_) => 0x42,
                Literal::Float(_) => 0x43,
                Literal::Double(_) => 0x44,
            },
            Instruction::EqualZero(ty) => match ty {
                IntegerType::Int => 0x45,
                IntegerType::Long => 0x50,
            },
            Instruction::Equal(ty) => match ty {
                MemoryType::Int => 0x46,
                MemoryType::Long => 0x51,
                MemoryType::Float => 0x5B,
                MemoryType::Double => 0x61,
            },
            Instruction::NotEqual(ty) => match ty {
                MemoryType::Int => 0x47,
                MemoryType::Long => 0x52,
                MemoryType::Float => 0x5C,
                MemoryType::Double => 0x62,
            },
            Instruction::LessThanInt { ty, signed } => match (ty, signed) {
                (IntegerType::Int, true) => 0x48,
                (IntegerType::Int, false) => 0x49,
                (IntegerType::Long, true) => 0x53,
                (IntegerType::Long, false) => 0x54,
            },
            Instruction::GreaterThanInt { ty, signed } => match (ty, signed) {
                (IntegerType::Int, true) => 0x4A,
                (IntegerType::Int, false) => 0x4B,
                (IntegerType::Long, true) => 0x55,
                (IntegerType::Long, false) => 0x56,
            },
            Instruction::LessOrEqualInt { ty, signed } => match (ty, signed) {
                (IntegerType::Int, true) => 0x4C,
                (IntegerType::Int, false) => 0x4D,
                (IntegerType::Long, true) => 0x57,
                (IntegerType::Long, false) => 0x58,
            },
            Instruction::GreaterOrEqualInt { ty, signed } => match (ty, signed) {
                (IntegerType::Int, true) => 0x4E,
                (IntegerType::Int, false) => 0x4F,
                (IntegerType::Long, true) => 0x59,
                (IntegerType::Long, false) => 0x5A,
            },
            Instruction::LessThanFloat(ty) => match ty {
                FloatType::Float => 0x5D,
                FloatType::Double => 0x63,
            },
            Instruction::GreaterThanFloat(ty) => match ty {
                FloatType::Float => 0x5E,
                FloatType::Double => 0x64,
            },
            Instruction::LessOrEqualFloat(ty) => match ty {
                FloatType::Float => 0x5F,
                FloatType::Double => 0x65,
            },
            Instruction::GreaterOrEqualFloat(ty) => match ty {
                FloatType::Float => 0x60,
                FloatType::Double => 0x66,
            },
            Instruction::CountLeadingZero(ty) => match ty {
                IntegerType::Int => 0x67,
                IntegerType::Long => 0x79,
            },
            Instruction::CountTrailingZero(ty) => match ty {
                IntegerType::Int => 0x68,
                IntegerType::Long => 0x7A,
            },
            Instruction::CountOnes(ty) => match ty {
                IntegerType::Int => 0x69,
                IntegerType::Long => 0x7B,
            },
            Instruction::Add(ty) => match ty {
                MemoryType::Int => 0x6A,
                MemoryType::Long => 0x7C,
                MemoryType::Float => 0x92,
                MemoryType::Double => 0xA0,
            },
            Instruction::Subtract(ty) => match ty {
                MemoryType::Int => 0x6B,
                MemoryType::Long => 0x7D,
                MemoryType::Float => 0x93,
                MemoryType::Double => 0xA1,
            },
            Instruction::Multiply(ty) => match ty {
                MemoryType::Int => 0x6C,
                MemoryType::Long => 0x7E,
                MemoryType::Float => 0x94,
                MemoryType::Double => 0xA2,
            },
            Instruction::IntDivision { ty, signed } => match (ty, signed) {
                (IntegerType::Int, true) => 0x6D,
                (IntegerType::Int, false) => 0x6E,
                (IntegerType::Long, true) => 0x7F,
                (IntegerType::Long, false) => 0x80,
            },
            Instruction::FloatDivision(ty) => match ty {
                FloatType::Float => 0x95,
                FloatType::Double => 0xA3,
            },
            Instruction::Remainder { ty, signed } => match (ty, signed) {
                (IntegerType::Int, true) => 0x6F,
                (IntegerType::Int, false) => 0x70,
                (IntegerType::Long, true) => 0x81,
                (IntegerType::Long, false) => 0x82,
            },
            Instruction::And(ty) => match ty {
                IntegerType::Int => 0x71,
                IntegerType::Long => 0x83,
            },
            Instruction::Or(ty) => match ty {
                IntegerType::Int => 0x72,
                IntegerType::Long => 0x84,
            },
            Instruction::Xor(ty) => match ty {
                IntegerType::Int => 0x73,
                IntegerType::Long => 0x85,
            },
            Instruction::ShiftLeft(ty) => match ty {
                IntegerType::Int => 0x74,
                IntegerType::Long => 0x86,
            },
            Instruction::ShiftRight { ty, signed } => match (ty, signed) {
                (IntegerType::Int, true) => 0x75,
                (IntegerType::Int, false) => 0x76,
                (IntegerType::Long, true) => 0x87,
                (IntegerType::Long, false) => 0x88,
            },
            Instruction::LeftRotation(ty) => match ty {
                IntegerType::Int => 0x77,
                IntegerType::Long => 0x89,
            },
            Instruction::RightRotation(ty) => match ty {
                IntegerType::Int => 0x78,
                IntegerType::Long => 0x8A,
            },
            Instruction::Absolute(ty) => match ty {
                FloatType::Float => 0x8B,
                FloatType::Double => 0x99,
            },
            Instruction::Negate(ty) => match ty {
                FloatType::Float => 0x8C,
                FloatType::Double => 0x9A,
            },
            Instruction::Ceil(ty) => match ty {
                FloatType::Float => 0x8D,
                FloatType::Double => 0x9B,
            },
            Instruction::Floor(ty) => match ty {
                FloatType::Float => 0x8E,
                FloatType::Double => 0x9C,
            },
            Instruction::Truncate(ty) => match ty {
                FloatType::Float => 0x8F,
                FloatType::Double => 0x9D,
            },
            Instruction::Nearest(ty) => match ty {
                FloatType::Float => 0x90,
                FloatType::Double => 0x9E,
            },
            Instruction::SquareRoot(ty) => match ty {
                FloatType::Float => 0x91,
                FloatType::Double => 0x9F,
            },
            Instruction::Minimum(ty) => match ty {
                FloatType::Float => 0x96,
                FloatType::Double => 0xA4,
            },
            Instruction::Maximum(ty) => match ty {
                FloatType::Float => 0x97,
                FloatType::Double => 0xA5,
            },
            Instruction::CopySign(ty) => match ty {
                FloatType::Float => 0x98,
                FloatType::Double => 0xA6,
            },
            Instruction::IntWrap => 0xA7,
            Instruction::IntExtend(signed) => match signed {
                true => 0xAC,
                false => 0xAD,
            },
            Instruction::IntTruncate { ty, float, signed } => match (ty, float, signed) {
                (IntegerType::Int, FloatType::Float, true) => 0xA8,
                (IntegerType::Int, FloatType::Float, false) => 0xA9,
                (IntegerType::Int, FloatType::Double, true) => 0xAA,
                (IntegerType::Int, FloatType::Double, false) => 0xAB,
                (IntegerType::Long, FloatType::Float, true) => 0xAE,
                (IntegerType::Long, FloatType::Float, false) => 0xAF,
                (IntegerType::Long, FloatType::Double, true) => 0xB0,
                (IntegerType::Long, FloatType::Double, false) => 0xB1,
            },
            Instruction::Convert { ty, int: from, signed } => match (ty, from, signed) {
                (FloatType::Float, IntegerType::Int, true) => 0xB2,
                (FloatType::Float, IntegerType::Int, false) => 0xB3,
                (FloatType::Float, IntegerType::Long, true) => 0xB4,
                (FloatType::Float, IntegerType::Long, false) => 0xB5,
                (FloatType::Double, IntegerType::Int, true) => 0xB7,
                (FloatType::Double, IntegerType::Int, false) => 0xB8,
                (FloatType::Double, IntegerType::Long, true) => 0xB9,
                (FloatType::Double, IntegerType::Long, false) => 0xBA,
            },
            Instruction::FloatDemote => 0xB6,
            Instruction::FloatPromote => 0xBB,
            Instruction::IntReinterpret => 0xBC,
            Instruction::LongReinterpret => 0xBD,
            Instruction::FloatReinterpret => 0xBE,
            Instruction::DoubleReinterpret => 0xBF,
            Instruction::Extend { ty, base } => match (ty, base) {
                (IntegerType::Int, StorageType::Byte) => 0xC0,
                (IntegerType::Int, StorageType::Short) => 0xC1,
                (IntegerType::Long, StorageType::Byte) => 0xC2,
                (IntegerType::Long, StorageType::Short) => 0xC3,
                (IntegerType::Long, StorageType::Int) => 0xC4,
                _ => 0x00,
            },
            Instruction::SaturateTruncate { .. } => 0xFC,
        }
    }

    fn saturate_suffix_byte(ty: &IntegerType, float: &FloatType, signed: &bool) -> (r: u8)
        ensures
            r == Self::saturate_suffix(*ty, *float, *signed),
    {
        match (ty, float, signed) {
                (IntegerType::Int, FloatType::Float, true) => 0x00,
                (IntegerType::Int, FloatType::Float, false) => 0x01,
                (IntegerType::Int, FloatType::Double, true) => 0x02,
                (IntegerType::Int, FloatType::Double, false) => 0x03,
                (IntegerType::Long, FloatType::Float, true) => 0x04,
                (IntegerType::Long, FloatType::Float, false) => 0x05,
                (IntegerType::Long, FloatType::Double, true) => 0x06,
                (IntegerType::Long, FloatType::Double, false) => 0x07,
            }
    }

    /// Whether the instruction can be encoded, as `wf` says.
    pub fn is_encodable(&self) -> (r: bool)
        ensures
            r == self.wf(),
        decreases self,
    {
        match self {
            Instruction::Block { instrs, .. } => instrs_encodable(instrs),
            Instruction::Loop { instrs, .. } => instrs_encodable(instrs),
            Instruction::If { accept_instrs, reject_instrs, .. } => {
                let accept = instrs_encodable(accept_instrs);
                let reject = match reject_instrs {
                    Some(reject) => instrs_encodable(reject),
                    None => true,
                };
                accept && reject
            },
            Instruction::Load { ty, storage, .. } => match (ty, storage) {
                (MemoryType::Int, Some((_, StorageType::Int))) => false,
                (MemoryType::Float, Some(_)) => false,
                (MemoryType::Double, Some(_)) => false,
                _ => true,
            },
            Instruction::Store { ty, storage, .. } => match (ty, storage) {
                (MemoryType::Int, Some(StorageType::Int)) => false,
                (MemoryType::Float, Some(_)) => false,
                (MemoryType::Double, Some(_)) => false,
                _ => true,
            },
            Instruction::Extend { ty, base } => match (ty, base) {
                (IntegerType::Int, StorageType::Int) => false,
                _ => true,
            },
            _ => true,
        }
    }

    /// Appends the encoding of the instruction and returns its length.
    pub fn encode(&self, out: &mut Vec<u8>) -> (n: usize)
        requires
            self.wf(),
        ensures
            final(out)@ == old(out)@ + self.encoding(),
            n == self.encoding().len(),
        decreases self,
    {
        let start = out.len();
        out.push(self.opcode_byte());
        let ghost head = out@;
        match self {
            Instruction::Block { ty, instrs } => {
                ty.encode(out);
                encode_instrs(instrs, out);
                out.push(0x0B);
            },
            Instruction::Loop { ty, instrs } => {
                ty.encode(out);
                encode_instrs(instrs, out);
                out.push(0x0B);
            },
            Instruction::If { ty, accept_instrs, reject_instrs } => {
                ty.encode(out);
                encode_instrs(accept_instrs, out);
                match reject_instrs {
                    Some(reject) => {
                        out.push(0x05);
                        encode_instrs(reject, out);
                    },
                    None => {},
                }
                out.push(0x0B);
            },
            Instruction::Branch(label) => {
                encode_u32(out, *label);
            },
            Instruction::BranchIf(label) => {
                encode_u32(out, *label);
            },
            Instruction::BranchTable { labels, operand } => {
                encode_index_vec(out, labels.as_slice());
                encode_u32(out, *operand);
            },
            Instruction::Call(idx) => {
                encode_u32(out, *idx);
            },
            Instruction::CallIndirect(idx) => {
                encode_u32(out, *idx);
                out.push(0x00);
            },
            Instruction::LocalGet(idx) => {
                encode_u32(out, *idx);
            },
            Instruction::LocalSet(idx) => {
                encode_u32(out, *idx);
            },
            Instruction::LocalTee(idx) => {
                encode_u32(out, *idx);
            },
            Instruction::GlobalGet(idx) => {
                encode_u32(out, *idx);
            },
            Instruction::GlobalSet(idx) => {
                encode_u32(out, *idx);
            },
            Instruction::Load { mem, .. } => {
                mem.encode(out);
            },
            Instruction::Store { mem, .. } => {
                mem.encode(out);
            },
            Instruction::MemorySize => {
                out.push(0x00);
            },
            Instruction::MemoryGrow => {
                out.push(0x00);
            },
            Instruction::Const(literal) => {
                match literal {
                    Literal::Int(v) => {
                        encode_i32(out, *v);
                    },
                    Literal::Long(v) => {
                        encode_i64(out, *v);
                    },
                    Literal::Float(bits) => {
                        encode_f32(out, *bits);
                    },
                    Literal::Double(bits) => {
                        encode_f64(out, *bits);
                    },
                }
            },
            Instruction::SaturateTruncate { ty, float, signed } => {
                encode_u32(out, Self::saturate_suffix_byte(ty, float, signed) as u32);
            },
            _ => {},
        }
        assert(out@ =~= old(out)@ + self.encoding());
        out.len() - start
    }
}

/// Whether every instruction of `instrs` can be encoded.
pub fn instrs_encodable(instrs: &Vec<Instruction>) -> (r: bool)
    ensures
        r == instrs_wf(instrs@),
    decreases instrs,
{
    let mut i: usize = 0;
    while i < instrs.len()
        invariant
            i <= instrs@.len(),
            forall|k: int| 0 <= k < i ==> (#[trigger] instrs@[k]).wf(),
        decreases instrs@.len() - i,
    {
        if !instrs[i].is_encodable() {
            return false;
        }
        i = i + 1;
    }
    true
}

/// Appends the encodings of `instrs`, one after the other, and returns their
/// total length.
pub fn encode_instrs(instrs: &Vec<Instruction>, out: &mut Vec<u8>) -> (n: usize)
    requires
        instrs_wf(instrs@),
    ensures
        final(out)@ == old(out)@ + instrs_encoding(instrs@),
        n == instrs_encoding(instrs@).len(),
    decreases instrs,
{
    let start = out.len();
    let mut i: usize = 0;
    while i < instrs.len()
        invariant
            i <= instrs@.len(),
            instrs_wf(instrs@),
            start <= out@.len(),
            out@ == old(out)@ + instrs_encoding(instrs@.subrange(0, i as int)),
        decreases instrs@.len() - i,
    {
        assert(instrs@[i as int].wf());
        instrs[i].encode(out);
        assert(instrs@.subrange(0, i + 1).subrange(0, i as int) =~= instrs@.subrange(0, i as int));
        i = i + 1;
    }
    assert(instrs@.subrange(0, instrs@.len() as int) =~= instrs@);
    out.len() - start
}

impl Clone for Instruction {
    /// A copy that encodes to the same bytes, and can be encoded exactly when
    /// the original can.
    fn clone(&self) -> (r: Self)
        ensures
            r.encoding() == self.encoding(),
            r.wf() == self.wf(),
        decreases self,
    {
        let r = match self {
            Instruction::Block { ty, instrs } => Instruction::Block { ty: *ty, instrs: clone_instrs(instrs) },
            Instruction::Loop { ty, instrs } => Instruction::Loop { ty: *ty, instrs: clone_instrs(instrs) },
            Instruction::If { ty, accept_instrs, reject_instrs } => Instruction::If {
                ty: *ty,
                accept_instrs: clone_instrs(accept_instrs),
                reject_instrs: match reject_instrs {
                    Some(reject) => Some(clone_instrs(reject)),
                    None => None,
                },
            },
            Instruction::BranchTable { labels, operand } => Instruction::BranchTable {
                labels: clone_indices(labels),
                operand: *operand,
            },
            Instruction::Unreachable => Instruction::Unreachable,
            Instruction::NOP => Instruction::NOP,
            Instruction::Return => Instruction::Return,
            Instruction::Drop => Instruction::Drop,
            Instruction::Select => Instruction::Select,
            Instruction::MemorySize => Instruction::MemorySize,
            Instruction::MemoryGrow => Instruction::MemoryGrow,
            Instruction::IntWrap => Instruction::IntWrap,
            Instruction::FloatDemote => Instruction::FloatDemote,
            Instruction::FloatPromote => Instruction::FloatPromote,
            Instruction::IntReinterpret => Instruction::IntReinterpret,
            Instruction::LongReinterpret => Instruction::LongReinterpret,
            Instruction::FloatReinterpret => Instruction::FloatReinterpret,
            Instruction::DoubleReinterpret => Instruction::DoubleReinterpret,
            Instruction::Branch(x) => Instruction::Branch(*x),
            Instruction::BranchIf(x) => Instruction::BranchIf(*x),
            Instruction::Call(x) => Instruction::Call(*x),
            Instruction::CallIndirect(x) => Instruction::CallIndirect(*x),
            Instruction::LocalGet(x) => Instruction::LocalGet(*x),
            Instruction::LocalSet(x) => Instruction::LocalSet(*x),
            Instruction::LocalTee(x) => Instruction::LocalTee(*x),
            Instruction::GlobalGet(x) => Instruction::GlobalGet(*x),
            Instruction::GlobalSet(x) => Instruction::GlobalSet(*x),
            Instruction::Const(x) => Instruction::Const(*x),
            Instruction::EqualZero(x) => Instruction::EqualZero(*x),
            Instruction::Equal(x) => Instruction::Equal(*x),
            Instruction::NotEqual(x) => Instruction::NotEqual(*x),
            Instruction::LessThanFloat(x) => Instruction::LessThanFloat(*x),
            Instruction::GreaterThanFloat(x) => Instruction::GreaterThanFloat(*x),
            Instruction::LessOrEqualFloat(x) => Instruction::LessOrEqualFloat(*x),
            Instruction::GreaterOrEqualFloat(x) => Instruction::GreaterOrEqualFloat(*x),
            Instruction::CountLeadingZero(x) => Instruction::CountLeadingZero(*x),
            Instruction::CountTrailingZero(x) => Instruction::CountTrailingZero(*x),
            Instruction::CountOnes(x) => Instruction::CountOnes(*x),
            Instruction::Add(x) => Instruction::Add(*x),
            Instruction::Subtract(x) => Instruction::Subtract(*x),
            Instruction::Multiply(x) => Instruction::Multiply(*x),
            Instruction::FloatDivision(x) => Instruction::FloatDivision(*x),
            Instruction::And(x) => Instruction::And(*x),
            Instruction::Or(x) => Instruction::Or(*x),
            Instruction::Xor(x) => Instruction::Xor(*x),
            Instruction::ShiftLeft(x) => Instruction::ShiftLeft(*x),
            Instruction::LeftRotation(x) => Instruction::LeftRotation(*x),
            Instruction::RightRotation(x) => Instruction::RightRotation(*x),
            Instruction::Absolute(x) => Instruction::Absolute(*x),
            Instruction::Negate(x) => Instruction::Negate(*x),
            Instruction::Ceil(x) => Instruction::Ceil(*x),
            Instruction::Floor(x) => Instruction::Floor(*x),
            Instruction::Truncate(x) => Instruction::Truncate(*x),
            Instruction::Nearest(x) => Instruction::Nearest(*x),
            Instruction::SquareRoot(x) => Instruction::SquareRoot(*x),
            Instruction::Minimum(x) => Instruction::Minimum(*x),
            Instruction::Maximum(x) => Instruction::Maximum(*x),
            Instruction::CopySign(x) => Instruction::CopySign(*x),
            Instruction::IntExtend(x) => Instruction::IntExtend(*x),
            Instruction::LessThanInt { ty: x0, signed: x1 } => Instruction::LessThanInt { ty: *x0, signed: *x1 },
            Instruction::GreaterThanInt { ty: x0, signed: x1 } => Instruction::GreaterThanInt { ty: *x0, signed: *x1 },
            Instruction::LessOrEqualInt { ty: x0, signed: x1 } => Instruction::LessOrEqualInt { ty: *x0, signed: *x1 },
            Instruction::GreaterOrEqualInt { ty: x0, signed: x1 } => Instruction::GreaterOrEqualInt { ty: *x0, signed: *x1 },
            Instruction::IntDivision { ty: x0, signed: x1 } => Instruction::IntDivision { ty: *x0, signed: *x1 },
            Instruction::Remainder { ty: x0, signed: x1 } => Instruction::Remainder { ty: *x0, signed: *x1 },
            Instruction::ShiftRight { ty: x0, signed: x1 } => Instruction::ShiftRight { ty: *x0, signed: *x1 },
            Instruction::Load { mem: x0, ty: x1, storage: x2 } => Instruction::Load { mem: *x0, ty: *x1, storage: *x2 },
            Instruction::Store { mem: x0, ty: x1, storage: x2 } => Instruction::Store { mem: *x0, ty: *x1, storage: *x2 },
            Instruction::IntTruncate { ty: x0, float: x1, signed: x2 } => Instruction::IntTruncate { ty: *x0, float: *x1, signed: *x2 },
            Instruction::SaturateTruncate { ty: x0, float: x1, signed: x2 } => Instruction::SaturateTruncate { ty: *x0, float: *x1, signed: *x2 },
            Instruction::Convert { ty: x0, int: x1, signed: x2 } => Instruction::Convert { ty: *x0, int: *x1, signed: *x2 },
            Instruction::Extend { ty: x0, base: x1 } => Instruction::Extend { ty: *x0, base: *x1 },
        };
        proof {
            match self {
                Instruction::Block { instrs, .. } => {
                    lemma_same_instrs(instrs@, r->Block_instrs@);
                },
                Instruction::Loop { instrs, .. } => {
                    lemma_same_instrs(instrs@, r->Loop_instrs@);
                },
                Instruction::If { accept_instrs, reject_instrs, .. } => {
                    lemma_same_instrs(accept_instrs@, r->If_accept_instrs@);
                    if let Some(reject) = reject_instrs {
                        lemma_same_instrs(reject@, r->If_reject_instrs->0@);
                    }
                },
                _ => {},
            }
        }
        r
    }
}

/// Two sequences whose instructions pairwise encode alike, and are
/// encodable alike, encode alike and are encodable alike.
proof fn lemma_same_instrs(a: Seq<Instruction>, b: Seq<Instruction>)
    requires
        a.len() == b.len(),
        forall|k: int|
            0 <= k < a.len() ==> (#[trigger] a[k]).encoding() == b[k].encoding() && a[k].wf()
                == b[k].wf(),
    ensures
        instrs_encoding(a) == instrs_encoding(b),
        instrs_wf(a) == instrs_wf(b),
    decreases a.len(),
{
    if a.len() > 0 {
        let n = a.len() - 1;
        lemma_same_instrs(a.subrange(0, n), b.subrange(0, n));
        assert(a[n].encoding() == b[n].encoding());
    }
    if instrs_wf(a) {
        assert forall|k: int| 0 <= k < b.len() implies (#[trigger] b[k]).wf() by {
            assert(a[k].wf());
        }
    }
    if instrs_wf(b) {
        assert forall|k: int| 0 <= k < a.len() implies (#[trigger] a[k]).wf() by {
            assert(b[k].wf());
        }
    }
}

/// Copies of the instructions, each encoding as its original does.
fn clone_instrs(instrs: &Vec<Instruction>) -> (r: Vec<Instruction>)
    ensures
        r@.len() == instrs@.len(),
        forall|k: int|
            0 <= k < r@.len() ==> (#[trigger] r@[k]).encoding() == instrs@[k].encoding()
                && r@[k].wf() == instrs@[k].wf(),
    decreases instrs,
{
    let mut r: Vec<Instruction> = Vec::new();
    let mut i: usize = 0;
    while i < instrs.len()
        invariant
            i <= instrs@.len(),
            r@.len() == i,
            forall|k: int|
                0 <= k < i ==> (#[trigger] r@[k]).encoding() == instrs@[k].encoding() && r@[k].wf()
                    == instrs@[k].wf(),
        decreases instrs@.len() - i,
    {
        r.push(instrs[i].clone());
        i = i + 1;
    }
    r
}

/// A copy of a vector of indices.
fn clone_indices(indices: &Vec<u32>) -> (r: Vec<u32>)
    ensures
        r@ == indices@,
{
    let mut r: Vec<u32> = Vec::new();
    let mut i: usize = 0;
    while i < indices.len()
        invariant
            i <= indices@.len(),
            r@ == indices@.subrange(0, i as int),
        decreases indices@.len() - i,
    {
        r.push(indices[i]);
        i = i + 1;
        assert(r@ =~= indices@.subrange(0, i as int));
    }
    assert(indices@.subrange(0, indices@.len() as int) =~= indices@);
    r
}

/// An expression: a sequence of instructions, closed by `0x0B` on the wire.
#[derive(Debug)]
pub struct Expr(pub Vec<Instruction>);

impl Expr {
    /// The instructions' encodings, then `0x0B`.
    pub open spec fn encoding(self) -> Seq<u8> {
        instrs_encoding(self.0@) + seq![0x0Bu8]
    }

    /// Every instruction of the expression can be encoded.
    pub open spec fn wf(self) -> bool {
        instrs_wf(self.0@)
    }

    /// Whether the expression can be encoded, as `wf` says.
    pub fn is_encodable(&self) -> (r: bool)
        ensures
            r == self.wf(),
    {
        instrs_encodable(&self.0)
    }

    /// Appends the encoding of the expression and returns its length.
    pub fn encode(&self, out: &mut Vec<u8>) -> (n: usize)
        requires
            self.wf(),
        ensures
            final(out)@ == old(out)@ + self.encoding(),
            n == self.encoding().len(),
    {
        let start = out.len();
        encode_instrs(&self.0, out);
        out.push(0x0B);
        assert(out@ =~= old(out)@ + self.encoding());
        out.len() - start
    }
}

impl Clone for Expr {
    /// A copy that encodes to the same bytes, and can be encoded exactly when
    /// the original can.
    fn clone(&self) -> (r: Self)
        ensures
            r.encoding() == self.encoding(),
            r.wf() == self.wf(),
    {
        let r = Expr(clone_instrs(&self.0));
        proof {
            lemma_same_instrs(self.0@, r.0@);
        }
        r
    }
}

} // verus!
