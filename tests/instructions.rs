use wasm_builder::instr::{
    encode_instrs, BlockType, Expr, FloatType, Instruction, IntegerType, Literal, MemoryArgument,
    MemoryType, StorageType,
};
use wasm_builder::types::ValType;

fn bytes(i: Instruction) -> Vec<u8> {
    assert!(i.is_encodable());
    let mut out = Vec::new();
    let n = i.encode(&mut out);
    assert_eq!(n, out.len());
    out
}

fn mem(alignment: u32, offset: u32) -> MemoryArgument {
    MemoryArgument { alignment, offset }
}

#[test]
fn br_table_labels_and_default() {
    let i = Instruction::BranchTable { labels: vec![1, 2], operand: 0 };
    assert_eq!(bytes(i), vec![0x0E, 0x02, 0x01, 0x02, 0x00]);
}

#[test]
fn i64_const_minus_one() {
    assert_eq!(bytes(Instruction::Const(Literal::Long(-1))), vec![0x42, 0x7F]);
}

#[test]
fn constants() {
    assert_eq!(bytes(Instruction::Const(Literal::Int(42))), vec![0x41, 0x2A]);
    assert_eq!(bytes(Instruction::Const(Literal::Int(-128))), vec![0x41, 0x80, 0x7F]);
    assert_eq!(
        bytes(Instruction::Const(Literal::Float(1.0f32.to_bits()))),
        vec![0x43, 0x00, 0x00, 0x80, 0x3F]
    );
    let mut expected = vec![0x44];
    expected.extend_from_slice(&0.1f64.to_le_bytes());
    assert_eq!(bytes(Instruction::Const(Literal::Double(0.1f64.to_bits()))), expected);
}

#[test]
fn control_instructions() {
    assert_eq!(bytes(Instruction::Unreachable), vec![0x00]);
    assert_eq!(bytes(Instruction::Branch(3)), vec![0x0C, 0x03]);
    assert_eq!(bytes(Instruction::BranchIf(200)), vec![0x0D, 0xC8, 0x01]);
    assert_eq!(bytes(Instruction::Return), vec![0x0F]);
    assert_eq!(bytes(Instruction::Call(5)), vec![0x10, 0x05]);
    assert_eq!(bytes(Instruction::CallIndirect(2)), vec![0x11, 0x02, 0x00]);
    assert_eq!(bytes(Instruction::Drop), vec![0x1A]);
    assert_eq!(bytes(Instruction::Select), vec![0x1B]);
}

#[test]
fn blocks_nest_and_end() {
    let i = Instruction::Block {
        ty: BlockType::Empty,
        instrs: vec![Instruction::Loop {
            ty: BlockType::Type(ValType::I32),
            instrs: vec![Instruction::NOP],
        }],
    };
    assert_eq!(bytes(i), vec![0x02, 0x40, 0x03, 0x7F, 0x01, 0x0B, 0x0B]);
    let i = Instruction::Block { ty: BlockType::TypeIdx(64), instrs: vec![] };
    assert_eq!(bytes(i), vec![0x02, 0xC0, 0x00, 0x0B]);
}

#[test]
fn if_with_and_without_else() {
    let i = Instruction::If {
        ty: BlockType::Empty,
        accept_instrs: vec![Instruction::NOP],
        reject_instrs: None,
    };
    assert_eq!(bytes(i), vec![0x04, 0x40, 0x01, 0x0B]);
    let i = Instruction::If {
        ty: BlockType::Type(ValType::F64),
        accept_instrs: vec![Instruction::Const(Literal::Int(1))],
        reject_instrs: Some(vec![Instruction::Const(Literal::Int(2))]),
    };
    assert_eq!(bytes(i), vec![0x04, 0x7C, 0x41, 0x01, 0x05, 0x41, 0x02, 0x0B]);
}

#[test]
fn variable_instructions() {
    assert_eq!(bytes(Instruction::LocalGet(0)), vec![0x20, 0x00]);
    assert_eq!(bytes(Instruction::LocalSet(1)), vec![0x21, 0x01]);
    assert_eq!(bytes(Instruction::LocalTee(2)), vec![0x22, 0x02]);
    assert_eq!(bytes(Instruction::GlobalGet(3)), vec![0x23, 0x03]);
    assert_eq!(bytes(Instruction::GlobalSet(300)), vec![0x24, 0xAC, 0x02]);
}

#[test]
fn loads_and_stores() {
    let load = |ty, storage| Instruction::Load { mem: mem(2, 16), ty, storage };
    assert_eq!(bytes(load(MemoryType::Int, None)), vec![0x28, 0x02, 0x10]);
    assert_eq!(bytes(load(MemoryType::Double, None)), vec![0x2B, 0x02, 0x10]);
    assert_eq!(bytes(load(MemoryType::Int, Some((false, StorageType::Short)))), vec![0x2F, 0x02, 0x10]);
    assert_eq!(bytes(load(MemoryType::Long, Some((true, StorageType::Byte)))), vec![0x30, 0x02, 0x10]);
    assert_eq!(bytes(load(MemoryType::Long, Some((false, StorageType::Int)))), vec![0x35, 0x02, 0x10]);
    let store = |ty, storage| Instruction::Store { mem: mem(0, 128), ty, storage };
    assert_eq!(bytes(store(MemoryType::Float, None)), vec![0x38, 0x00, 0x80, 0x01]);
    assert_eq!(bytes(store(MemoryType::Int, Some(StorageType::Byte))), vec![0x3A, 0x00, 0x80, 0x01]);
    assert_eq!(bytes(store(MemoryType::Long, Some(StorageType::Int))), vec![0x3E, 0x00, 0x80, 0x01]);
    assert_eq!(bytes(Instruction::MemorySize), vec![0x3F, 0x00]);
    assert_eq!(bytes(Instruction::MemoryGrow), vec![0x40, 0x00]);
}

#[test]
fn unrepresentable_combinations_are_not_encodable() {
    let i = Instruction::Load { mem: mem(0, 0), ty: MemoryType::Int, storage: Some((true, StorageType::Int)) };
    assert!(!i.is_encodable());
    let i = Instruction::Store { mem: mem(0, 0), ty: MemoryType::Double, storage: Some(StorageType::Byte) };
    assert!(!i.is_encodable());
    let i = Instruction::Extend { ty: IntegerType::Int, base: StorageType::Int };
    assert!(!i.is_encodable());
    let e = Expr(vec![Instruction::Loop { ty: BlockType::Empty, instrs: vec![i] }]);
    assert!(!e.is_encodable());
}

#[test]
fn numeric_opcodes() {
    assert_eq!(bytes(Instruction::EqualZero(IntegerType::Long)), vec![0x50]);
    assert_eq!(bytes(Instruction::Equal(MemoryType::Double)), vec![0x61]);
    assert_eq!(bytes(Instruction::LessThanInt { ty: IntegerType::Int, signed: false }), vec![0x49]);
    assert_eq!(bytes(Instruction::GreaterOrEqualInt { ty: IntegerType::Long, signed: true }), vec![0x59]);
    assert_eq!(bytes(Instruction::GreaterOrEqualFloat(FloatType::Double)), vec![0x66]);
    assert_eq!(bytes(Instruction::CountOnes(IntegerType::Long)), vec![0x7B]);
    assert_eq!(bytes(Instruction::Add(MemoryType::Float)), vec![0x92]);
    assert_eq!(bytes(Instruction::IntDivision { ty: IntegerType::Long, signed: false }), vec![0x80]);
    assert_eq!(bytes(Instruction::Remainder { ty: IntegerType::Int, signed: true }), vec![0x6F]);
    assert_eq!(bytes(Instruction::ShiftRight { ty: IntegerType::Long, signed: false }), vec![0x88]);
    assert_eq!(bytes(Instruction::CopySign(FloatType::Double)), vec![0xA6]);
}

#[test]
fn rotations_follow_the_binary_format() {
    assert_eq!(bytes(Instruction::LeftRotation(IntegerType::Int)), vec![0x77]);
    assert_eq!(bytes(Instruction::RightRotation(IntegerType::Int)), vec![0x78]);
    assert_eq!(bytes(Instruction::LeftRotation(IntegerType::Long)), vec![0x89]);
    assert_eq!(bytes(Instruction::RightRotation(IntegerType::Long)), vec![0x8A]);
}

#[test]
fn conversions() {
    assert_eq!(bytes(Instruction::IntWrap), vec![0xA7]);
    assert_eq!(bytes(Instruction::IntExtend(false)), vec![0xAD]);
    assert_eq!(
        bytes(Instruction::IntTruncate { ty: IntegerType::Long, float: FloatType::Double, signed: true }),
        vec![0xB0]
    );
    assert_eq!(
        bytes(Instruction::Convert { ty: FloatType::Double, int: IntegerType::Int, signed: false }),
        vec![0xB8]
    );
    assert_eq!(bytes(Instruction::FloatDemote), vec![0xB6]);
    assert_eq!(bytes(Instruction::FloatPromote), vec![0xBB]);
    assert_eq!(bytes(Instruction::DoubleReinterpret), vec![0xBF]);
    assert_eq!(bytes(Instruction::Extend { ty: IntegerType::Long, base: StorageType::Int }), vec![0xC4]);
    assert_eq!(bytes(Instruction::Extend { ty: IntegerType::Int, base: StorageType::Short }), vec![0xC1]);
}

#[test]
fn saturating_truncations() {
    assert_eq!(
        bytes(Instruction::SaturateTruncate { ty: IntegerType::Int, float: FloatType::Float, signed: true }),
        vec![0xFC, 0x00]
    );
    assert_eq!(
        bytes(Instruction::SaturateTruncate { ty: IntegerType::Long, float: FloatType::Double, signed: false }),
        vec![0xFC, 0x07]
    );
}

#[test]
fn expressions_end_with_end_byte() {
    let mut out = Vec::new();
    let e = Expr(vec![Instruction::LocalGet(0), Instruction::Drop]);
    assert_eq!(e.encode(&mut out), 4);
    assert_eq!(out, vec![0x20, 0x00, 0x1A, 0x0B]);
    let mut out = Vec::new();
    assert_eq!(encode_instrs(&vec![], &mut out), 0);
    assert!(out.is_empty());
}
