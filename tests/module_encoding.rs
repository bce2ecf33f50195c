use wasm_builder::instr::{Expr, Instruction, Literal, MemoryType as NumType};
use wasm_builder::module::Module;
use wasm_builder::sections::{Data, Desc, Element, Export, Function, Global, Import, Local};
use wasm_builder::types::{FunctionType, GlobalType, Limits, MemoryType, TableType, ValType};

const PROLOGUE: [u8; 8] = [0x00, 0x61, 0x73, 0x6D, 0x01, 0x00, 0x00, 0x00];

fn encoded(module: &Module) -> Vec<u8> {
    let mut out = Vec::new();
    module.encode(&mut out);
    out
}

fn adder_module() -> Module<'static> {
    let mut module = Module::new();
    let add = Function {
        locals: vec![],
        body: Expr(vec![
            Instruction::LocalGet(0),
            Instruction::LocalGet(1),
            Instruction::Add(NumType::Float),
        ]),
    };
    module.types.push(FunctionType {
        parameter_types: vec![ValType::F32, ValType::F32],
        return_types: vec![ValType::F32],
    });
    module.functions.push(0);
    module.code.push(add);
    module.exports.push(Export {
        name: String::from("add"),
        desc: Desc::Function(0),
    });
    module
}

#[test]
fn adder() {
    let expected: Vec<u8> = vec![
        0x00, 0x61, 0x73, 0x6D, 0x01, 0x00, 0x00, 0x00, 0x01, 0x07, 0x01, 0x60, 0x02, 0x7D, 0x7D,
        0x01, 0x7D, 0x03, 0x02, 0x01, 0x00, 0x07, 0x07, 0x01, 0x03, 0x61, 0x64, 0x64, 0x00, 0x00,
        0x0A, 0x09, 0x01, 0x07, 0x00, 0x20, 0x00, 0x20, 0x01, 0x92, 0x0B,
    ];
    assert_eq!(encoded(&adder_module()), expected);
}

#[test]
fn empty_module_is_prologue_only() {
    assert_eq!(encoded(&Module::new()), PROLOGUE.to_vec());
}

#[test]
fn encode_appends_to_the_sink() {
    let mut out = vec![0xAA, 0xBB];
    Module::new().encode(&mut out);
    let mut expected = vec![0xAA, 0xBB];
    expected.extend_from_slice(&PROLOGUE);
    assert_eq!(out, expected);
}

#[test]
fn encoding_is_deterministic() {
    let module = adder_module();
    let first = encoded(&module);
    let mut second = vec![1, 2, 3];
    module.encode(&mut second);
    assert_eq!(&second[3..], &first[..]);
    assert_eq!(encoded(&adder_module()), first);
}

#[test]
fn memory_zero_to_one_page() {
    let mut module = Module::new();
    module.memory.push(MemoryType {
        lim: Limits { min: 0, max: Some(1) },
    });
    let out = encoded(&module);
    assert_eq!(&out[..8], &PROLOGUE);
    assert_eq!(&out[8..], &[0x05, 0x04, 0x01, 0x01, 0x00, 0x01]);
}

#[test]
fn immutable_i32_global_42() {
    let mut module = Module::new();
    module.globals.push(Global {
        ty: GlobalType { ty: ValType::I32, mutable: false },
        init: Expr(vec![Instruction::Const(Literal::Int(42))]),
    });
    let out = encoded(&module);
    assert_eq!(&out[8..], &[0x06, 0x06, 0x01, 0x7F, 0x00, 0x41, 0x2A, 0x0B]);
}

#[test]
fn mutable_global_flag_is_one() {
    let mut module = Module::new();
    module.globals.push(Global {
        ty: GlobalType { ty: ValType::I64, mutable: true },
        init: Expr(vec![Instruction::Const(Literal::Long(-1))]),
    });
    let out = encoded(&module);
    assert_eq!(&out[8..], &[0x06, 0x06, 0x01, 0x7E, 0x01, 0x42, 0x7F, 0x0B]);
}

#[test]
fn start_section_has_id_eight() {
    let mut module = Module::new();
    module.start = Some(300);
    let out = encoded(&module);
    assert_eq!(&out[8..], &[0x08, 0x02, 0xAC, 0x02]);
}

#[test]
fn empty_collections_emit_no_section() {
    let mut module = Module::new();
    module.tables.push(TableType {
        lim: Limits { min: 1, max: None },
    });
    let out = encoded(&module);
    assert_eq!(&out[8..], &[0x04, 0x04, 0x01, 0x70, 0x00, 0x01]);
}

#[test]
fn sections_in_canonical_order() {
    let mut module = Module::new();
    module.data.push(Data {
        mem: 0,
        offset: Expr(vec![Instruction::Const(Literal::Int(8))]),
        init: b"hi",
    });
    module.imports.push(Import {
        module: String::from("env"),
        name: String::from("f"),
        desc: Desc::Function(0),
    });
    module.elements.push(Element {
        table: 0,
        offset: Expr(vec![Instruction::Const(Literal::Int(0))]),
        init: vec![0, 1],
    });
    let out = encoded(&module);
    let expected: Vec<u8> = vec![
        0x02, 0x09, 0x01, 0x03, b'e', b'n', b'v', 0x01, b'f', 0x00, 0x00, // imports
        0x09, 0x08, 0x01, 0x00, 0x41, 0x00, 0x0B, 0x02, 0x00, 0x01, // elements
        0x0B, 0x08, 0x01, 0x00, 0x41, 0x08, 0x0B, 0x02, b'h', b'i', // data
    ];
    assert_eq!(&out[8..], &expected[..]);
}

#[test]
fn code_entry_counts_locals_and_body() {
    let mut module = Module::new();
    module.code.push(Function {
        locals: vec![Local { n: 2, ty: ValType::I32 }, Local { n: 1, ty: ValType::F64 }],
        body: Expr(vec![Instruction::NOP]),
    });
    let out = encoded(&module);
    assert_eq!(
        &out[8..],
        &[0x0A, 0x09, 0x01, 0x07, 0x02, 0x02, 0x7F, 0x01, 0x7C, 0x01, 0x0B]
    );
}

#[test]
fn is_encodable_rejects_f32_narrow_load() {
    let mut module = adder_module();
    assert!(module.is_encodable());
    module.code.push(Function {
        locals: vec![],
        body: Expr(vec![Instruction::Block {
            ty: wasm_builder::instr::BlockType::Empty,
            instrs: vec![Instruction::Load {
                mem: wasm_builder::instr::MemoryArgument { alignment: 0, offset: 0 },
                ty: NumType::Float,
                storage: Some((true, wasm_builder::instr::StorageType::Byte)),
            }],
        }]),
    });
    assert!(!module.is_encodable());
}

#[test]
fn cloned_module_encodes_alike() {
    let mut module = adder_module();
    module.globals.push(Global {
        ty: GlobalType { ty: ValType::I32, mutable: false },
        init: Expr(vec![Instruction::Block {
            ty: wasm_builder::instr::BlockType::Type(ValType::I32),
            instrs: vec![
                Instruction::BranchTable { labels: vec![0, 1], operand: 2 },
                Instruction::Const(Literal::Int(7)),
            ],
        }]),
    });
    let copy = module.clone();
    assert_eq!(encoded(&copy), encoded(&module));
}
