use wasm_builder::sections::encode_custom_section;
use wasm_builder::types::{
    encode_f32, encode_f64, encode_i32, encode_i64, encode_index_vec, encode_len, encode_name,
    encode_result_type, encode_u32, encode_val_type, encode_vec, FunctionType, GlobalType, Limits,
    TableType, ValType,
};

fn u32_bytes(v: u32) -> Vec<u8> {
    let mut out = Vec::new();
    let n = encode_u32(&mut out, v);
    assert_eq!(n, out.len());
    out
}

fn i32_bytes(v: i32) -> Vec<u8> {
    let mut out = Vec::new();
    let n = encode_i32(&mut out, v);
    assert_eq!(n, out.len());
    out
}

fn i64_bytes(v: i64) -> Vec<u8> {
    let mut out = Vec::new();
    let n = encode_i64(&mut out, v);
    assert_eq!(n, out.len());
    out
}

#[test]
fn unsigned_leb128_values() {
    assert_eq!(u32_bytes(0), vec![0x00]);
    assert_eq!(u32_bytes(127), vec![0x7F]);
    assert_eq!(u32_bytes(128), vec![0x80, 0x01]);
    assert_eq!(u32_bytes(300), vec![0xAC, 0x02]);
    assert_eq!(u32_bytes(624485), vec![0xE5, 0x8E, 0x26]);
    assert_eq!(u32_bytes(u32::MAX), vec![0xFF, 0xFF, 0xFF, 0xFF, 0x0F]);
}

#[test]
fn signed_leb128_values() {
    assert_eq!(i32_bytes(0), vec![0x00]);
    assert_eq!(i32_bytes(-1), vec![0x7F]);
    assert_eq!(i32_bytes(63), vec![0x3F]);
    assert_eq!(i32_bytes(64), vec![0xC0, 0x00]);
    assert_eq!(i32_bytes(-64), vec![0x40]);
    assert_eq!(i32_bytes(-65), vec![0xBF, 0x7F]);
    assert_eq!(i32_bytes(-123456), vec![0xC0, 0xBB, 0x78]);
    assert_eq!(i32_bytes(i32::MIN), vec![0x80, 0x80, 0x80, 0x80, 0x78]);
    assert_eq!(i32_bytes(i32::MAX), vec![0xFF, 0xFF, 0xFF, 0xFF, 0x07]);
    assert_eq!(i64_bytes(-1), vec![0x7F]);
    assert_eq!(i64_bytes(i64::MIN).len(), 10);
    assert_eq!(i64_bytes(i64::MAX).len(), 10);
}

#[test]
fn leb128_round_trips() {
    for v in [0u32, 1, 127, 128, 16383, 16384, 1 << 21, 1 << 28, u32::MAX] {
        let bytes = u32_bytes(v);
        assert!(bytes.len() <= 5);
        assert_eq!(bytes.last().unwrap() & 0x80, 0);
        let mut r = &bytes[..];
        assert_eq!(leb128::read::unsigned(&mut r).unwrap(), v as u64);
    }
    for v in [0i64, -1, 63, 64, -64, -65, i32::MIN as i64, i32::MAX as i64, i64::MIN, i64::MAX] {
        let bytes = i64_bytes(v);
        assert!(bytes.len() <= 10);
        assert_eq!(bytes.last().unwrap() & 0x80, 0);
        let mut r = &bytes[..];
        assert_eq!(leb128::read::signed(&mut r).unwrap(), v);
    }
    for v in [0i32, -1, 1000, -1000, i32::MIN, i32::MAX] {
        let bytes = i32_bytes(v);
        assert!(bytes.len() <= 5);
        let mut r = &bytes[..];
        assert_eq!(leb128::read::signed(&mut r).unwrap(), v as i64);
    }
}

#[test]
fn lengths_above_u32_use_more_groups() {
    let mut out = Vec::new();
    encode_len(&mut out, 1usize << 35);
    assert_eq!(out, vec![0x80, 0x80, 0x80, 0x80, 0x80, 0x01]);
}

#[test]
fn floats_are_little_endian_bits() {
    let nan = f32::from_bits(0x7FC0_0001);
    let mut out = Vec::new();
    assert_eq!(encode_f32(&mut out, nan.to_bits()), 4);
    assert_eq!(out, nan.to_le_bytes().to_vec());
    let mut out = Vec::new();
    encode_f32(&mut out, 1.5f32.to_bits());
    assert_eq!(out, vec![0x00, 0x00, 0xC0, 0x3F]);
    let nan64 = f64::from_bits(0xFFF8_0000_0000_0ABC);
    let mut out = Vec::new();
    assert_eq!(encode_f64(&mut out, nan64.to_bits()), 8);
    assert_eq!(out, nan64.to_le_bytes().to_vec());
    let mut out = Vec::new();
    encode_f64(&mut out, (-2.0f64).to_bits());
    assert_eq!(out, (-2.0f64).to_le_bytes().to_vec());
}

#[test]
fn byte_vector_framing() {
    let bytes: Vec<u8> = (0..200u32).map(|i| i as u8).collect();
    let mut out = Vec::new();
    let n = encode_vec(&mut out, &bytes, bytes.len());
    assert_eq!(n, 202);
    assert_eq!(&out[..2], &[0xC8, 0x01]);
    assert_eq!(&out[2..], &bytes[..]);
    let mut out = Vec::new();
    assert_eq!(encode_vec(&mut out, &[], 0), 1);
    assert_eq!(out, vec![0x00]);
}

#[test]
fn names_count_utf8_bytes() {
    let mut out = Vec::new();
    let n = encode_name(&mut out, "héllo");
    assert_eq!(n, 7);
    assert_eq!(out, vec![0x06, b'h', 0xC3, 0xA9, b'l', b'l', b'o']);
    let mut out = Vec::new();
    encode_name(&mut out, "");
    assert_eq!(out, vec![0x00]);
}

#[test]
fn value_types_and_result_types() {
    let mut out = Vec::new();
    for ty in [ValType::I32, ValType::I64, ValType::F32, ValType::F64] {
        assert_eq!(encode_val_type(&mut out, ty), 1);
    }
    assert_eq!(out, vec![0x7F, 0x7E, 0x7D, 0x7C]);
    let mut out = Vec::new();
    encode_result_type(&mut out, &[ValType::I64, ValType::F64]);
    assert_eq!(out, vec![0x02, 0x7E, 0x7C]);
}

#[test]
fn type_descriptors() {
    let mut out = Vec::new();
    Limits { min: 1, max: None }.encode(&mut out);
    Limits { min: 2, max: Some(200) }.encode(&mut out);
    assert_eq!(out, vec![0x00, 0x01, 0x01, 0x02, 0xC8, 0x01]);
    let mut out = Vec::new();
    TableType { lim: Limits { min: 0, max: None } }.encode(&mut out);
    GlobalType { ty: ValType::F32, mutable: true }.encode(&mut out);
    assert_eq!(out, vec![0x70, 0x00, 0x00, 0x7D, 0x01]);
    let mut out = Vec::new();
    FunctionType { parameter_types: vec![], return_types: vec![ValType::I32, ValType::I32] }
        .encode(&mut out);
    assert_eq!(out, vec![0x60, 0x00, 0x02, 0x7F, 0x7F]);
}

#[test]
fn index_vectors() {
    let mut out = Vec::new();
    encode_index_vec(&mut out, &[1, 128, 3]);
    assert_eq!(out, vec![0x03, 0x01, 0x80, 0x01, 0x03]);
}

#[test]
fn custom_section_frames_its_payload() {
    let mut out = Vec::new();
    encode_custom_section(&mut out, "n", &[0xDE, 0xAD]);
    assert_eq!(out, vec![0x00, 0x04, 0x01, b'n', 0xDE, 0xAD]);
}
