use sumatra_parser::attribute::{LineNumberTableEntry, StackMapFrame};
use sumatra_parser::class_file::ClassFile;
use sumatra_parser::constant::Constant;
use sumatra_parser::desc_types::{ArrayType, FieldType, ReturnDescriptor};
use sumatra_parser::error::ParseError;
use sumatra_parser::instruction::Instruction;
use sumatra_parser::type_verification::VType;

fn u16b(v: u16) -> [u8; 2] {
    v.to_be_bytes()
}

fn u32b(v: u32) -> [u8; 4] {
    v.to_be_bytes()
}

fn utf8(out: &mut Vec<u8>, s: &str) {
    out.push(1);
    out.extend_from_slice(&u16b(s.len() as u16));
    out.extend_from_slice(s.as_bytes());
}

fn class_ref(out: &mut Vec<u8>, name: u16) {
    out.push(7);
    out.extend_from_slice(&u16b(name));
}

/// The constant pool shared by the class files of these tests.
fn pool() -> Vec<u8> {
    let mut cp = Vec::new();
    cp.extend_from_slice(&u16b(20));
    utf8(&mut cp, "Main"); // 1
    class_ref(&mut cp, 1); // 2
    utf8(&mut cp, "java/lang/Object"); // 3
    class_ref(&mut cp, 3); // 4
    utf8(&mut cp, "main"); // 5
    utf8(&mut cp, "([Ljava/lang/String;)V"); // 6
    utf8(&mut cp, "Code"); // 7
    utf8(&mut cp, "x"); // 8
    utf8(&mut cp, "I"); // 9
    utf8(&mut cp, "SourceFile"); // 10
    utf8(&mut cp, "Main.java"); // 11
    cp.push(3); // 12: Integer 42
    cp.extend_from_slice(&u32b(42));
    utf8(&mut cp, "ConstantValue"); // 13
    cp.push(5); // 14 and 15: Long 5
    cp.extend_from_slice(&[0, 0, 0, 0, 0, 0, 0, 5]);
    utf8(&mut cp, "LineNumberTable"); // 16
    utf8(&mut cp, "StackMapTable"); // 17
    utf8(&mut cp, "Signature"); // 18
    utf8(&mut cp, "Custom"); // 19
    cp
}

fn code_attr() -> Vec<u8> {
    let code: [u8; 6] = [3, 153, 0, 4, 177, 177];
    let mut body = Vec::new();
    body.extend_from_slice(&u16b(1)); // max_stack
    body.extend_from_slice(&u16b(1)); // max_locals
    body.extend_from_slice(&u32b(code.len() as u32));
    body.extend_from_slice(&code);
    body.extend_from_slice(&u16b(0)); // exception table
    body.extend_from_slice(&u16b(2)); // attributes
    body.extend_from_slice(&u16b(16)); // LineNumberTable
    body.extend_from_slice(&u32b(6));
    body.extend_from_slice(&u16b(1));
    body.extend_from_slice(&u16b(0));
    body.extend_from_slice(&u16b(7));
    body.extend_from_slice(&u16b(17)); // StackMapTable
    body.extend_from_slice(&u32b(7));
    body.extend_from_slice(&u16b(2));
    body.push(5); // same frame
    body.push(64); // same locals, one stack item
    body.push(7); // Object
    body.extend_from_slice(&u16b(2));
    let mut attr = Vec::new();
    attr.extend_from_slice(&u16b(7));
    attr.extend_from_slice(&u32b(body.len() as u32));
    attr.extend_from_slice(&body);
    attr
}

/// A class file with one constant field, one method with code, and a
/// `SourceFile` attribute; `flags` are the class flags and `extra_class_attrs`
/// are appended to the class attributes.
fn class_file(magic: u32, flags: u16, extra_class_attrs: &[Vec<u8>]) -> Vec<u8> {
    let mut b = Vec::new();
    b.extend_from_slice(&u32b(magic));
    b.extend_from_slice(&u16b(0));
    b.extend_from_slice(&u16b(65));
    b.extend_from_slice(&pool());
    b.extend_from_slice(&u16b(flags));
    b.extend_from_slice(&u16b(2));
    b.extend_from_slice(&u16b(4));
    b.extend_from_slice(&u16b(0)); // interfaces
    b.extend_from_slice(&u16b(1)); // fields
    b.extend_from_slice(&u16b(0x0019));
    b.extend_from_slice(&u16b(8));
    b.extend_from_slice(&u16b(9));
    b.extend_from_slice(&u16b(1));
    b.extend_from_slice(&u16b(13));
    b.extend_from_slice(&u32b(2));
    b.extend_from_slice(&u16b(12));
    b.extend_from_slice(&u16b(1)); // methods
    b.extend_from_slice(&u16b(0x0009));
    b.extend_from_slice(&u16b(5));
    b.extend_from_slice(&u16b(6));
    b.extend_from_slice(&u16b(1));
    b.extend_from_slice(&code_attr());
    b.extend_from_slice(&u16b(1 + extra_class_attrs.len() as u16));
    b.extend_from_slice(&u16b(10));
    b.extend_from_slice(&u32b(2));
    b.extend_from_slice(&u16b(11));
    for a in extra_class_attrs {
        b.extend_from_slice(a);
    }
    b
}

fn attr(name: u16, body: &[u8]) -> Vec<u8> {
    let mut a = Vec::new();
    a.extend_from_slice(&u16b(name));
    a.extend_from_slice(&u32b(body.len() as u32));
    a.extend_from_slice(body);
    a
}

#[test]
fn parses_a_small_class_file() {
    let bytes = class_file(0xCAFEBABE, 0x0021, &[]);
    let cf = ClassFile::parse_from_buffer(&bytes).unwrap();
    assert_eq!(cf.major_version, 65);
    assert_eq!(cf.this_class, 2);
    assert_eq!(cf.super_class, 4);
    assert_eq!(cf.get_utf8(1), Ok("Main"));
    assert_eq!(cf.get_utf8(2), Err(ParseError::InvalidIndex));
    assert_eq!(cf.cp.len(), 20);
    assert_eq!(cf.cp.get(14), Some(&Constant::Long(5)));
    assert_eq!(cf.cp.get(15), Some(&Constant::Dummy));
    assert_eq!(cf.fields.len(), 1);
    assert_eq!(cf.fields[0].name, "x");
    assert_eq!(cf.fields[0].constant_value, Constant::Integer(42));
    assert_eq!(cf.fields[0].parsed_descriptor.0, FieldType::Base(sumatra_parser::desc_types::Primitive::Int));
    let m = &cf.methods[0];
    assert_eq!(m.name, "main");
    assert!(m.is_static());
    assert!(!m.is_native());
    assert_eq!(m.num_params(), 1);
    let d = m.get_parsed_descriptor();
    assert_eq!(d.0 .0, vec![FieldType::Array(ArrayType::Object("java/lang/String;".to_string()), 1)]);
    assert_eq!(d.1, ReturnDescriptor::Void);
    assert_eq!(
        m.code.op_code,
        vec![Instruction::IConst0, Instruction::Ifeq(3), Instruction::Return, Instruction::Return]
    );
    assert_eq!(
        m.code.line_number_table.0,
        vec![LineNumberTableEntry { start_pc: 0, line_number: 7 }]
    );
    assert_eq!(
        m.code.stack_map_table.0,
        vec![StackMapFrame::SameFrame, StackMapFrame::SameLocals(VType::Object(2))]
    );
    assert_eq!(cf.attributes.source_file.0, 11);
}

#[test]
fn wrong_magic_is_invalid() {
    let bytes = class_file(0xCAFEBABF, 0x0021, &[]);
    assert!(matches!(ClassFile::parse_from_buffer(&bytes), Err(ParseError::InvalidMagic)));
}

#[test]
fn truncated_file_is_unexpected_eof() {
    let bytes = class_file(0xCAFEBABE, 0x0021, &[]);
    for cut in [3usize, 9, 40, bytes.len() - 1] {
        assert!(matches!(
            ClassFile::parse_from_buffer(&bytes[..cut]),
            Err(ParseError::UnexpectedEof)
        ));
    }
}

#[test]
fn unknown_class_flag_is_invalid() {
    let bytes = class_file(0xCAFEBABE, 0x0002, &[]);
    assert!(matches!(ClassFile::parse_from_buffer(&bytes), Err(ParseError::InvalidFlags)));
}

#[test]
fn second_signature_is_invalid() {
    let sig = attr(18, &u16b(1));
    let bytes = class_file(0xCAFEBABE, 0x0021, &[sig.clone()]);
    let cf = ClassFile::parse_from_buffer(&bytes).unwrap();
    assert_eq!(cf.attributes.signature, "Main");
    let bytes = class_file(0xCAFEBABE, 0x0021, &[sig.clone(), sig]);
    assert!(matches!(ClassFile::parse_from_buffer(&bytes), Err(ParseError::InvalidAttribute)));
}

#[test]
fn unrecognized_attribute_is_skipped() {
    let custom = attr(19, &[1, 2, 3]);
    let bytes = class_file(0xCAFEBABE, 0x0021, &[custom]);
    assert!(ClassFile::parse_from_buffer(&bytes).is_ok());
}

#[test]
fn attribute_length_must_match() {
    let mut sig = attr(18, &u16b(1));
    sig[5] = 3; // declared length 3, body 2
    sig.push(0);
    let bytes = class_file(0xCAFEBABE, 0x0021, &[sig]);
    assert!(matches!(ClassFile::parse_from_buffer(&bytes), Err(ParseError::InvalidCursor)));
}

#[test]
fn attribute_name_must_be_utf8() {
    let bad = attr(2, &[]);
    let bytes = class_file(0xCAFEBABE, 0x0021, &[bad]);
    assert!(matches!(ClassFile::parse_from_buffer(&bytes), Err(ParseError::InvalidIndex)));
}

#[test]
fn byte_array_field_descriptor() {
    // The class above with its field's descriptor "I" replaced by "[B".
    let bytes = class_file(0xCAFEBABE, 0x0021, &[]);
    let at = bytes.windows(4).position(|w| w == [1, 0, 1, b'I']).unwrap();
    let mut patched = bytes[..at].to_vec();
    patched.extend_from_slice(&[1, 0, 2, b'[', b'B']);
    patched.extend_from_slice(&bytes[at + 4..]);
    let cf = ClassFile::parse_from_buffer(&patched).unwrap();
    assert_eq!(cf.fields[0].descriptor, "[B");
    assert_eq!(
        cf.fields[0].parsed_descriptor.0,
        FieldType::Array(ArrayType::Primitive(sumatra_parser::desc_types::Primitive::Byte), 1)
    );
}
