use sumatra_parser::annotation::{ElementValue, TypePathEntry, TypeTarget};
use sumatra_parser::attribute::{RuntimeAnnotation, StackMapFrame};
use sumatra_parser::class_reader::{validate_cursor, ClassReader};
use sumatra_parser::constant::Constant;
use sumatra_parser::constant_pool::ConstantPool;
use sumatra_parser::error::ParseError;
use sumatra_parser::type_verification::VType;

fn pool_with(entries: Vec<Constant>) -> ConstantPool {
    let mut cp = ConstantPool::new(entries.len() + 1);
    cp.push(Constant::Dummy);
    for e in entries {
        cp.push(e);
    }
    cp
}

#[test]
fn reads_big_endian_numbers() {
    let mut r = ClassReader::with_buffer(&[0x12, 0x34, 0xFF, 0xFF, 0xFF, 0xFE, 0x80]);
    assert_eq!(r.read_u16(), Ok(0x1234));
    assert_eq!(r.read_i32(), Ok(-2));
    assert_eq!(r.read_i8(), Ok(-128));
    assert_eq!(r.position(), 7);
    assert_eq!(r.read_u8(), Err(ParseError::UnexpectedEof));
}

#[test]
fn reads_u64_and_i64() {
    let mut r = ClassReader::with_buffer(&[0, 0, 0, 1, 0, 0, 0, 2, 0xFF, 0xFF, 0xFF, 0xFF, 0xFF, 0xFF, 0xFF, 0xFF]);
    assert_eq!(r.read_u64(), Ok(0x1_0000_0002));
    assert_eq!(r.read_i64(), Ok(-1));
}

#[test]
fn reads_bytes_and_u16s() {
    let mut r = ClassReader::with_buffer(&[1, 2, 3, 0, 4, 0, 5]);
    assert_eq!(r.read_bytes(3), Ok(vec![1, 2, 3]));
    assert_eq!(r.read_u16s(2), Ok(vec![4, 5]));
    assert_eq!(r.read_bytes(1), Err(ParseError::UnexpectedEof));
}

#[test]
fn validate_cursor_checks_equality() {
    assert_eq!(validate_cursor(5, 5), Ok(()));
    assert_eq!(validate_cursor(5, 6), Err(ParseError::InvalidCursor));
}

#[test]
fn parses_constant_pool() {
    let bytes = [
        0, 5, // count: 4 entries follow
        1, 0, 2, b'h', b'i', // Utf8 "hi"
        6, 0x3F, 0xF0, 0, 0, 0, 0, 0, 0, // Double 1.0 (two entries)
        12, 0, 1, 0, 1, // NameAndType
    ];
    let mut r = ClassReader::with_buffer(&bytes);
    let cp = r.parse_cp().unwrap();
    assert_eq!(cp.len(), 5);
    assert_eq!(cp.get(0), Some(&Constant::Dummy));
    assert_eq!(cp.get(1), Some(&Constant::UTF8("hi".to_string())));
    assert_eq!(cp.get(2), Some(&Constant::Double(0x3FF0_0000_0000_0000)));
    assert_eq!(f64::from_bits(0x3FF0_0000_0000_0000), 1.0);
    assert_eq!(cp.get(3), Some(&Constant::Dummy));
    assert_eq!(cp.get(4), Some(&Constant::NameAndType { name_index: 1, descriptor_index: 1 }));
    assert_eq!(cp.get(5), None);
    assert_eq!(cp.get_utf8(1), Ok("hi"));
    assert_eq!(cp.get_utf8(4), Err(ParseError::InvalidIndex));
}

#[test]
fn constant_pool_count_zero_is_invalid() {
    let mut r = ClassReader::with_buffer(&[0, 0]);
    assert_eq!(r.parse_cp(), Err(ParseError::InvalidCount));
}

#[test]
fn unknown_constant_tag() {
    let mut r = ClassReader::with_buffer(&[0, 2, 2, 0, 0]);
    assert_eq!(r.parse_cp(), Err(ParseError::UnknownConstant));
}

#[test]
fn invalid_utf8_is_kept_as_bytes() {
    let mut r = ClassReader::with_buffer(&[0, 2, 1, 0, 2, 0xC3, 0x28]);
    let cp = r.parse_cp().unwrap();
    assert_eq!(cp.get(1), Some(&Constant::UTF8("\u{E8}".to_string())));
    let mut r = ClassReader::with_buffer(&[0, 2, 1, 0, 1, 0xFF]);
    let cp = r.parse_cp().unwrap();
    assert_eq!(cp.get(1), Some(&Constant::UnRecCharSet(vec![0xFF])));
}

#[test]
fn jvm_utf8_forms() {
    assert_eq!(ClassReader::parse_jvm_utf8(b"abc"), Ok("abc".to_string()));
    // two-byte form of U+00E9 and of NUL
    assert_eq!(ClassReader::parse_jvm_utf8(&[0xC3, 0xA9, 0xC0, 0x80]), Ok("\u{E9}\u{0}".to_string()));
    // three-byte form of U+20AC
    assert_eq!(ClassReader::parse_jvm_utf8(&[0xE2, 0x82, 0xAC]), Ok("\u{20AC}".to_string()));
    // a surrogate code point is refused
    assert_eq!(ClassReader::parse_jvm_utf8(&[0xED, 0xA0, 0x80]), Err(ParseError::InvalidUtf8));
    // cut short
    assert_eq!(ClassReader::parse_jvm_utf8(&[0xE2, 0x82]), Err(ParseError::InvalidUtf8));
    assert_eq!(ClassReader::parse_jvm_utf8(&[0xC3]), Err(ParseError::InvalidUtf8));
    // a four-byte lead byte is refused
    assert_eq!(ClassReader::parse_jvm_utf8(&[0xF0, 0x9F, 0x98, 0x80]), Err(ParseError::InvalidUtf8));
    assert_eq!(ClassReader::parse_jvm_utf8(&[]), Ok(String::new()));
}

#[test]
fn verification_types() {
    let mut r = ClassReader::with_buffer(&[1, 7, 0, 9, 8, 0, 3, 9]);
    assert_eq!(r.get_v_type(), Ok(VType::Integer));
    assert_eq!(r.get_v_type(), Ok(VType::Object(9)));
    assert_eq!(r.get_v_type(), Ok(VType::UninitVar(3)));
    assert_eq!(r.get_v_type(), Err(ParseError::InvalidVType));
    assert_eq!(VType::try_from(4), Ok(VType::Long));
    assert_eq!(VType::try_from(3), Ok(VType::Double));
}

#[test]
fn stack_map_frames() {
    let bytes = [
        0, 5, // count
        10, // same frame
        248, 0, 4, // chop
        252, 0, 6, 1, // append one Integer
        255, 0, 8, 0, 1, 2, 0, 1, 0, // full: locals Float, stack Top
        251, 0, 9, // same frame extended
    ];
    let mut r = ClassReader::with_buffer(&bytes);
    let t = r.parse_stack_map_table().unwrap();
    assert_eq!(
        t.0,
        vec![
            StackMapFrame::SameFrame,
            StackMapFrame::Chop(4),
            StackMapFrame::Append(6, vec![VType::Integer]),
            StackMapFrame::Full { offset: 8, locals: vec![VType::Float], stack: vec![VType::Top] },
            StackMapFrame::SameFrameExt(9),
        ]
    );
    let mut r = ClassReader::with_buffer(&[128]);
    assert_eq!(r.read_smf(), Err(ParseError::InvalidStackMapFrame));
    assert_eq!(StackMapFrame::try_from(250), Ok(StackMapFrame::Chop(0)));
    assert_eq!(
        StackMapFrame::try_from(255),
        Ok(StackMapFrame::Full { offset: 0, locals: vec![], stack: vec![] })
    );
    assert_eq!(StackMapFrame::try_from(200), Err(ParseError::InvalidStackMapFrame));
}

#[test]
fn local_variable_table_checks_names() {
    let cp = pool_with(vec![Constant::UTF8("i".to_string()), Constant::Integer(1)]);
    let ok = [0, 1, 0, 0, 0, 5, 0, 1, 0, 1, 0, 0];
    let mut r = ClassReader::with_buffer(&ok);
    let t = r.parse_local_var_table(&cp).unwrap();
    assert_eq!(t.0.len(), 1);
    assert_eq!(t.0[0].len, 5);
    let bad = [0, 1, 0, 0, 0, 5, 0, 2, 0, 1, 0, 0];
    let mut r = ClassReader::with_buffer(&bad);
    assert_eq!(r.parse_local_var_table(&cp), Err(ParseError::InvalidIndex));
}

#[test]
fn exception_table_catch_types() {
    let cp = pool_with(vec![Constant::UTF8("E".to_string()), Constant::Class(1)]);
    let ok = [0, 2, 0, 0, 0, 4, 0, 5, 0, 0, 0, 0, 0, 4, 0, 6, 0, 2];
    let mut r = ClassReader::with_buffer(&ok);
    let t = r.parse_exceptions_table(&cp).unwrap();
    assert_eq!(t.len(), 2);
    assert_eq!(t[1].catch_type, 2);
    let bad = [0, 1, 0, 0, 0, 4, 0, 5, 0, 1];
    let mut r = ClassReader::with_buffer(&bad);
    assert_eq!(r.parse_exceptions_table(&cp), Err(ParseError::InvalidIndex));
}

#[test]
fn element_values_nest() {
    let cp = pool_with(vec![
        Constant::UTF8("LAnno;".to_string()),
        Constant::Integer(3),
        Constant::UTF8("value".to_string()),
    ]);
    // [ of two: I #2, @ annotation #1 with one pair (value = I #2)
    let bytes = [b'[', 0, 2, b'I', 0, 2, b'@', 0, 1, 0, 1, 0, 3, b'I', 0, 2];
    let mut r = ClassReader::with_buffer(&bytes);
    let v = r.parse_element_value(&cp).unwrap();
    match v {
        ElementValue::Array(items) => {
            assert_eq!(items.len(), 2);
            assert_eq!(items[0], ElementValue::ConstIndex(2));
            match &items[1] {
                ElementValue::AnnotationValue(a) => {
                    assert_eq!(a.type_index, 1);
                    assert_eq!(a.value_pairs.len(), 1);
                    assert_eq!(a.value_pairs[0].0, 3);
                },
                _ => panic!("not an annotation"),
            }
        },
        _ => panic!("not an array"),
    }
    assert_eq!(r.position(), bytes.len());
}

#[test]
fn element_value_constant_kinds() {
    let cp = pool_with(vec![Constant::Integer(3)]);
    let mut r = ClassReader::with_buffer(&[b'J', 0, 1]);
    assert_eq!(r.parse_element_value(&cp), Err(ParseError::InvalidIndex));
    let mut r = ClassReader::with_buffer(&[b'x', 0, 1]);
    assert_eq!(r.parse_element_value(&cp), Err(ParseError::InvalidElementValue));
    let mut r = ClassReader::with_buffer(&[b'c', 0, 7]);
    assert_eq!(r.parse_element_value(&cp), Ok(ElementValue::ClassIndex(7)));
}

#[test]
fn type_targets_and_paths() {
    let mut r = ClassReader::with_buffer(&[0x11, 1, 2, 0x40, 0, 1, 0, 0, 0, 3, 0, 4, 0x20]);
    assert_eq!(
        r.parse_type_target(),
        Ok(TypeTarget::TypeParameterBound { value: 0x11, type_parameter_index: 1, bound_index: 2 })
    );
    match r.parse_type_target().unwrap() {
        TypeTarget::LocalVar { value, target_table } => {
            assert_eq!(value, 0x40);
            assert_eq!(target_table.0.len(), 1);
            assert_eq!(target_table.0[0].index, 4);
        },
        _ => panic!("not a local variable target"),
    }
    assert_eq!(r.parse_type_target(), Err(ParseError::InvalidTypeTarget));
    let mut r = ClassReader::with_buffer(&[2, 0, 0, 3, 1]);
    let p = r.parse_type_path().unwrap();
    assert_eq!(
        p.0,
        vec![
            TypePathEntry { type_path_kind: 0, type_arg_index: 0 },
            TypePathEntry { type_path_kind: 3, type_arg_index: 1 },
        ]
    );
}

#[test]
fn runtime_annotation_names() {
    let cp = pool_with(vec![Constant::UTF8("LAnno;".to_string())]);
    let mut r = ClassReader::with_buffer(&[0, 1, 0, 1, 0, 0]);
    match r.parse_runtime_anno(&cp, "RuntimeVisibleAnnotations").unwrap() {
        RuntimeAnnotation::RuntimeVisibleAnnotations(v) => {
            assert_eq!(v.len(), 1);
            assert_eq!(v[0].type_index, 1);
        },
        _ => panic!("wrong kind"),
    }
    let mut r = ClassReader::with_buffer(&[0, 0]);
    assert_eq!(r.parse_runtime_anno(&cp, "Nonsense"), Err(ParseError::InvalidAnnotation));
}

#[test]
fn module_attribute() {
    let cp = pool_with(vec![
        Constant::UTF8("m".to_string()), // 1
        Constant::Module(1),             // 2
        Constant::Package(1),            // 3
        Constant::Class(1),              // 4
    ]);
    let bytes = [
        0, 1, 0, 0x20, 0, 0, // name, flags OPEN, version
        0, 1, 0, 2, 0, 0x20, 0, 1, // one requires: module 2, TRANSITIVE, version 1
        0, 1, 0, 3, 0, 0, 0, 1, 0, 3, // one exports: package 3 to package 3
        0, 0, // opens
        0, 1, 0, 4, // uses class 4
        0, 1, 0, 4, 0, 1, 0, 4, // provides class 4 with class 4
    ];
    let mut r = ClassReader::with_buffer(&bytes);
    let m = r.parse_module_attr(&cp).unwrap();
    assert_eq!(m.module_flags.bits, 0x20);
    assert_eq!(m.requires.len(), 1);
    assert_eq!(m.requires[0].requires_index, 2);
    assert_eq!(m.exports[0].exports_to_index, vec![3]);
    assert_eq!(m.uses, vec![4]);
    assert_eq!(m.provides[0].provides_with_index, vec![4]);
    // an unknown module flag
    let mut r = ClassReader::with_buffer(&[0, 1, 0, 0x01, 0, 0]);
    assert_eq!(r.parse_module_attr(&cp), Err(ParseError::InvalidFlags));
}

#[test]
fn bootstrap_methods_only_once() {
    let mut r = ClassReader::with_buffer(&[0, 1, 0, 7, 0, 2, 0, 1, 0, 2]);
    let mut seen = false;
    let b = r.parse_btstrp_methods_attr(&mut seen).unwrap();
    assert!(seen);
    assert_eq!(b.0.len(), 1);
    assert_eq!(b.0[0].btstr_args, vec![1, 2]);
    assert_eq!(r.parse_btstrp_methods_attr(&mut seen), Err(ParseError::InvalidAttribute));
}

#[test]
fn one_byte_type_target_indices() {
    let mut r = ClassReader::with_buffer(&[0x16, 0x02, 0xAA]);
    assert_eq!(
        r.parse_type_target(),
        Ok(TypeTarget::FormalParameter { value: 0x16, formal_param_index: 2 })
    );
    assert_eq!(r.position(), 2);
    let mut r = ClassReader::with_buffer(&[0x01, 0x03, 0x47, 0x00, 0x05, 0x01]);
    assert_eq!(r.parse_type_target(), Ok(TypeTarget::TypeParameter { value: 0x01, type_param_index: 3 }));
    assert_eq!(
        r.parse_type_target(),
        Ok(TypeTarget::TypeArgument { value: 0x47, offset: 5, type_arg_index: 1 })
    );
    assert_eq!(r.position(), 6);
}

#[test]
fn method_handle_reference_kinds() {
    let mut r = ClassReader::with_buffer(&[0, 2, 15, 0, 0, 1]);
    assert_eq!(r.parse_cp(), Err(ParseError::InvalidReferenceKind));
    let mut r = ClassReader::with_buffer(&[0, 2, 15, 10, 0, 1]);
    assert_eq!(r.parse_cp(), Err(ParseError::InvalidReferenceKind));
    let mut r = ClassReader::with_buffer(&[0, 2, 15, 6, 0, 1]);
    let cp = r.parse_cp().unwrap();
    assert_eq!(cp.get(1), Some(&Constant::MethodHandle { reference_kind: 6, reference_index: 1 }));
}

#[test]
fn six_byte_supplementary_characters() {
    let grin = [0xEDu8, 0xA0, 0xBD, 0xED, 0xB8, 0x80];
    assert_eq!(ClassReader::parse_jvm_utf8(&grin), Ok("\u{1F600}".to_string()));
    let mut text = b"a".to_vec();
    text.extend_from_slice(&grin);
    text.push(b'b');
    assert_eq!(ClassReader::parse_jvm_utf8(&text), Ok("a\u{1F600}b".to_string()));
    // a high surrogate alone is still refused
    assert_eq!(ClassReader::parse_jvm_utf8(&[0xED, 0xA0, 0xBD, 0x41]), Err(ParseError::InvalidUtf8));
}

#[test]
fn bmp_text_reads_back_from_its_utf8_bytes() {
    for s in ["", "plain", "\u{E9}t\u{E9}", "\u{20AC}\u{D7FF}\u{E000}\u{FFFF}", "mixed \u{7FF} \u{800}"] {
        assert_eq!(ClassReader::parse_jvm_utf8(s.as_bytes()), Ok(s.to_string()));
    }
}
