use sumatra_parser::desc_types::{
    ArrayType, FieldDescriptor, FieldType, MethodDescriptor, Params, Primitive, ReturnDescriptor,
};

const STRING: &str = "java/lang/String;";
const OBJECT: &str = "java/lang/Object;";
const X509: &str = "javax/security/cert/X509Certificate;";

#[test]
fn test_ftype_object() {
    let desc = format!("{}{}", "L", STRING);
    let f_type = desc.parse::<FieldType>().unwrap();
    assert_eq!(f_type, FieldType::Object(STRING.to_string()))
}

#[test]
fn test_ftype_base() {
    let desc = "I";
    let f_type = desc.parse::<FieldType>().unwrap();
    assert_eq!(f_type, FieldType::Base(Primitive::Int))
}

#[test]
fn test_ftype_array_object() {
    let desc = "[[Ljava/lang/String;";
    let (f_type, remainder) = FieldType::parse_and_remainder(desc).unwrap();
    assert!(remainder.is_empty());
    assert_eq!(f_type, FieldType::Array(ArrayType::Object(STRING.to_string()), 2))
}

#[test]
fn test_ftype_array_primitive() {
    let desc = "[[[J";
    let f_type = desc.parse::<FieldType>().unwrap();
    assert_eq!(f_type, FieldType::Array(ArrayType::Primitive(Primitive::Long), 3))
}

#[test]
fn test_return_desc_void() {
    let desc = "V";
    let r_type = desc.parse::<ReturnDescriptor>().unwrap();
    assert_eq!(r_type, ReturnDescriptor::Void);
}

#[test]
fn test_return_desc_non_void() {
    let desc = "[[[[[[[[[[Z";
    let r_type = desc.parse::<ReturnDescriptor>().unwrap();
    assert_eq!(
        r_type,
        ReturnDescriptor::NonVoid(FieldType::Array(ArrayType::Primitive(Primitive::Boolean), 10))
    );
}

#[test]
fn test_method_desc_non_void() {
    let desc = "(Ljava/lang/String;I)Z";
    let should_be = MethodDescriptor(
        Params(vec![FieldType::Object(STRING.to_string()), FieldType::Base(Primitive::Int)]),
        ReturnDescriptor::NonVoid(FieldType::Base(Primitive::Boolean)),
    );
    let m_desc = desc.parse::<MethodDescriptor>().unwrap();
    assert_eq!(m_desc, should_be);
}

#[test]
fn test_method_desc2_non_void() {
    let desc = "(Ljava/lang/String;IJSBLjava/lang/Object;)[[Z";
    let should_be = MethodDescriptor(
        Params(vec![
            FieldType::Object(STRING.to_string()),
            FieldType::Base(Primitive::Int),
            FieldType::Base(Primitive::Long),
            FieldType::Base(Primitive::Short),
            FieldType::Base(Primitive::Byte),
            FieldType::Object(OBJECT.to_string()),
        ]),
        ReturnDescriptor::NonVoid(FieldType::Array(ArrayType::Primitive(Primitive::Boolean), 2)),
    );
    let m_desc = desc.parse::<MethodDescriptor>().unwrap();
    assert_eq!(m_desc, should_be);
}

#[test]
fn test_method_desc3_non_void() {
    let desc = "([B)Ljavax/security/cert/X509Certificate;";
    let should_be = MethodDescriptor(
        Params(vec![FieldType::Array(ArrayType::Primitive(Primitive::Byte), 1)]),
        ReturnDescriptor::NonVoid(FieldType::Object(X509.to_string())),
    );
    let m_desc = desc.parse::<MethodDescriptor>().unwrap();
    assert_eq!(m_desc, should_be);
}

#[test]
fn test_field_desc() {
    let desc = "[[[J";
    let should_be = FieldDescriptor(FieldType::Array(ArrayType::Primitive(Primitive::Long), 3));
    let f_desc = desc.parse::<FieldDescriptor>().unwrap();
    assert_eq!(f_desc, should_be);
}

#[test]
#[should_panic]
fn invalid_field_desc_empty() {
    let desc = "";
    let _ = desc.parse::<FieldDescriptor>().unwrap();
}

#[test]
#[should_panic]
fn invalid_field_desc_array() {
    let desc = "[";
    let _ = desc.parse::<FieldDescriptor>().unwrap();
}

#[test]
#[should_panic]
fn invalid_ftype() {
    let desc = "java/lang/Object";
    let _ = desc.parse::<FieldType>().unwrap();
}

#[test]
#[should_panic]
fn invalid_ftype_empty() {
    let desc = "";
    let _ = desc.parse::<FieldType>().unwrap();
}

#[test]
#[should_panic]
fn invalid_method_desc() {
    let desc = "(Ljava/lang/Object;V";
    let _ = desc.parse::<MethodDescriptor>().unwrap();
}

#[test]
#[should_panic]
fn invalid_method_desc2() {
    let desc = "()";
    let _ = desc.parse::<MethodDescriptor>().unwrap();
}

#[test]
#[should_panic]
fn invalid_method_desc_empty() {
    let desc = "";
    let _ = desc.parse::<MethodDescriptor>().unwrap();
}

#[test]
#[should_panic]
fn invalid_return_desc_extra_text() {
    let desc = "IJ";
    let _ = desc.parse::<ReturnDescriptor>().unwrap();
}

#[test]
#[should_panic]
fn invalid_return_desc_empty() {
    let desc = "";
    let _ = desc.parse::<ReturnDescriptor>().unwrap();
}

#[test]
fn one_dimensional_primitive_arrays() {
    assert_eq!(
        FieldType::parse_and_remainder("[I"),
        Ok((FieldType::Array(ArrayType::Primitive(Primitive::Int), 1), ""))
    );
    assert_eq!(
        "[B".parse::<FieldType>(),
        Ok(FieldType::Array(ArrayType::Primitive(Primitive::Byte), 1))
    );
    assert_eq!(
        "([BI)V".parse::<MethodDescriptor>().unwrap().num_params(),
        2
    );
}

#[test]
fn complete_field_type_leaves_the_rest() {
    assert_eq!(
        FieldType::parse_and_remainder("[IJLfoo;"),
        Ok((FieldType::Array(ArrayType::Primitive(Primitive::Int), 1), "JLfoo;"))
    );
    assert_eq!(FieldType::parse_and_remainder("Ix"), Ok((FieldType::Base(Primitive::Int), "x")));
}

#[test]
fn return_descriptor_follows_field_type_unless_v() {
    for s in ["I", "[J", "Ljava/lang/String;", "", "X", "II", "[", "\u{E9}"] {
        assert_eq!(s.parse::<ReturnDescriptor>(), s.parse::<FieldType>().map(ReturnDescriptor::NonVoid));
    }
    assert_eq!("V".parse::<ReturnDescriptor>(), Ok(ReturnDescriptor::Void));
    assert!("VV".parse::<ReturnDescriptor>().is_err());
    assert!("V;".parse::<ReturnDescriptor>().is_err());
}
