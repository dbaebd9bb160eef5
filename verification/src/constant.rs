//! The entries of a class file's constant pool (JVMS 4.4).
use vstd::prelude::*;

verus! {

/// A constant pool entry. Floating-point constants are kept as the bits the
/// class file stores for them.
#[derive(Debug, Default, PartialEq, Clone)]
pub enum Constant {
    /// The unused slot at index 0, or the slot after a `Long` or `Double`.
    #[default]
    Dummy,
    /// A UTF8 constant
    UTF8(String),
    /// A UTF8 constant whose bytes are not valid modified UTF-8.
    UnRecCharSet(Vec<u8>),
    /// A Java `int`
    Integer(i32),
    /// A Java `float`, as its IEEE 754 bits.
    Float(u32),
    /// A Java `long`
    Long(i64),
    /// A Java `double`, as its IEEE 754 bits.
    Double(u64),
    /// A Java Class. Stored value is the index of the name.
    Class(usize),
    /// A Java `String`.
    String(usize),
    /// Metadata for a class field.
    FieldRef { class_index: usize, name_and_type_index: usize },
    /// Metadata for a class method.
    MethodRef { class_index: usize, name_and_type_index: usize },
    /// Metadata for an interface method.
    InterfaceMethodRef { class_index: usize, name_and_type_index: usize },
    /// A field or method name and descriptor, without its class.
    NameAndType { name_index: usize, descriptor_index: usize },
    /// A method handle: its kind (1 to 9) and the entry it refers to.
    MethodHandle { reference_kind: u8, reference_index: usize },
    /// A method type. The `usize` is the index of the UTF8 method descriptor.
    MethodType(usize),
    Dynamic { bootstrap_method_attr_index: usize, name_and_type_index: usize },
    InvokeDynamic { bootstrap_method_attr_index: usize, name_and_type_index: usize },
    Module(usize),
    Package(usize),
}

/// The mathematical value of a [`Constant`]: strings and byte vectors become
/// sequences.
pub enum ConstantView {
    Dummy,
    Utf8(Seq<char>),
    UnRecCharSet(Seq<u8>),
    Integer(i32),
    Float(u32),
    Long(i64),
    Double(u64),
    Class(usize),
    String(usize),
    FieldRef { class_index: usize, name_and_type_index: usize },
    MethodRef { class_index: usize, name_and_type_index: usize },
    InterfaceMethodRef { class_index: usize, name_and_type_index: usize },
    NameAndType { name_index: usize, descriptor_index: usize },
    MethodHandle { reference_kind: u8, reference_index: usize },
    MethodType(usize),
    Dynamic { bootstrap_method_attr_index: usize, name_and_type_index: usize },
    InvokeDynamic { bootstrap_method_attr_index: usize, name_and_type_index: usize },
    Module(usize),
    Package(usize),
}

impl View for Constant {
    type V = ConstantView;

    open spec fn view(&self) -> ConstantView {
        match self {
            Constant::Dummy => ConstantView::Dummy,
            Constant::UTF8(s) => ConstantView::Utf8(s@),
            Constant::UnRecCharSet(b) => ConstantView::UnRecCharSet(b@),
            Constant::Integer(x) => ConstantView::Integer(*x),
            Constant::Float(x) => ConstantView::Float(*x),
            Constant::Long(x) => ConstantView::Long(*x),
            Constant::Double(x) => ConstantView::Double(*x),
            Constant::Class(x) => ConstantView::Class(*x),
            Constant::String(x) => ConstantView::String(*x),
            Constant::FieldRef { class_index, name_and_type_index } => ConstantView::FieldRef {
                class_index: *class_index,
                name_and_type_index: *name_and_type_index,
            },
            Constant::MethodRef { class_index, name_and_type_index } => ConstantView::MethodRef {
                class_index: *class_index,
                name_and_type_index: *name_and_type_index,
            },
            Constant::InterfaceMethodRef { class_index, name_and_type_index } =>
                ConstantView::InterfaceMethodRef {
                class_index: *class_index,
                name_and_type_index: *name_and_type_index,
            },
            Constant::NameAndType { name_index, descriptor_index } => ConstantView::NameAndType {
                name_index: *name_index,
                descriptor_index: *descriptor_index,
            },
            Constant::MethodHandle { reference_kind, reference_index } =>
                ConstantView::MethodHandle {
                reference_kind: *reference_kind,
                reference_index: *reference_index,
            },
            Constant::MethodType(x) => ConstantView::MethodType(*x),
            Constant::Dynamic { bootstrap_method_attr_index, name_and_type_index } =>
                ConstantView::Dynamic {
                bootstrap_method_attr_index: *bootstrap_method_attr_index,
                name_and_type_index: *name_and_type_index,
            },
            Constant::InvokeDynamic { bootstrap_method_attr_index, name_and_type_index } =>
                ConstantView::InvokeDynamic {
                bootstrap_method_attr_index: *bootstrap_method_attr_index,
                name_and_type_index: *name_and_type_index,
            },
            Constant::Module(x) => ConstantView::Module(*x),
            Constant::Package(x) => ConstantView::Package(*x),
        }
    }
}

} // verus!
