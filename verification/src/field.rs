//! The fields of a class (JVMS 4.5).
use vstd::prelude::*;
use crate::attribute::{RuntimeAnnotation, RuntimeAnnotationView};
use crate::constant::{Constant, ConstantView};
use crate::decode::views;
use crate::desc_types::{FieldDescriptor, SpecFieldType};
use crate::flags::FieldAccessFlags;

verus! {

/// A field of a class: its flags, name and descriptor, and what its
/// attributes say of it.
#[derive(Debug, Default, PartialEq)]
pub struct Field {
    pub access_flags: FieldAccessFlags,
    pub name: String,
    pub descriptor: String,
    pub parsed_descriptor: FieldDescriptor,
    pub signature: String,
    pub constant_value: Constant,
    pub synthetic: bool,
    pub deprecated: bool,
    pub runtime_annotations: Vec<RuntimeAnnotation>,
}

/// The mathematical value of a [`Field`].
pub struct FieldView {
    pub access_flags: FieldAccessFlags,
    pub name: Seq<char>,
    pub descriptor: Seq<char>,
    pub parsed_descriptor: SpecFieldType,
    pub signature: Seq<char>,
    pub constant_value: ConstantView,
    pub synthetic: bool,
    pub deprecated: bool,
    pub runtime_annotations: Seq<RuntimeAnnotationView>,
}

impl View for Field {
    type V = FieldView;

    open spec fn view(&self) -> FieldView {
        FieldView {
            access_flags: self.access_flags,
            name: self.name@,
            descriptor: self.descriptor@,
            parsed_descriptor: self.parsed_descriptor@,
            signature: self.signature@,
            constant_value: self.constant_value@,
            synthetic: self.synthetic,
            deprecated: self.deprecated,
            runtime_annotations: views(self.runtime_annotations@),
        }
    }
}

} // verus!
