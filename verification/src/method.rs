//! The methods of a class (JVMS 4.6).
use vstd::prelude::*;
use crate::attribute::{
    Attribute, Code, CodeView, Exceptions, MethodParameters, RuntimeAnnotation,
    RuntimeAnnotationView,
};
use crate::decode::views;
use crate::desc_types::{MethodDescriptor, SpecMethodDescriptor};
use crate::flags::MethodAccessFlags;

verus! {

/// A method of a class: its flags, name and descriptor, and what its
/// attributes say of it.
#[derive(Debug, Default, Eq, PartialEq, Hash)]
pub struct Method {
    pub access_flags: MethodAccessFlags,
    pub name: String,
    pub descriptor: String,
    pub parsed_descriptor: MethodDescriptor,
    pub signature: String,
    pub code: Code,
    pub exceptions: Exceptions,
    pub method_params: Vec<MethodParameters>,
    pub synthetic: bool,
    pub deprecated: bool,
    pub runtime_annotations: Vec<RuntimeAnnotation>,
    pub attributes: Vec<Attribute>,
}

/// The mathematical value of a [`Method`].
pub struct MethodView {
    pub access_flags: MethodAccessFlags,
    pub name: Seq<char>,
    pub descriptor: Seq<char>,
    pub parsed_descriptor: SpecMethodDescriptor,
    pub signature: Seq<char>,
    pub code: CodeView,
    pub exceptions: Seq<Seq<char>>,
    pub method_params: Seq<MethodParameters>,
    pub synthetic: bool,
    pub deprecated: bool,
    pub runtime_annotations: Seq<RuntimeAnnotationView>,
    pub attributes: Seq<Attribute>,
}

impl View for Method {
    type V = MethodView;

    open spec fn view(&self) -> MethodView {
        MethodView {
            access_flags: self.access_flags,
            name: self.name@,
            descriptor: self.descriptor@,
            parsed_descriptor: self.parsed_descriptor@,
            signature: self.signature@,
            code: self.code@,
            exceptions: self.exceptions@,
            method_params: self.method_params@,
            synthetic: self.synthetic,
            deprecated: self.deprecated,
            runtime_annotations: views(self.runtime_annotations@),
            attributes: self.attributes@,
        }
    }
}

impl Method {
    /// Whether the method is `static`.
    pub fn is_static(&self) -> (r: bool)
        ensures
            r == (self.access_flags.bits & MethodAccessFlags::STATIC == MethodAccessFlags::STATIC),
    {
        self.access_flags.contains(MethodAccessFlags::STATIC)
    }

    /// Whether the method is `native`.
    pub fn is_native(&self) -> (r: bool)
        ensures
            r == (self.access_flags.bits & MethodAccessFlags::NATIVE == MethodAccessFlags::NATIVE),
    {
        self.access_flags.contains(MethodAccessFlags::NATIVE)
    }

    /// The number of parameters the method's descriptor declares.
    pub fn num_params(&self) -> (n: usize)
        ensures
            n == self.parsed_descriptor@.params.len(),
    {
        self.parsed_descriptor.num_params()
    }

    /// A copy of the method's parsed descriptor.
    pub fn get_parsed_descriptor(&self) -> (d: MethodDescriptor)
        ensures
            d@ == self.parsed_descriptor@,
    {
        self.parsed_descriptor.duplicate()
    }
}

} // verus!
