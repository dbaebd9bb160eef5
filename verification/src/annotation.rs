//! Annotations, their element values and the targets of type annotations
//! (JVMS 4.7.16 to 4.7.22).
use vstd::prelude::*;
use crate::decode::views;

verus! {

/// An annotation: the index of its type's descriptor and its element-value
/// pairs.
#[derive(Debug, Eq, PartialEq, Hash)]
pub struct Annotation {
    pub type_index: usize,
    pub value_pairs: Vec<ElementPairs>,
}

/// An element-value pair: the index of the element's name and its value.
#[derive(Debug, Eq, PartialEq, Hash)]
pub struct ElementPairs(pub usize, pub ElementValue);

/// The value of an annotation element.
#[derive(Debug, Eq, PartialEq, Hash)]
pub enum ElementValue {
    ConstIndex(usize),
    EnumConst(usize, usize),
    ClassIndex(usize),
    AnnotationValue(Annotation),
    Array(Vec<ElementValue>),
}

/// The mathematical value of an [`ElementValue`].
pub enum ElementValueView {
    ConstIndex(usize),
    EnumConst(usize, usize),
    ClassIndex(usize),
    AnnotationValue(AnnotationView),
    Array(Seq<ElementValueView>),
}

/// The mathematical value of an [`Annotation`].
pub struct AnnotationView {
    pub type_index: usize,
    pub value_pairs: Seq<(usize, ElementValueView)>,
}

/// The mathematical value of an element value.
pub open spec fn element_value_view(e: ElementValue) -> ElementValueView
    decreases e,
{
    match e {
        ElementValue::ConstIndex(i) => ElementValueView::ConstIndex(i),
        ElementValue::EnumConst(a, b) => ElementValueView::EnumConst(a, b),
        ElementValue::ClassIndex(i) => ElementValueView::ClassIndex(i),
        ElementValue::AnnotationValue(a) => ElementValueView::AnnotationValue(
            AnnotationView {
                type_index: a.type_index,
                value_pairs: Seq::new(
                    a.value_pairs@.len(),
                    |i: int|
                        if 0 <= i < a.value_pairs@.len() {
                            (a.value_pairs@[i].0, element_value_view(a.value_pairs@[i].1))
                        } else {
                            (0, ElementValueView::ConstIndex(0))
                        },
                ),
            },
        ),
        ElementValue::Array(v) => ElementValueView::Array(
            Seq::new(
                v@.len(),
                |i: int|
                    if 0 <= i < v@.len() {
                        element_value_view(v@[i])
                    } else {
                        ElementValueView::ConstIndex(0)
                    },
            ),
        ),
    }
}

/// The mathematical value of an annotation.
pub open spec fn annotation_view(a: Annotation) -> AnnotationView {
    AnnotationView {
        type_index: a.type_index,
        value_pairs: views(a.value_pairs@),
    }
}

/// An array element value is the array of its elements' values.
pub proof fn lemma_array_view(v: Vec<ElementValue>)
    ensures
        element_value_view(ElementValue::Array(v)) == ElementValueView::Array(views(v@)),
{
    let a = element_value_view(ElementValue::Array(v));
    assert(a->Array_0 =~= views(v@));
}

/// A nested annotation element value is the value of the annotation.
pub proof fn lemma_annotation_value_view(a: Annotation)
    ensures
        element_value_view(ElementValue::AnnotationValue(a)) == ElementValueView::AnnotationValue(
            annotation_view(a),
        ),
{
    let e = element_value_view(ElementValue::AnnotationValue(a));
    assert(e->AnnotationValue_0.value_pairs =~= annotation_view(a).value_pairs);
}

impl View for ElementValue {
    type V = ElementValueView;

    open spec fn view(&self) -> ElementValueView {
        element_value_view(*self)
    }
}

impl View for ElementPairs {
    type V = (usize, ElementValueView);

    open spec fn view(&self) -> (usize, ElementValueView) {
        (self.0, element_value_view(self.1))
    }
}

impl View for Annotation {
    type V = AnnotationView;

    open spec fn view(&self) -> AnnotationView {
        annotation_view(*self)
    }
}

/// A type annotation: what it targets, where in the type it applies, the
/// index of its type's descriptor and its element-value pairs.
#[derive(Debug, Eq, PartialEq, Hash)]
pub struct TypeAnnotation {
    pub type_target: TypeTarget,
    pub type_path: TypePath,
    pub type_index: usize,
    pub value_pairs: Vec<ElementPairs>,
}

/// The mathematical value of a [`TypeAnnotation`].
pub struct TypeAnnotationView {
    pub type_target: TypeTargetView,
    pub type_path: Seq<TypePathEntry>,
    pub type_index: usize,
    pub value_pairs: Seq<(usize, ElementValueView)>,
}

impl View for TypeAnnotation {
    type V = TypeAnnotationView;

    open spec fn view(&self) -> TypeAnnotationView {
        TypeAnnotationView {
            type_target: self.type_target@,
            type_path: self.type_path@,
            type_index: self.type_index,
            value_pairs: views(self.value_pairs@),
        }
    }
}

/// What a type annotation targets; `value` is the `target_type` byte.
#[derive(Debug, Clone, Eq, PartialEq, Hash)]
pub enum TypeTarget {
    TypeParameter { value: u8, type_param_index: usize },
    SuperType { value: u8, supertype_index: usize },
    TypeParameterBound { value: u8, type_parameter_index: usize, bound_index: usize },
    Empty(u8),
    FormalParameter { value: u8, formal_param_index: usize },
    Throws { value: u8, throws_type_index: usize },
    LocalVar { value: u8, target_table: LocalVarTargetTable },
    Catch { value: u8, exception_table_index: usize },
    Offset { value: u8, offset: u16 },
    TypeArgument { value: u8, offset: u16, type_arg_index: usize },
}

/// The mathematical value of a [`TypeTarget`].
pub enum TypeTargetView {
    TypeParameter { value: u8, type_param_index: usize },
    SuperType { value: u8, supertype_index: usize },
    TypeParameterBound { value: u8, type_parameter_index: usize, bound_index: usize },
    Empty(u8),
    FormalParameter { value: u8, formal_param_index: usize },
    Throws { value: u8, throws_type_index: usize },
    LocalVar { value: u8, target_table: Seq<LocalVarTargetTableEntry> },
    Catch { value: u8, exception_table_index: usize },
    Offset { value: u8, offset: u16 },
    TypeArgument { value: u8, offset: u16, type_arg_index: usize },
}

impl View for TypeTarget {
    type V = TypeTargetView;

    open spec fn view(&self) -> TypeTargetView {
        match *self {
            TypeTarget::TypeParameter { value, type_param_index } =>
                TypeTargetView::TypeParameter { value, type_param_index },
            TypeTarget::SuperType { value, supertype_index } => TypeTargetView::SuperType {
                value,
                supertype_index,
            },
            TypeTarget::TypeParameterBound { value, type_parameter_index, bound_index } =>
                TypeTargetView::TypeParameterBound { value, type_parameter_index, bound_index },
            TypeTarget::Empty(v) => TypeTargetView::Empty(v),
            TypeTarget::FormalParameter { value, formal_param_index } =>
                TypeTargetView::FormalParameter { value, formal_param_index },
            TypeTarget::Throws { value, throws_type_index } => TypeTargetView::Throws {
                value,
                throws_type_index,
            },
            TypeTarget::LocalVar { value, target_table } => TypeTargetView::LocalVar {
                value,
                target_table: target_table@,
            },
            TypeTarget::Catch { value, exception_table_index } => TypeTargetView::Catch {
                value,
                exception_table_index,
            },
            TypeTarget::Offset { value, offset } => TypeTargetView::Offset { value, offset },
            TypeTarget::TypeArgument { value, offset, type_arg_index } =>
                TypeTargetView::TypeArgument { value, offset, type_arg_index },
        }
    }
}

/// The table of a local variable target: the ranges of code in which the
/// annotated variable lives.
#[derive(Debug, Clone, Eq, PartialEq, Hash)]
pub struct LocalVarTargetTable(pub Vec<LocalVarTargetTableEntry>);

impl View for LocalVarTargetTable {
    type V = Seq<LocalVarTargetTableEntry>;

    open spec fn view(&self) -> Seq<LocalVarTargetTableEntry> {
        self.0@
    }
}

/// One range of code in which an annotated local variable lives.
#[derive(Debug, Clone, Copy, Eq, PartialEq, Hash)]
pub struct LocalVarTargetTableEntry {
    pub start_pc: u16,
    pub length: u16,
    pub index: usize,
}

impl View for LocalVarTargetTableEntry {
    type V = LocalVarTargetTableEntry;

    open spec fn view(&self) -> LocalVarTargetTableEntry {
        *self
    }
}

/// Where in a type an annotation applies.
#[derive(Debug, Clone, Eq, PartialEq, Hash)]
pub struct TypePath(pub Vec<TypePathEntry>);

impl View for TypePath {
    type V = Seq<TypePathEntry>;

    open spec fn view(&self) -> Seq<TypePathEntry> {
        self.0@
    }
}

/// One step of a type path.
#[derive(Debug, Clone, Copy, Eq, PartialEq, Hash)]
pub struct TypePathEntry {
    pub type_path_kind: u8,
    pub type_arg_index: usize,
}

impl View for TypePathEntry {
    type V = TypePathEntry;

    open spec fn view(&self) -> TypePathEntry {
        *self
    }
}

/// The annotations of one formal parameter.
#[derive(Debug, Eq, PartialEq, Hash)]
pub struct ParameterAnnotation(pub Vec<Annotation>);

impl View for ParameterAnnotation {
    type V = Seq<AnnotationView>;

    open spec fn view(&self) -> Seq<AnnotationView> {
        views(self.0@)
    }
}

} // verus!
