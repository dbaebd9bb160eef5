//! The attributes of classes, fields, methods, `Code` attributes and record
//! components (JVMS 4.7).
use vstd::prelude::*;
use crate::decode::views;
use crate::annotation::{
    Annotation, AnnotationView, ElementPairs, ElementValueView, ParameterAnnotation,
    TypeAnnotation, TypeAnnotationView,
};
use crate::error::ParseError;
use crate::flags::{
    ExportFlags, InnerClassAccessFlags, MethodParamAccessFlags, ModuleFlags, OpenFlags,
    RequiresFlags,
};
use crate::instruction::Instruction;
use crate::type_verification::VType;

verus! {

/// An attribute kept for its name only.
#[derive(Debug, Clone, Eq, PartialEq, Hash)]
pub struct Attribute;

/// The attributes of a class file.
#[derive(Debug, Default, Eq, PartialEq, Hash)]
pub struct ClassFileAttributes {
    pub source_file: SourceFile,
    pub inner_classes: InnerClasses,
    pub enclosing_method: EnclosingMethod,
    pub source_debug_extension: SourceDebugExtension,
    pub synthetic: bool,
    pub signature: String,
    pub bootstrap_methods: BootstrapMethods,
    pub module: Module,
    pub module_packages: ModulePackages,
    pub module_main_class: ModuleMainClass,
    pub nest_host: NestHost,
    pub nest_members: NestMembers,
    pub record: Record,
    pub permitted_subclasses: PermittedSubclasses,
    pub runtime_annotations: Vec<RuntimeAnnotation>,
}

/// The mathematical value of [`ClassFileAttributes`].
pub struct ClassAttrsView {
    pub source_file: usize,
    pub inner_classes: Seq<InnerClassInfo>,
    pub enclosing_method: EnclosingMethod,
    pub source_debug_extension: Seq<u8>,
    pub synthetic: bool,
    pub signature: Seq<char>,
    pub bootstrap_methods: Seq<(u16, Seq<u16>)>,
    pub module: ModuleView,
    pub module_packages: Seq<usize>,
    pub module_main_class: usize,
    pub nest_host: usize,
    pub nest_members: Seq<usize>,
    pub record: Seq<RecordComponentView>,
    pub permitted_subclasses: Seq<usize>,
    pub runtime_annotations: Seq<RuntimeAnnotationView>,
}

impl View for ClassFileAttributes {
    type V = ClassAttrsView;

    open spec fn view(&self) -> ClassAttrsView {
        ClassAttrsView {
            source_file: self.source_file.0,
            inner_classes: self.inner_classes@,
            enclosing_method: self.enclosing_method,
            source_debug_extension: self.source_debug_extension@,
            synthetic: self.synthetic,
            signature: self.signature@,
            bootstrap_methods: self.bootstrap_methods@,
            module: self.module@,
            module_packages: self.module_packages@,
            module_main_class: self.module_main_class.0,
            nest_host: self.nest_host.0,
            nest_members: self.nest_members@,
            record: self.record@,
            permitted_subclasses: self.permitted_subclasses@,
            runtime_annotations: views(self.runtime_annotations@),
        }
    }
}

/// The frames of a `StackMapTable` attribute.
#[derive(Debug, Default, Eq, PartialEq, Hash, Clone)]
pub struct StackMapTable(pub Vec<StackMapFrame>);

impl View for StackMapTable {
    type V = Seq<FrameView>;

    open spec fn view(&self) -> Seq<FrameView> {
        views(self.0@)
    }
}

/// The names of the classes a method declares it throws.
#[derive(Debug, Default, Eq, PartialEq, Hash, Clone)]
pub struct Exceptions(pub Vec<String>);

impl View for Exceptions {
    type V = Seq<Seq<char>>;

    open spec fn view(&self) -> Seq<Seq<char>> {
        views(self.0@)
    }
}

/// The entries of an `InnerClasses` attribute.
#[derive(Debug, Default, Eq, PartialEq, Hash, Clone)]
pub struct InnerClasses(pub Vec<InnerClassInfo>);

impl View for InnerClasses {
    type V = Seq<InnerClassInfo>;

    open spec fn view(&self) -> Seq<InnerClassInfo> {
        self.0@
    }
}

/// The class and method that enclose a local or anonymous class.
#[derive(Debug, Default, Eq, PartialEq, Hash, Clone, Copy)]
pub struct EnclosingMethod {
    pub class_index: usize,
    pub method_index: usize,
}

#[derive(Debug, Default, Eq, PartialEq, Hash, Clone)]
pub struct Synthetic;

#[derive(Debug, Default, Eq, PartialEq, Hash, Clone)]
pub struct Signature(pub u16);

/// The index of the name of the source file.
#[derive(Debug, Default, Eq, PartialEq, Hash, Clone, Copy)]
pub struct SourceFile(pub usize);

/// The bytes of a `SourceDebugExtension` attribute.
#[derive(Debug, Default, Eq, PartialEq, Hash, Clone)]
pub struct SourceDebugExtension(pub Vec<u8>);

impl View for SourceDebugExtension {
    type V = Seq<u8>;

    open spec fn view(&self) -> Seq<u8> {
        self.0@
    }
}

/// The entries of a `LineNumberTable` attribute.
#[derive(Debug, Default, Eq, PartialEq, Hash, Clone)]
pub struct LineNumberTable(pub Vec<LineNumberTableEntry>);

impl View for LineNumberTable {
    type V = Seq<LineNumberTableEntry>;

    open spec fn view(&self) -> Seq<LineNumberTableEntry> {
        self.0@
    }
}

/// The entries of a `LocalVariableTable` attribute.
#[derive(Debug, Default, Eq, PartialEq, Hash, Clone)]
pub struct LocalVariableTable(pub Vec<LocalVarTableEntry>);

impl View for LocalVariableTable {
    type V = Seq<LocalVarTableEntry>;

    open spec fn view(&self) -> Seq<LocalVarTableEntry> {
        self.0@
    }
}

/// The entries of a `LocalVariableTypeTable` attribute.
#[derive(Debug, Default, Eq, PartialEq, Hash, Clone)]
pub struct LocalVariableTypeTable(pub Vec<LocalVarTypeEntry>);

impl View for LocalVariableTypeTable {
    type V = Seq<LocalVarTypeEntry>;

    open spec fn view(&self) -> Seq<LocalVarTypeEntry> {
        self.0@
    }
}

#[derive(Debug, Default, Eq, PartialEq, Hash, Clone)]
pub struct Deprecated;

#[derive(Debug, Default, Eq, PartialEq, Hash, Clone)]
pub struct AnnotationDefault {
    pub attribute_name_index: usize,
    pub attributes: Vec<u8>,
}

/// The entries of a `BootstrapMethods` attribute.
#[derive(Debug, Default, Eq, PartialEq, Hash, Clone)]
pub struct BootstrapMethods(pub Vec<BootstrapMethod>);

impl View for BootstrapMethods {
    type V = Seq<(u16, Seq<u16>)>;

    open spec fn view(&self) -> Seq<(u16, Seq<u16>)> {
        views(self.0@)
    }
}

/// A formal parameter of a method: the index of its name (0 for none) and its
/// flags.
#[derive(Debug, Default, Eq, PartialEq, Hash, Clone, Copy)]
pub struct MethodParameters {
    pub name_index: usize,
    pub access_flags: MethodParamAccessFlags,
}

impl View for MethodParameters {
    type V = MethodParameters;

    open spec fn view(&self) -> MethodParameters {
        *self
    }
}

/// A `Module` attribute.
#[derive(Debug, Default, Eq, PartialEq, Hash, Clone)]
pub struct Module {
    pub module_name_index: usize,
    pub module_flags: ModuleFlags,
    pub module_ver_index: usize,
    pub requires: Vec<Requires>,
    pub exports: Vec<Exports>,
    pub opens: Vec<Opens>,
    pub uses: Vec<usize>,
    pub provides: Vec<Provides>,
}

/// The mathematical value of a [`Module`].
pub struct ModuleView {
    pub module_name_index: usize,
    pub module_flags: ModuleFlags,
    pub module_ver_index: usize,
    pub requires: Seq<Requires>,
    pub exports: Seq<(usize, ExportFlags, Seq<usize>)>,
    pub opens: Seq<(usize, OpenFlags, Seq<u16>)>,
    pub uses: Seq<usize>,
    pub provides: Seq<(usize, Seq<usize>)>,
}

impl View for Module {
    type V = ModuleView;

    open spec fn view(&self) -> ModuleView {
        ModuleView {
            module_name_index: self.module_name_index,
            module_flags: self.module_flags,
            module_ver_index: self.module_ver_index,
            requires: self.requires@,
            exports: views(self.exports@),
            opens: views(self.opens@),
            uses: self.uses@,
            provides: views(self.provides@),
        }
    }
}

/// The packages of a module, by the indices of their `Package` constants.
#[derive(Debug, Default, Eq, PartialEq, Hash, Clone)]
pub struct ModulePackages(pub Vec<usize>);

impl View for ModulePackages {
    type V = Seq<usize>;

    open spec fn view(&self) -> Seq<usize> {
        self.0@
    }
}

#[derive(Debug, Default, Eq, PartialEq, Hash, Clone, Copy)]
pub struct ModuleMainClass(pub usize);

#[derive(Debug, Default, Eq, PartialEq, Hash, Clone, Copy)]
pub struct NestHost(pub usize);

#[derive(Debug, Default, Eq, PartialEq, Hash, Clone)]
pub struct NestMembers(pub Vec<usize>);

impl View for NestMembers {
    type V = Seq<usize>;

    open spec fn view(&self) -> Seq<usize> {
        self.0@
    }
}

/// The components of a record class.
#[derive(Debug, Default, Eq, PartialEq, Hash)]
pub struct Record(pub Vec<RecordComponent>);

impl View for Record {
    type V = Seq<RecordComponentView>;

    open spec fn view(&self) -> Seq<RecordComponentView> {
        views(self.0@)
    }
}

#[derive(Debug, Default, Eq, PartialEq, Hash, Clone)]
pub struct PermittedSubclasses(pub Vec<usize>);

impl View for PermittedSubclasses {
    type V = Seq<usize>;

    open spec fn view(&self) -> Seq<usize> {
        self.0@
    }
}

#[derive(Debug, Default, Eq, PartialEq, Hash, Clone)]
pub struct Custom(pub Vec<u8>);

/// The `Code` attribute of a method: its limits, its instructions, its
/// exception handlers and the attributes of the code.
#[derive(Debug, Default, Eq, PartialEq, Hash, Clone)]
pub struct Code {
    pub max_stack: u16,
    pub max_locals: u16,
    pub op_code: Vec<Instruction>,
    pub exception_table: Vec<Exception>,
    pub line_number_table: LineNumberTable,
    pub local_var_table: LocalVariableTable,
    pub stack_map_table: StackMapTable,
    pub local_var_type_table: LocalVariableTypeTable,
    pub attributes: Vec<u8>,
}

/// The mathematical value of a [`Code`] attribute.
pub struct CodeView {
    pub max_stack: u16,
    pub max_locals: u16,
    pub op_code: Seq<(u8, Seq<int>)>,
    pub exception_table: Seq<Exception>,
    pub line_number_table: Seq<LineNumberTableEntry>,
    pub local_var_table: Seq<LocalVarTableEntry>,
    pub stack_map_table: Seq<FrameView>,
    pub local_var_type_table: Seq<LocalVarTypeEntry>,
    pub attributes: Seq<u8>,
}

impl View for Code {
    type V = CodeView;

    open spec fn view(&self) -> CodeView {
        CodeView {
            max_stack: self.max_stack,
            max_locals: self.max_locals,
            op_code: views(self.op_code@),
            exception_table: self.exception_table@,
            line_number_table: self.line_number_table@,
            local_var_table: self.local_var_table@,
            stack_map_table: self.stack_map_table@,
            local_var_type_table: self.local_var_type_table@,
            attributes: self.attributes@,
        }
    }
}

/// An exception handler of a `Code` attribute.
#[derive(Debug, Default, Eq, PartialEq, Hash, Clone, Copy)]
pub struct Exception {
    pub start_pc: u16,
    pub end_pc: u16,
    pub handler_pc: u16,
    pub catch_type: u16,
}

impl View for Exception {
    type V = Exception;

    open spec fn view(&self) -> Exception {
        *self
    }
}

/// A source line and the first instruction byte that belongs to it.
#[derive(Debug, Default, Eq, PartialEq, Hash, Clone, Copy)]
pub struct LineNumberTableEntry {
    pub start_pc: u16,
    pub line_number: u16,
}

impl View for LineNumberTableEntry {
    type V = LineNumberTableEntry;

    open spec fn view(&self) -> LineNumberTableEntry {
        *self
    }
}

/// A local variable, the range of code in which it lives, its name and its
/// descriptor.
#[derive(Debug, Default, Eq, PartialEq, Hash, Clone, Copy)]
pub struct LocalVarTableEntry {
    pub start_pc: u16,
    pub len: u16,
    pub name_index: usize,
    pub descriptor_index: usize,
    pub index: usize,
}

impl View for LocalVarTableEntry {
    type V = LocalVarTableEntry;

    open spec fn view(&self) -> LocalVarTableEntry {
        *self
    }
}

/// A local variable of generic type, the range of code in which it lives,
/// its name and its signature.
#[derive(Debug, Default, Eq, PartialEq, Hash, Clone, Copy)]
pub struct LocalVarTypeEntry {
    pub start_pc: u16,
    pub len: u16,
    pub name_index: usize,
    pub signature_index: usize,
    pub index: usize,
}

impl View for LocalVarTypeEntry {
    type V = LocalVarTypeEntry;

    open spec fn view(&self) -> LocalVarTypeEntry {
        *self
    }
}

/// A stack map frame.
#[derive(Debug, Default, Eq, PartialEq, Hash, Clone)]
pub enum StackMapFrame {
    SameFrame,
    SameLocals(VType),
    SameLocalsExt(u16, VType),
    Chop(u16),
    SameFrameExt(u16),
    Append(u16, Vec<VType>),
    Full { offset: u16, locals: Vec<VType>, stack: Vec<VType> },
    #[default]
    Invalid,
}

/// The mathematical value of a [`StackMapFrame`].
pub enum FrameView {
    SameFrame,
    SameLocals(VType),
    SameLocalsExt(u16, VType),
    Chop(u16),
    SameFrameExt(u16),
    Append(u16, Seq<VType>),
    Full { offset: u16, locals: Seq<VType>, stack: Seq<VType> },
    Invalid,
}

impl View for StackMapFrame {
    type V = FrameView;

    open spec fn view(&self) -> FrameView {
        match self {
            StackMapFrame::SameFrame => FrameView::SameFrame,
            StackMapFrame::SameLocals(v) => FrameView::SameLocals(*v),
            StackMapFrame::SameLocalsExt(o, v) => FrameView::SameLocalsExt(*o, *v),
            StackMapFrame::Chop(o) => FrameView::Chop(*o),
            StackMapFrame::SameFrameExt(o) => FrameView::SameFrameExt(*o),
            StackMapFrame::Append(o, l) => FrameView::Append(*o, l@),
            StackMapFrame::Full { offset, locals, stack } => FrameView::Full {
                offset: *offset,
                locals: locals@,
                stack: stack@,
            },
            StackMapFrame::Invalid => FrameView::Invalid,
        }
    }
}

/// An inner class: its `Class` constant, that of its outer class, its name
/// (each 0 where there is none) and its flags.
#[derive(Debug, Default, Eq, PartialEq, Hash, Clone, Copy)]
pub struct InnerClassInfo {
    pub inner_class_info_index: usize,
    pub outer_class_info_index: usize,
    pub inner_name_index: usize,
    pub inner_class_access_flags: InnerClassAccessFlags,
}

impl View for InnerClassInfo {
    type V = InnerClassInfo;

    open spec fn view(&self) -> InnerClassInfo {
        *self
    }
}

/// A bootstrap method: its method handle and its static arguments.
#[derive(Debug, Default, Eq, PartialEq, Hash, Clone)]
pub struct BootstrapMethod {
    pub btstr_mthd_ref: u16,
    pub btstr_args: Vec<u16>,
}

impl View for BootstrapMethod {
    type V = (u16, Seq<u16>);

    open spec fn view(&self) -> (u16, Seq<u16>) {
        (self.btstr_mthd_ref, self.btstr_args@)
    }
}

/// A module dependence.
#[derive(Debug, Default, Eq, PartialEq, Hash, Clone, Copy)]
pub struct Requires {
    pub requires_index: usize,
    pub requires_flags: RequiresFlags,
    pub requires_ver_index: usize,
}

impl View for Requires {
    type V = Requires;

    open spec fn view(&self) -> Requires {
        *self
    }
}

/// An exported package and the modules it is exported to.
#[derive(Debug, Default, Eq, PartialEq, Hash, Clone)]
pub struct Exports {
    pub exports_index: usize,
    pub exports_flags: ExportFlags,
    pub exports_to_index: Vec<usize>,
}

impl View for Exports {
    type V = (usize, ExportFlags, Seq<usize>);

    open spec fn view(&self) -> (usize, ExportFlags, Seq<usize>) {
        (self.exports_index, self.exports_flags, self.exports_to_index@)
    }
}

/// An opened package and the modules it is opened to.
#[derive(Debug, Default, Eq, PartialEq, Hash, Clone)]
pub struct Opens {
    pub opens_index: usize,
    pub opens_flags: OpenFlags,
    pub opens_to_index: Vec<u16>,
}

impl View for Opens {
    type V = (usize, OpenFlags, Seq<u16>);

    open spec fn view(&self) -> (usize, OpenFlags, Seq<u16>) {
        (self.opens_index, self.opens_flags, self.opens_to_index@)
    }
}

/// A service interface and the classes that implement it.
#[derive(Debug, Default, Eq, PartialEq, Hash, Clone)]
pub struct Provides {
    pub provides_index: usize,
    pub provides_with_index: Vec<usize>,
}

impl View for Provides {
    type V = (usize, Seq<usize>);

    open spec fn view(&self) -> (usize, Seq<usize>) {
        (self.provides_index, self.provides_with_index@)
    }
}

/// A component of a record class.
#[derive(Debug, Default, Eq, PartialEq, Hash)]
pub struct RecordComponent {
    pub name_index: usize,
    pub descriptor_index: usize,
    pub signature: String,
    pub runtime_annotations: Vec<RuntimeAnnotation>,
}

/// The mathematical value of a [`RecordComponent`].
pub struct RecordComponentView {
    pub name_index: usize,
    pub descriptor_index: usize,
    pub signature: Seq<char>,
    pub runtime_annotations: Seq<RuntimeAnnotationView>,
}

impl View for RecordComponent {
    type V = RecordComponentView;

    open spec fn view(&self) -> RecordComponentView {
        RecordComponentView {
            name_index: self.name_index,
            descriptor_index: self.descriptor_index,
            signature: self.signature@,
            runtime_annotations: views(self.runtime_annotations@),
        }
    }
}

/// Used to tell parsers if the attributes being parsed are for a
/// Class | Interface | Record.
#[derive(Debug, Default, Eq, PartialEq, Hash, Clone)]
pub enum ClassType {
    Class,
    Interface,
    Record,
    #[default]
    Invalid,
}

/// An annotation attribute.
#[derive(Debug, Default, Eq, PartialEq, Hash)]
pub enum RuntimeAnnotation {
    #[default]
    Invalid,
    RuntimeVisibleAnnotations(Vec<Annotation>),
    RuntimeInvisibleAnnotations(Vec<Annotation>),
    RuntimeVisibleParameterAnnotations(Vec<ParameterAnnotation>),
    RuntimeInvisibleParameterAnnotations(Vec<ParameterAnnotation>),
    RuntimeVisibleTypeAnnotations(Vec<TypeAnnotation>),
    RuntimeInvisibleTypeAnnotations(Vec<TypeAnnotation>),
    AnnotationDefault(ElementPairs),
}

/// The mathematical value of a [`RuntimeAnnotation`].
pub enum RuntimeAnnotationView {
    Invalid,
    RuntimeVisibleAnnotations(Seq<AnnotationView>),
    RuntimeInvisibleAnnotations(Seq<AnnotationView>),
    RuntimeVisibleParameterAnnotations(Seq<Seq<AnnotationView>>),
    RuntimeInvisibleParameterAnnotations(Seq<Seq<AnnotationView>>),
    RuntimeVisibleTypeAnnotations(Seq<TypeAnnotationView>),
    RuntimeInvisibleTypeAnnotations(Seq<TypeAnnotationView>),
    AnnotationDefault((usize, ElementValueView)),
}

impl View for RuntimeAnnotation {
    type V = RuntimeAnnotationView;

    open spec fn view(&self) -> RuntimeAnnotationView {
        match self {
            RuntimeAnnotation::Invalid => RuntimeAnnotationView::Invalid,
            RuntimeAnnotation::RuntimeVisibleAnnotations(v) =>
                RuntimeAnnotationView::RuntimeVisibleAnnotations(
                views(v@),
            ),
            RuntimeAnnotation::RuntimeInvisibleAnnotations(v) =>
                RuntimeAnnotationView::RuntimeInvisibleAnnotations(
                views(v@),
            ),
            RuntimeAnnotation::RuntimeVisibleParameterAnnotations(v) =>
                RuntimeAnnotationView::RuntimeVisibleParameterAnnotations(
                views(v@),
            ),
            RuntimeAnnotation::RuntimeInvisibleParameterAnnotations(v) =>
                RuntimeAnnotationView::RuntimeInvisibleParameterAnnotations(
                views(v@),
            ),
            RuntimeAnnotation::RuntimeVisibleTypeAnnotations(v) =>
                RuntimeAnnotationView::RuntimeVisibleTypeAnnotations(
                views(v@),
            ),
            RuntimeAnnotation::RuntimeInvisibleTypeAnnotations(v) =>
                RuntimeAnnotationView::RuntimeInvisibleTypeAnnotations(
                views(v@),
            ),
            RuntimeAnnotation::AnnotationDefault(p) => RuntimeAnnotationView::AnnotationDefault(
                p@,
            ),
        }
    }
}

/// Whether a frame of the kind of `f` may start with the frame type byte `t`
/// (JVMS 4.7.4): `same_frame` 0 to 63, `same_locals_1_stack_item_frame` 64
/// to 127, its extended form 247, `chop_frame` 248 to 250,
/// `same_frame_extended` 251, `append_frame` 252 to 254 with `t - 251` new
/// locals, `full_frame` 255; 128 to 246 are reserved.
pub open spec fn frame_type_admits(t: u8, f: FrameView) -> bool {
    &&& frame_kind_matches(t, f)
    &&& (f matches FrameView::Append(_, locals) ==> locals.len() == t - 251)
}

/// Whether the frame type byte `t` stands for the kind of frame `f` is, its
/// contents aside.
pub open spec fn frame_kind_matches(t: u8, f: FrameView) -> bool {
    match f {
        FrameView::SameFrame => t <= 63,
        FrameView::SameLocals(_) => 64 <= t <= 127,
        FrameView::SameLocalsExt(_, _) => t == 247,
        FrameView::Chop(_) => 248 <= t <= 250,
        FrameView::SameFrameExt(_) => t == 251,
        FrameView::Append(_, _) => 252 <= t <= 254,
        FrameView::Full { .. } => t == 255,
        FrameView::Invalid => false,
    }
}

/// The explicit `offset_delta` of a frame, for the kinds that carry one.
pub open spec fn frame_offset(f: FrameView) -> Option<u16> {
    match f {
        FrameView::SameLocalsExt(o, _) => Some(o),
        FrameView::Chop(o) => Some(o),
        FrameView::SameFrameExt(o) => Some(o),
        FrameView::Append(o, _) => Some(o),
        FrameView::Full { offset, .. } => Some(offset),
        _ => None,
    }
}

/// The frame, with zero offsets and placeholder types, that a frame type
/// byte starts.
pub open spec fn frame_of_tag(value: u8) -> Option<FrameView> {
    if value <= 63 {
        Some(FrameView::SameFrame)
    } else if value <= 127 {
        Some(FrameView::SameLocals(VType::Dummy))
    } else if value == 247 {
        Some(FrameView::SameLocalsExt(0, VType::Dummy))
    } else if 248 <= value <= 250 {
        Some(FrameView::Chop(0))
    } else if value == 251 {
        Some(FrameView::SameFrameExt(0))
    } else if 252 <= value <= 254 {
        Some(FrameView::Append(0, seq![]))
    } else if value == 255 {
        Some(FrameView::Full { offset: 0, locals: seq![], stack: seq![] })
    } else {
        None
    }
}

/// The placeholder frame for a frame type byte is of the kind that byte
/// stands for, and only the reserved bytes 128 to 246 have none.
pub proof fn lemma_frame_of_tag_kind(t: u8)
    ensures
        frame_of_tag(t) matches Some(f) ==> frame_kind_matches(t, f),
        frame_of_tag(t) is None <==> 128 <= t <= 246,
{
}

impl StackMapFrame {
    /// The frame, with zero offsets and placeholder types, that a frame type
    /// byte starts; the reserved bytes 128 to 246 are rejected.
    pub fn try_from(value: u8) -> (r: Result<StackMapFrame, ParseError>)
        ensures
            match frame_of_tag(value) {
                Some(f) => r matches Ok(x) && x@ == f,
                None => r == Err::<StackMapFrame, ParseError>(ParseError::InvalidStackMapFrame),
            },
    {
        let smf = if value <= 63 {
            StackMapFrame::SameFrame
        } else if value <= 127 {
            StackMapFrame::SameLocals(VType::Dummy)
        } else if value == 247 {
            StackMapFrame::SameLocalsExt(0, VType::Dummy)
        } else if 248 <= value && value <= 250 {
            StackMapFrame::Chop(0)
        } else if value == 251 {
            StackMapFrame::SameFrameExt(0)
        } else if 252 <= value && value <= 254 {
            StackMapFrame::Append(0, Vec::new())
        } else if value == 255 {
            StackMapFrame::Full { offset: 0, locals: Vec::new(), stack: Vec::new() }
        } else {
            return Err(ParseError::InvalidStackMapFrame);
        };
        proof {
            if 252 <= value <= 254 {
                assert(smf@ == FrameView::Append(0, seq![]));
            }
            if value == 255 {
                assert(smf@ == FrameView::Full { offset: 0, locals: seq![], stack: seq![] });
            }
        }
        Ok(smf)
    }
}

} // verus!
