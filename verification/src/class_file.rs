//! The class file format (JVMS 4.1): the whole file and its attributes.
use vstd::prelude::*;
use crate::anno_reader::sp_runtime_anno;
use crate::attribute::{
    BootstrapMethods, ClassAttrsView, ClassFileAttributes, EnclosingMethod, InnerClasses, Module,
    ModulePackages, ModuleMainClass, ModuleView, NestHost, NestMembers, PermittedSubclasses,
    Record, SourceDebugExtension, SourceFile,
};
use crate::class_attr_reader::{
    bootstrap_decoder, class_index_decoder, index_decoder, inner_class_decoder,
    package_index_decoder, sp_class_index, sp_module,
};
use crate::class_reader::{ClassReader, read_as};
use crate::code_reader::ends_where_declared;
use crate::constant::ConstantView;
use crate::constant_pool::{ConstantPool, is_utf8_at};
use crate::decode::{sp_u16, sp_u32, sp_bytes, repeat, sp_counted, views, Decoded};
use crate::error::ParseError;
use crate::field::{Field, FieldView};
use crate::flags::{ClassAccessFlags, ModuleFlags};
use crate::member_reader::{
    field_decoder, is_member_annotation_name, method_decoder, rec_comp_decoder, sp_utf8_ref,
    utf8_at,
};
use crate::method::{Method, MethodView};
use crate::pool_reader::sp_cp;
use crate::text::str_eq;

verus! {

/// Which of the attributes a class may have only once have been seen, and
/// whether a `PermittedSubclasses` attribute has.
#[derive(Debug, Clone, Copy, PartialEq, Eq)]
pub struct ClassAttrsSeen {
    pub src_dbg_ext: bool,
    pub btstrp_mthds: bool,
    pub record: bool,
    pub contains_permitted: bool,
    pub contains_sig: bool,
}

/// Whether `name` is one of the attributes that describe where a class comes
/// from and how it nests: `InnerClasses`, `EnclosingMethod`, `SourceFile`,
/// `SourceDebugExtension`, `Signature`, `BootstrapMethods` or `Record`.
pub open spec fn is_origin_attr_name(name: Seq<char>) -> bool {
    name == "InnerClasses"@ || name == "EnclosingMethod"@ || name == "SourceFile"@ || name
        == "SourceDebugExtension"@ || name == "Signature"@ || name == "BootstrapMethods"@ || name
        == "Record"@
}

/// Decodes the body of one of the attributes [`is_origin_attr_name`] names
/// and records it in the class attributes of `st`.
#[verifier::opaque]
pub open spec fn sp_origin_attr(
    cp: Seq<ConstantView>,
    name: Seq<char>,
    len: u32,
    s: Seq<u8>,
    p: int,
    st: (ClassAttrsView, ClassAttrsSeen),
) -> Decoded<(ClassAttrsView, ClassAttrsSeen)> {
    let (a, f) = st;
    if name == "InnerClasses"@ {
        match sp_counted(inner_class_decoder(cp), s, p) {
            Ok((t, e)) => Ok(((ClassAttrsView { inner_classes: t, ..a }, f), e)),
            Err(x) => Err(x),
        }
    } else if name == "EnclosingMethod"@ {
        match sp_u16(s, p) {
            Err(x) => Err(x),
            Ok((c, q)) => match sp_u16(s, q) {
                Err(x) => Err(x),
                Ok((m, e)) => Ok(
                    (
                        (
                            ClassAttrsView {
                                enclosing_method: EnclosingMethod {
                                    class_index: c as usize,
                                    method_index: m as usize,
                                },
                                ..a
                            },
                            f,
                        ),
                        e,
                    ),
                ),
            },
        }
    } else if name == "SourceFile"@ {
        match sp_u16(s, p) {
            Err(x) => Err(x),
            Ok((i, e)) => if !is_utf8_at(cp, i as int) {
                Err(ParseError::InvalidIndex)
            } else {
                Ok(((ClassAttrsView { source_file: i as usize, ..a }, f), e))
            },
        }
    } else if name == "SourceDebugExtension"@ {
        if f.src_dbg_ext {
            Err(ParseError::InvalidAttribute)
        } else {
            match sp_bytes(s, p, len as int) {
                Ok((b, e)) => Ok(
                    (
                        (
                            ClassAttrsView { source_debug_extension: b, ..a },
                            ClassAttrsSeen { src_dbg_ext: true, ..f },
                        ),
                        e,
                    ),
                ),
                Err(x) => Err(x),
            }
        }
    } else if name == "Signature"@ {
        if f.contains_sig {
            Err(ParseError::InvalidAttribute)
        } else {
            match sp_utf8_ref(cp, s, p) {
                Ok((t, e)) => Ok(
                    (
                        (ClassAttrsView { signature: t, ..a }, ClassAttrsSeen { contains_sig: true, ..f }),
                        e,
                    ),
                ),
                Err(x) => Err(x),
            }
        }
    } else if name == "BootstrapMethods"@ {
        if f.btstrp_mthds {
            Err(ParseError::InvalidAttribute)
        } else {
            match sp_counted(bootstrap_decoder(), s, p) {
                Ok((t, e)) => Ok(
                    (
                        (
                            ClassAttrsView { bootstrap_methods: t, ..a },
                            ClassAttrsSeen { btstrp_mthds: true, ..f },
                        ),
                        e,
                    ),
                ),
                Err(x) => Err(x),
            }
        }
    } else {
        if f.record {
            Err(ParseError::InvalidAttribute)
        } else {
            match sp_counted(rec_comp_decoder(cp), s, p) {
                Ok((t, e)) => Ok(
                    (
                        (ClassAttrsView { record: t, ..a }, ClassAttrsSeen { record: true, ..f }),
                        e,
                    ),
                ),
                Err(x) => Err(x),
            }
        }
    }
}

/// Decodes the body of any other attribute of a class and records it in the
/// class attributes of `st`: the module attributes, the nest attributes, the
/// annotation attributes and `PermittedSubclasses` (refused for a class that
/// may not have subclasses, `permit_sub` false). Attributes the parser does
/// not interpret are skipped.
#[verifier::opaque]
pub open spec fn sp_other_class_attr(
    cp: Seq<ConstantView>,
    name: Seq<char>,
    len: u32,
    permit_sub: bool,
    s: Seq<u8>,
    p: int,
    st: (ClassAttrsView, ClassAttrsSeen),
) -> Decoded<(ClassAttrsView, ClassAttrsSeen)> {
    let (a, f) = st;
    if name == "Module"@ {
        match sp_module(cp, s, p) {
            Ok((m, e)) => Ok(((ClassAttrsView { module: m, ..a }, f), e)),
            Err(x) => Err(x),
        }
    } else if name == "ModulePackages"@ {
        match sp_counted(package_index_decoder(cp), s, p) {
            Ok((t, e)) => Ok(((ClassAttrsView { module_packages: t, ..a }, f), e)),
            Err(x) => Err(x),
        }
    } else if name == "ModuleMainClass"@ {
        match sp_class_index(cp, s, p) {
            Ok((i, e)) => Ok(((ClassAttrsView { module_main_class: i, ..a }, f), e)),
            Err(x) => Err(x),
        }
    } else if name == "NestHost"@ {
        match sp_class_index(cp, s, p) {
            Ok((i, e)) => Ok(((ClassAttrsView { nest_host: i, ..a }, f), e)),
            Err(x) => Err(x),
        }
    } else if name == "NestMembers"@ {
        match sp_counted(class_index_decoder(cp), s, p) {
            Ok((t, e)) => Ok(((ClassAttrsView { nest_members: t, ..a }, f), e)),
            Err(x) => Err(x),
        }
    } else if is_member_annotation_name(name) {
        match sp_runtime_anno(cp, name, s, p) {
            Ok((x, e)) => Ok(
                ((ClassAttrsView { runtime_annotations: a.runtime_annotations.push(x), ..a }, f), e),
            ),
            Err(x) => Err(x),
        }
    } else if name == "PermittedSubclasses"@ {
        if !permit_sub || f.contains_permitted {
            Err(ParseError::InvalidAttribute)
        } else {
            match sp_counted(class_index_decoder(cp), s, p) {
                Ok((t, e)) => Ok(
                    (
                        (
                            ClassAttrsView { permitted_subclasses: t, ..a },
                            ClassAttrsSeen { contains_permitted: true, ..f },
                        ),
                        e,
                    ),
                ),
                Err(x) => Err(x),
            }
        }
    } else {
        match sp_bytes(s, p, len as int) {
            Ok((_b, e)) => Ok(((a, f), e)),
            Err(x) => Err(x),
        }
    }
}

/// Decodes one attribute of a class: its name (a UTF8 constant), its length
/// and its body, which must end where the length says.
pub open spec fn sp_class_attr(
    cp: Seq<ConstantView>,
    permit_sub: bool,
    s: Seq<u8>,
    p: int,
    st: (ClassAttrsView, ClassAttrsSeen),
) -> Decoded<(ClassAttrsView, ClassAttrsSeen)> {
    match sp_u16(s, p) {
        Err(x) => Err(x),
        Ok((ni, q)) => if !is_utf8_at(cp, ni as int) {
            Err(ParseError::InvalidIndex)
        } else {
            match sp_u32(s, q) {
                Err(x) => Err(x),
                Ok((len, start)) => {
                    let name = utf8_at(cp, ni as int);
                    let body = if is_origin_attr_name(name) {
                        sp_origin_attr(cp, name, len, s, start, st)
                    } else {
                        sp_other_class_attr(cp, name, len, permit_sub, s, start, st)
                    };
                    match body {
                        Err(x) => Err(x),
                        Ok((st2, e)) => if !ends_where_declared(start, len as int, e) {
                            Err(ParseError::InvalidCursor)
                        } else {
                            Ok((st2, e))
                        },
                    }
                },
            }
        },
    }
}

/// Decodes `n` attributes of a class one after the other.
pub open spec fn sp_class_attr_fold(
    cp: Seq<ConstantView>,
    permit_sub: bool,
    s: Seq<u8>,
    p: int,
    n: nat,
    st: (ClassAttrsView, ClassAttrsSeen),
) -> Decoded<(ClassAttrsView, ClassAttrsSeen)>
    decreases n,
{
    if n == 0 {
        Ok((st, p))
    } else {
        match sp_class_attr(cp, permit_sub, s, p, st) {
            Ok((st2, q)) => sp_class_attr_fold(cp, permit_sub, s, q, (n - 1) as nat, st2),
            Err(x) => Err(x),
        }
    }
}

/// None of the attributes a class may have only once seen yet.
pub open spec fn nothing_seen() -> ClassAttrsSeen {
    ClassAttrsSeen {
        src_dbg_ext: false,
        btstrp_mthds: false,
        record: false,
        contains_permitted: false,
        contains_sig: false,
    }
}

/// The attributes of a class that has none.
pub open spec fn empty_class_attrs() -> ClassAttrsView {
    ClassAttrsView {
        source_file: 0,
        inner_classes: seq![],
        enclosing_method: EnclosingMethod { class_index: 0, method_index: 0 },
        source_debug_extension: seq![],
        synthetic: false,
        signature: seq![],
        bootstrap_methods: seq![],
        module: ModuleView {
            module_name_index: 0,
            module_flags: ModuleFlags { bits: 0 },
            module_ver_index: 0,
            requires: seq![],
            exports: seq![],
            opens: seq![],
            uses: seq![],
            provides: seq![],
        },
        module_packages: seq![],
        module_main_class: 0,
        nest_host: 0,
        nest_members: seq![],
        record: seq![],
        permitted_subclasses: seq![],
        runtime_annotations: seq![],
    }
}

/// Represents the format of a JVM `.class` file
#[derive(Debug, Default)]
pub struct ClassFile {
    pub minor_version: u16,
    pub major_version: u16,
    pub cp: ConstantPool,
    pub access_flags: ClassAccessFlags,
    pub this_class: usize,
    pub super_class: usize,
    pub interfaces: Vec<usize>,
    pub fields: Vec<Field>,
    pub methods: Vec<Method>,
    pub attributes: ClassFileAttributes,
}

/// The mathematical value of a [`ClassFile`].
pub struct ClassFileView {
    pub minor_version: u16,
    pub major_version: u16,
    pub cp: Seq<ConstantView>,
    pub access_flags: ClassAccessFlags,
    pub this_class: usize,
    pub super_class: usize,
    pub interfaces: Seq<usize>,
    pub fields: Seq<FieldView>,
    pub methods: Seq<MethodView>,
    pub attributes: ClassAttrsView,
}

impl View for ClassFile {
    type V = ClassFileView;

    open spec fn view(&self) -> ClassFileView {
        ClassFileView {
            minor_version: self.minor_version,
            major_version: self.major_version,
            cp: self.cp@,
            access_flags: self.access_flags,
            this_class: self.this_class,
            super_class: self.super_class,
            interfaces: self.interfaces@,
            fields: views(self.fields@),
            methods: views(self.methods@),
            attributes: self.attributes@,
        }
    }
}

/// The magic number every class file starts with.
pub open spec fn class_magic() -> u32 {
    0xCAFEBABE
}

/// Whether a class with these flags may have permitted subclasses: it is not
/// `final`.
pub open spec fn permits_subclasses(bits: u16) -> bool {
    bits & ClassAccessFlags::FINAL != ClassAccessFlags::FINAL
}

/// Decodes the part of a class file that follows its constant pool `cp`:
/// flags, this and super class, interfaces, fields, methods and attributes.
pub open spec fn sp_class_body(cp: Seq<ConstantView>, s: Seq<u8>, p: int) -> Decoded<(ClassAccessFlags, usize, usize, Seq<usize>, Seq<FieldView>, Seq<MethodView>, ClassAttrsView)> {
    match sp_u16(s, p) {
        Err(x) => Err(x),
        Ok((bits, q1)) => if bits & !ClassAccessFlags::known() != 0 {
            Err(ParseError::InvalidFlags)
        } else {
            match sp_u16(s, q1) {
                Err(x) => Err(x),
                Ok((this_class, q2)) => match sp_u16(s, q2) {
                    Err(x) => Err(x),
                    Ok((super_class, q3)) => match sp_counted(index_decoder(), s, q3) {
                        Err(x) => Err(x),
                        Ok((interfaces, q4)) => match sp_counted(field_decoder(cp), s, q4) {
                            Err(x) => Err(x),
                            Ok((fields, q5)) => match sp_u16(s, q5) {
                                Err(x) => Err(x),
                                Ok((mc, q6)) => match repeat(method_decoder(cp), s, q6, mc as nat) {
                                    Err(x) => Err(x),
                                    Ok((methods, q7)) => match sp_u16(s, q7) {
                                        Err(x) => Err(x),
                                        Ok((ac, q8)) => match sp_class_attr_fold(
                                            cp,
                                            permits_subclasses(bits),
                                            s,
                                            q8,
                                            ac as nat,
                                            (empty_class_attrs(), nothing_seen()),
                                        ) {
                                            Err(x) => Err(x),
                                            Ok((st, q9)) => Ok(
                                                (
                                                    (
                                                        ClassAccessFlags { bits },
                                                        this_class as usize,
                                                        super_class as usize,
                                                        interfaces,
                                                        fields,
                                                        methods,
                                                        st.0,
                                                    ),
                                                    q9,
                                                ),
                                            ),
                                        },
                                    },
                                },
                            },
                        },
                    },
                },
            }
        },
    }
}

/// Decodes a class file: its magic number, its version, its constant pool,
/// and the rest, which is read against that constant pool. Bytes after the
/// attributes are not looked at.
pub open spec fn sp_class_file(s: Seq<u8>, p: int) -> Decoded<ClassFileView> {
    match sp_u32(s, p) {
        Err(x) => Err(x),
        Ok((magic, q0)) => if magic != class_magic() {
            Err(ParseError::InvalidMagic)
        } else {
            match sp_u16(s, q0) {
                Err(x) => Err(x),
                Ok((minor, q1)) => match sp_u16(s, q1) {
                    Err(x) => Err(x),
                    Ok((major, q2)) => match sp_cp(s, q2) {
                        Err(x) => Err(x),
                        Ok((cp, q3)) => match sp_class_body(cp, s, q3) {
                            Err(x) => Err(x),
                            Ok((b, q4)) => Ok(
                                (
                                    ClassFileView {
                                        minor_version: minor,
                                        major_version: major,
                                        cp,
                                        access_flags: b.0,
                                        this_class: b.1,
                                        super_class: b.2,
                                        interfaces: b.3,
                                        fields: b.4,
                                        methods: b.5,
                                        attributes: b.6,
                                    },
                                    q4,
                                ),
                            ),
                        },
                    },
                },
            }
        },
    }
}

/// Whether `name` is one of the attributes [`is_origin_attr_name`] names.
fn is_origin_attr(name: &str) -> (b: bool)
    ensures
        b == is_origin_attr_name(name@),
{
    str_eq(name, "InnerClasses") || str_eq(name, "EnclosingMethod") || str_eq(name, "SourceFile")
        || str_eq(name, "SourceDebugExtension") || str_eq(name, "Signature") || str_eq(
        name,
        "BootstrapMethods",
    ) || str_eq(name, "Record")
}

impl ClassReader {
    /// Reads the body of one of the attributes [`is_origin_attr_name`] names,
    /// called `name` and of declared length `attr_len`, into `attributes`.
    #[verifier::rlimit(60)]
    fn parse_origin_attr(
        &mut self,
        cp: &ConstantPool,
        name: &str,
        attr_len: usize,
        attributes: &mut ClassFileAttributes,
        seen: &mut ClassAttrsSeen,
    ) -> (r: Result<(), ParseError>)
        requires
            attr_len < 0x1_0000_0000,
            is_origin_attr_name(name@),
        ensures
            final(self).bytes@ == old(self).bytes@,
            match sp_origin_attr(cp@, name@, attr_len as u32, old(self).bytes@, old(self).pos as int, (old(attributes)@, *old(seen))) {
                Ok((st, q)) => r is Ok && final(attributes)@ == st.0 && *final(seen) == st.1 && final(self).pos == q,
                Err(e) => r == Err::<(), ParseError>(e),
            },
    {
        reveal(sp_origin_attr);
        if str_eq(name, "InnerClasses") {
            match self.parse_inner_class_attr(cp) {
                Ok(t) => {
                    attributes.inner_classes = t;
                },
                Err(e) => {
                    return Err(e);
                },
            }
        } else if str_eq(name, "EnclosingMethod") {
            let class_index = match self.read_u16() {
                Ok(x) => x as usize,
                Err(e) => {
                    return Err(e);
                },
            };
            let method_index = match self.read_u16() {
                Ok(x) => x as usize,
                Err(e) => {
                    return Err(e);
                },
            };
            attributes.enclosing_method = EnclosingMethod { class_index, method_index };
        } else if str_eq(name, "SourceFile") {
            let file_index = match self.read_u16() {
                Ok(x) => x as usize,
                Err(e) => {
                    return Err(e);
                },
            };
            match Self::verify_utf8(cp, file_index) {
                Ok(()) => {},
                Err(e) => {
                    return Err(e);
                },
            }
            attributes.source_file = SourceFile(file_index);
        } else if str_eq(name, "SourceDebugExtension") {
            if seen.src_dbg_ext {
                return Err(ParseError::InvalidAttribute);
            }
            seen.src_dbg_ext = true;
            match self.read_bytes(attr_len) {
                Ok(b) => {
                    attributes.source_debug_extension = SourceDebugExtension(b);
                },
                Err(e) => {
                    return Err(e);
                },
            }
        } else if str_eq(name, "Signature") {
            match self.parse_sig_attr(cp, &mut seen.contains_sig) {
                Ok(sig) => {
                    attributes.signature = sig;
                },
                Err(e) => {
                    return Err(e);
                },
            }
        } else if str_eq(name, "BootstrapMethods") {
            match self.parse_btstrp_methods_attr(&mut seen.btstrp_mthds) {
                Ok(t) => {
                    attributes.bootstrap_methods = t;
                },
                Err(e) => {
                    return Err(e);
                },
            }
        } else {
            match self.parse_record_attr(cp, &mut seen.record) {
                Ok(t) => {
                    attributes.record = t;
                },
                Err(e) => {
                    return Err(e);
                },
            }
        }
        Ok(())
    }

    /// Reads the body of any other attribute of a class, called `name` and of
    /// declared length `attr_len`, into `attributes`.
    #[verifier::rlimit(60)]
    fn parse_other_class_attr(
        &mut self,
        cp: &ConstantPool,
        name: &str,
        attr_len: usize,
        permit_sub: bool,
        attributes: &mut ClassFileAttributes,
        seen: &mut ClassAttrsSeen,
    ) -> (r: Result<(), ParseError>)
        requires
            attr_len < 0x1_0000_0000,
        ensures
            final(self).bytes@ == old(self).bytes@,
            match sp_other_class_attr(cp@, name@, attr_len as u32, permit_sub, old(self).bytes@, old(self).pos as int, (old(attributes)@, *old(seen))) {
                Ok((st, q)) => r is Ok && final(attributes)@ == st.0 && *final(seen) == st.1 && final(self).pos == q,
                Err(e) => r == Err::<(), ParseError>(e),
            },
    {
        reveal(sp_other_class_attr);
        if str_eq(name, "Module") {
            match self.parse_module_attr(cp) {
                Ok(m) => {
                    attributes.module = m;
                },
                Err(e) => {
                    return Err(e);
                },
            }
        } else if str_eq(name, "ModulePackages") {
            match self.parse_module_pckgs_attr(cp) {
                Ok(t) => {
                    attributes.module_packages = t;
                },
                Err(e) => {
                    return Err(e);
                },
            }
        } else if str_eq(name, "ModuleMainClass") {
            match self.read_class_index(cp) {
                Ok(i) => {
                    attributes.module_main_class = ModuleMainClass(i);
                },
                Err(e) => {
                    return Err(e);
                },
            }
        } else if str_eq(name, "NestHost") {
            match self.read_class_index(cp) {
                Ok(i) => {
                    attributes.nest_host = NestHost(i);
                },
                Err(e) => {
                    return Err(e);
                },
            }
        } else if str_eq(name, "NestMembers") {
            let classes_len = match self.read_u16() {
                Ok(x) => x as usize,
                Err(e) => {
                    return Err(e);
                },
            };
            match self.read_classes(classes_len, cp) {
                Ok(classes) => {
                    attributes.nest_members = NestMembers(classes);
                },
                Err(e) => {
                    return Err(e);
                },
            }
        } else if str_eq(name, "RuntimeVisibleAnnotations") || str_eq(
            name,
            "RuntimeInvisibleAnnotations",
        ) || str_eq(name, "RuntimeInvisibleTypeAnnotations") || str_eq(
            name,
            "RuntimeVisibleTypeAnnotations",
        ) {
            let ghost before = views(attributes.runtime_annotations@);
            match self.parse_runtime_anno(cp, name) {
                Ok(a) => {
                    attributes.runtime_annotations.push(a);
                    proof {
                        assert(views(attributes.runtime_annotations@) =~= before.push(a@));
                    }
                },
                Err(e) => {
                    return Err(e);
                },
            }
        } else if str_eq(name, "PermittedSubclasses") {
            if !permit_sub {
                return Err(ParseError::InvalidAttribute);
            } else if seen.contains_permitted {
                return Err(ParseError::InvalidAttribute);
            }
            seen.contains_permitted = true;
            let classes_len = match self.read_u16() {
                Ok(x) => x as usize,
                Err(e) => {
                    return Err(e);
                },
            };
            match self.read_classes(classes_len, cp) {
                Ok(classes) => {
                    attributes.permitted_subclasses = PermittedSubclasses(classes);
                },
                Err(e) => {
                    return Err(e);
                },
            }
        } else {
            match self.parse_unrec_attr(attr_len) {
                Ok(_unrecognized) => {},
                Err(e) => {
                    return Err(e);
                },
            }
        }
        Ok(())
    }

    /// Reads one attribute of a class into `attributes`.
    fn parse_one_class_attr(
        &mut self,
        cp: &ConstantPool,
        permit_sub: bool,
        attributes: &mut ClassFileAttributes,
        seen: &mut ClassAttrsSeen,
    ) -> (r: Result<(), ParseError>)
        ensures
            final(self).bytes@ == old(self).bytes@,
            match sp_class_attr(cp@, permit_sub, old(self).bytes@, old(self).pos as int, (old(attributes)@, *old(seen))) {
                Ok((st, q)) => r is Ok && final(attributes)@ == st.0 && *final(seen) == st.1 && final(self).pos == q,
                Err(e) => r == Err::<(), ParseError>(e),
            },
    {
        let name_index = match self.read_u16() {
            Ok(x) => x as usize,
            Err(e) => {
                return Err(e);
            },
        };
        match Self::verify_utf8(cp, name_index) {
            Ok(()) => {},
            Err(e) => {
                return Err(e);
            },
        }
        let attr_len = match self.read_u32() {
            Ok(x) => x as usize,
            Err(e) => {
                return Err(e);
            },
        };
        // The position must be read after the attribute length.
        let cursor = self.position();
        let name = match cp.get_utf8(name_index) {
            Ok(n) => n,
            Err(e) => {
                return Err(e);
            },
        };
        let body = if is_origin_attr(name) {
            self.parse_origin_attr(cp, name, attr_len, attributes, seen)
        } else {
            self.parse_other_class_attr(cp, name, attr_len, permit_sub, attributes, seen)
        };
        match body {
            Ok(()) => {},
            Err(e) => {
                return Err(e);
            },
        }
        self.end_attribute(cursor, attr_len)
    }

    /// Reads and interprets the next bytes as `attr_count` attributes of a
    /// class, into `attributes`. `permit_sub` tells whether the class may
    /// have a `PermittedSubclasses` attribute.
    pub fn parse_class_attr(
        &mut self,
        cp: &ConstantPool,
        attr_count: usize,
        permit_sub: bool,
        attributes: &mut ClassFileAttributes,
    ) -> (r: Result<(), ParseError>)
        ensures
            final(self).bytes@ == old(self).bytes@,
            match sp_class_attr_fold(cp@, permit_sub, old(self).bytes@, old(self).pos as int, attr_count as nat, (old(attributes)@, nothing_seen())) {
                Ok((st, q)) => r is Ok && final(attributes)@ == st.0 && final(self).pos == q,
                Err(e) => r == Err::<(), ParseError>(e),
            },
    {
        let ghost s = self.bytes@;
        let ghost p0 = self.pos as int;
        let ghost a0 = attributes@;
        let mut seen = ClassAttrsSeen {
            src_dbg_ext: false,
            btstrp_mthds: false,
            record: false,
            contains_permitted: false,
            contains_sig: false,
        };
        let mut i: usize = 0;
        while i < attr_count
            invariant
                self.bytes@ == s,
                s == old(self).bytes@,
                p0 == old(self).pos,
                a0 == old(attributes)@,
                i <= attr_count,
                sp_class_attr_fold(cp@, permit_sub, s, p0, attr_count as nat, (a0, nothing_seen())) == sp_class_attr_fold(cp@, permit_sub, s, self.pos as int, (attr_count - i) as nat, (attributes@, seen)),
            decreases attr_count - i,
        {
            match self.parse_one_class_attr(cp, permit_sub, attributes, &mut seen) {
                Ok(()) => {},
                Err(e) => {
                    return Err(e);
                },
            }
            i += 1;
        }
        Ok(())
    }
}

impl ClassFile {
    /// The magic number every class file starts with.
    pub const MAGIC: u32 = 0xCAFEBABE;

    /// Reads the rest of a class file from a reader that has read its
    /// constant pool `cp`.
    fn parse_body(cr: &mut ClassReader, cp: &ConstantPool) -> (r: Result<(ClassAccessFlags, usize, usize, Vec<usize>, Vec<Field>, Vec<Method>, ClassFileAttributes), ParseError>)
        ensures
            final(cr).bytes@ == old(cr).bytes@,
            match sp_class_body(cp@, old(cr).bytes@, old(cr).pos as int) {
                Ok((b, q)) => r matches Ok(x) && x.0 == b.0 && x.1 == b.1 && x.2 == b.2 && x.3@ == b.3 && views(x.4@) == b.4 && views(x.5@) == b.5 && x.6@ == b.6 && final(cr).pos == q,
                Err(e) => r matches Err(e2) && e2 == e,
            },
    {
        let flag = match cr.read_u16() {
            Ok(x) => x,
            Err(e) => {
                return Err(e);
            },
        };
        let access_flags = match ClassAccessFlags::from_bits(flag) {
            Some(f) => f,
            None => {
                return Err(ParseError::InvalidFlags);
            },
        };
        let this_class = match cr.read_u16() {
            Ok(x) => x as usize,
            Err(e) => {
                return Err(e);
            },
        };
        let super_class = match cr.read_u16() {
            Ok(x) => x as usize,
            Err(e) => {
                return Err(e);
            },
        };
        let interfaces = match cr.parse_interfaces() {
            Ok(x) => x,
            Err(e) => {
                return Err(e);
            },
        };
        let fields = match cr.parse_fields(cp) {
            Ok(x) => x,
            Err(e) => {
                return Err(e);
            },
        };
        let method_count = match cr.read_u16() {
            Ok(x) => x as usize,
            Err(e) => {
                return Err(e);
            },
        };
        let methods = match cr.parse_methods(cp, method_count, 0, 0) {
            Ok(x) => x,
            Err(e) => {
                return Err(e);
            },
        };
        let attributes_count = match cr.read_u16() {
            Ok(x) => x as usize,
            Err(e) => {
                return Err(e);
            },
        };
        let mut attributes = ClassFileAttributes {
            source_file: SourceFile(0),
            inner_classes: InnerClasses(Vec::new()),
            enclosing_method: EnclosingMethod { class_index: 0, method_index: 0 },
            source_debug_extension: SourceDebugExtension(Vec::new()),
            synthetic: false,
            signature: String::new(),
            bootstrap_methods: BootstrapMethods(Vec::new()),
            module: Module {
                module_name_index: 0,
                module_flags: ModuleFlags::empty(),
                module_ver_index: 0,
                requires: Vec::new(),
                exports: Vec::new(),
                opens: Vec::new(),
                uses: Vec::new(),
                provides: Vec::new(),
            },
            module_packages: ModulePackages(Vec::new()),
            module_main_class: ModuleMainClass(0),
            nest_host: NestHost(0),
            nest_members: NestMembers(Vec::new()),
            record: Record(Vec::new()),
            permitted_subclasses: PermittedSubclasses(Vec::new()),
            runtime_annotations: Vec::new(),
        };
        proof {
            let a = attributes@;
            assert(a.bootstrap_methods =~= seq![]);
            assert(a.module.exports =~= seq![]);
            assert(a.module.opens =~= seq![]);
            assert(a.module.provides =~= seq![]);
            assert(a.record =~= seq![]);
            assert(a.runtime_annotations =~= seq![]);
            assert(a == empty_class_attrs());
        }
        let permit_sub = !access_flags.contains(ClassAccessFlags::FINAL);
        match cr.parse_class_attr(cp, attributes_count, permit_sub, &mut attributes) {
            Ok(()) => Ok((access_flags, this_class, super_class, interfaces, fields, methods, attributes)),
            Err(e) => Err(e),
        }
    }

    /// Reads a class file from a reader.
    fn parse(mut cr: ClassReader) -> (r: Result<ClassFile, ParseError>)
        ensures
            match sp_class_file(cr.bytes@, cr.pos as int) {
                Ok((c, _q)) => r matches Ok(x) && x@ == c,
                Err(e) => r matches Err(e2) && e2 == e,
            },
    {
        match Self::valid_magic(&mut cr) {
            Ok(()) => {},
            Err(e) => {
                return Err(e);
            },
        }
        let minor_version = match cr.read_u16() {
            Ok(x) => x,
            Err(e) => {
                return Err(e);
            },
        };
        let major_version = match cr.read_u16() {
            Ok(x) => x,
            Err(e) => {
                return Err(e);
            },
        };
        let cp = match cr.parse_cp() {
            Ok(x) => x,
            Err(e) => {
                return Err(e);
            },
        };
        match Self::parse_body(&mut cr, &cp) {
            Ok((access_flags, this_class, super_class, interfaces, fields, methods, attributes)) => Ok(
                ClassFile {
                    minor_version,
                    major_version,
                    cp,
                    access_flags,
                    this_class,
                    super_class,
                    interfaces,
                    fields,
                    methods,
                    attributes,
                },
            ),
            Err(e) => Err(e),
        }
    }

    /// Parses a class file held in `buffer`.
    pub fn parse_from_buffer(buffer: &[u8]) -> (r: Result<ClassFile, ParseError>)
        ensures
            match sp_class_file(buffer@, 0) {
                Ok((c, _q)) => r matches Ok(x) && x@ == c,
                Err(e) => r matches Err(e2) && e2 == e,
            },
    {
        let cr = ClassReader::with_buffer(buffer);
        Self::parse(cr)
    }

    /// Reads the magic number and checks it.
    fn valid_magic(cr: &mut ClassReader) -> (r: Result<(), ParseError>)
        ensures
            final(cr).bytes@ == old(cr).bytes@,
            match sp_u32(old(cr).bytes@, old(cr).pos as int) {
                Ok((magic, q)) => if magic == class_magic() {
                    r is Ok && final(cr).pos == q
                } else {
                    r == Err::<(), ParseError>(ParseError::InvalidMagic)
                },
                Err(e) => r == Err::<(), ParseError>(e),
            },
    {
        let magic = match cr.read_u32() {
            Ok(x) => x,
            Err(e) => {
                return Err(e);
            },
        };
        if magic != ClassFile::MAGIC {
            return Err(ParseError::InvalidMagic);
        }
        Ok(())
    }

    /// The string of the UTF8 constant at `index` of the constant pool.
    pub fn get_utf8(&self, index: usize) -> (r: Result<&str, ParseError>)
        ensures
            is_utf8_at(self.cp@, index as int) ==> (r matches Ok(s) && ConstantView::Utf8(s@)
                == self.cp@[index as int]),
            !is_utf8_at(self.cp@, index as int) ==> r == Err::<&str, ParseError>(
                ParseError::InvalidIndex,
            ),
    {
        self.cp.get_utf8(index)
    }
}

} // verus!
