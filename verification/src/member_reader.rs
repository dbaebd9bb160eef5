//! Decoding of the fields, methods and record components of a class and of
//! their attributes (JVMS 4.5, 4.6, 4.7.30).
use vstd::prelude::*;
use vstd::utf8::encode_utf8;
use crate::anno_reader::sp_runtime_anno;
use crate::attribute::{
    Code, CodeView, Exceptions, LineNumberTable, LocalVariableTable, LocalVariableTypeTable,
    MethodParameters, Record, RecordComponent, RecordComponentView, RuntimeAnnotationView,
    StackMapTable,
};
use crate::class_reader::{ClassReader, read_as, read_vec_as};
use crate::code_reader::{sp_code_attr, ends_where_declared};
use crate::constant::{Constant, ConstantView};
use crate::constant_pool::{ConstantPool, is_utf8_at, is_class_at};
use crate::decode::{
    sp_u8, sp_u16, sp_u32, sp_bytes, repeat, lemma_repeat_err, sp_counted, views, u16_decoder,
    Decoded, Decoder,
};
use crate::desc_types::{
    FieldDescriptor, MethodDescriptor, spec_field_type_exact, spec_method_descriptor,
};
use crate::error::ParseError;
use crate::field::{Field, FieldView};
use crate::flags::{FieldAccessFlags, MethodAccessFlags, MethodParamAccessFlags};
use crate::method::{Method, MethodView};
use crate::text::str_eq;

verus! {

/// Whether `name` is the name of one of the annotation attributes a field,
/// a method or a class may have.
pub open spec fn is_member_annotation_name(name: Seq<char>) -> bool {
    name == "RuntimeVisibleAnnotations"@ || name == "RuntimeInvisibleAnnotations"@ || name
        == "RuntimeInvisibleTypeAnnotations"@ || name == "RuntimeVisibleTypeAnnotations"@
}

/// The string of the UTF8 constant at `index` of `cp`.
pub open spec fn utf8_at(cp: Seq<ConstantView>, index: int) -> Seq<char> {
    cp[index]->Utf8_0
}

/// Decodes the index of a UTF8 constant of `cp`: the string it holds.
pub open spec fn sp_utf8_ref(cp: Seq<ConstantView>, s: Seq<u8>, p: int) -> Decoded<Seq<char>> {
    match sp_u16(s, p) {
        Err(e) => Err(e),
        Ok((i, q)) => if !is_utf8_at(cp, i as int) {
            Err(ParseError::InvalidIndex)
        } else {
            Ok((utf8_at(cp, i as int), q))
        },
    }
}

/// The name of the class whose `Class` constant is at `index` of `cp`, if the
/// constant is there and names a UTF8 constant.
pub open spec fn class_name_at(cp: Seq<ConstantView>, index: int) -> Option<Seq<char>> {
    if is_class_at(cp, index) && is_utf8_at(cp, cp[index]->Class_0 as int) {
        Some(utf8_at(cp, cp[index]->Class_0 as int))
    } else {
        None
    }
}

/// The names of the classes whose `Class` constants `indices` gives; an error
/// where one is not such a constant.
pub open spec fn exception_names(cp: Seq<ConstantView>, indices: Seq<u16>) -> Result<Seq<Seq<char>>, ParseError> {
    if forall|k: int| 0 <= k < indices.len() ==> (#[trigger] class_name_at(cp, indices[k] as int)) is Some {
        Ok(Seq::new(indices.len(), |k: int| class_name_at(cp, indices[k] as int)->Some_0))
    } else {
        Err(ParseError::InvalidIndex)
    }
}

/// Decodes a formal parameter of a `MethodParameters` attribute: its name (0
/// or a UTF8 constant) and its flags.
pub open spec fn sp_method_param(cp: Seq<ConstantView>, s: Seq<u8>, p: int) -> Decoded<MethodParameters> {
    match sp_u16(s, p) {
        Err(e) => Err(e),
        Ok((name, q)) => if name != 0 && !is_utf8_at(cp, name as int) {
            Err(ParseError::InvalidIndex)
        } else {
            match sp_u16(s, q) {
                Err(e) => Err(e),
                Ok((bits, r)) => if bits & !MethodParamAccessFlags::known() != 0 {
                    Err(ParseError::InvalidFlags)
                } else {
                    Ok(
                        (
                            MethodParameters {
                                name_index: name as usize,
                                access_flags: MethodParamAccessFlags { bits },
                            },
                            r,
                        ),
                    )
                },
            }
        },
    }
}

pub open spec fn method_param_decoder(cp: Seq<ConstantView>) -> Decoder<MethodParameters> {
    |s: Seq<u8>, p: int| sp_method_param(cp, s, p)
}

/// Decodes the body of an attribute of a method named `name`, with declared
/// length `len`, and records it in `m`. `sig` and `exc` tell whether a
/// `Signature` or an `Exceptions` attribute came before; a second one is an
/// error. Attributes the parser does not interpret are skipped.
pub open spec fn sp_method_attr_body(
    cp: Seq<ConstantView>,
    name: Seq<char>,
    len: u32,
    s: Seq<u8>,
    p: int,
    st: (MethodView, bool, bool),
) -> Decoded<(MethodView, bool, bool)> {
    let (m, sig, exc) = st;
    if name == "Code"@ {
        match sp_code_attr(cp, s, p) {
            Ok((c, e)) => Ok(((MethodView { code: c, ..m }, sig, exc), e)),
            Err(x) => Err(x),
        }
    } else if name == "Exceptions"@ {
        if exc {
            Err(ParseError::InvalidAttribute)
        } else {
            match sp_counted(u16_decoder(), s, p) {
                Err(x) => Err(x),
                Ok((indices, e)) => match exception_names(cp, indices) {
                    Ok(names) => Ok(((MethodView { exceptions: names, ..m }, sig, true), e)),
                    Err(x) => Err(x),
                },
            }
        }
    } else if name == "Signature"@ {
        if sig {
            Err(ParseError::InvalidAttribute)
        } else {
            match sp_utf8_ref(cp, s, p) {
                Ok((text, e)) => Ok(((MethodView { signature: text, ..m }, true, exc), e)),
                Err(x) => Err(x),
            }
        }
    } else if name == "MethodParameters"@ {
        match sp_u8(s, p) {
            Err(x) => Err(x),
            Ok((n, q)) => match repeat(method_param_decoder(cp), s, q, n as nat) {
                Ok((ps, e)) => Ok(((MethodView { method_params: ps, ..m }, sig, exc), e)),
                Err(x) => Err(x),
            },
        }
    } else if name == "Deprecated"@ {
        if len != 0 {
            Err(ParseError::InvalidAttribute)
        } else {
            Ok(((MethodView { deprecated: true, ..m }, sig, exc), p))
        }
    } else if name == "Synthetic"@ {
        if len != 0 {
            Err(ParseError::InvalidAttribute)
        } else {
            Ok(((MethodView { synthetic: true, ..m }, sig, exc), p))
        }
    } else if is_member_annotation_name(name) {
        match sp_runtime_anno(cp, name, s, p) {
            Ok((a, e)) => Ok(
                ((MethodView { runtime_annotations: m.runtime_annotations.push(a), ..m }, sig, exc), e),
            ),
            Err(x) => Err(x),
        }
    } else {
        match sp_bytes(s, p, len as int) {
            Ok((_b, e)) => Ok(((m, sig, exc), e)),
            Err(x) => Err(x),
        }
    }
}

/// Decodes one attribute of a method: its name (a UTF8 constant), its
/// length and its body, which must end where the length says.
pub open spec fn sp_method_attr(cp: Seq<ConstantView>, s: Seq<u8>, p: int, st: (MethodView, bool, bool)) -> Decoded<(MethodView, bool, bool)> {
    match sp_utf8_ref(cp, s, p) {
        Err(x) => Err(x),
        Ok((name, q)) => match sp_u32(s, q) {
            Err(x) => Err(x),
            Ok((len, start)) => match sp_method_attr_body(cp, name, len, s, start, st) {
                Err(x) => Err(x),
                Ok((st2, e)) => if !ends_where_declared(start, len as int, e) {
                    Err(ParseError::InvalidCursor)
                } else {
                    Ok((st2, e))
                },
            },
        },
    }
}

/// Decodes `n` attributes of a method one after the other.
pub open spec fn sp_method_attr_fold(cp: Seq<ConstantView>, s: Seq<u8>, p: int, n: nat, st: (MethodView, bool, bool)) -> Decoded<(MethodView, bool, bool)>
    decreases n,
{
    if n == 0 {
        Ok((st, p))
    } else {
        match sp_method_attr(cp, s, p, st) {
            Ok((st2, q)) => sp_method_attr_fold(cp, s, q, (n - 1) as nat, st2),
            Err(x) => Err(x),
        }
    }
}

/// Decodes the counted attributes of a method and records them in `m`.
pub open spec fn sp_method_attrs(cp: Seq<ConstantView>, s: Seq<u8>, p: int, m: MethodView) -> Decoded<MethodView> {
    match sp_u16(s, p) {
        Err(x) => Err(x),
        Ok((n, q)) => match sp_method_attr_fold(cp, s, q, n as nat, (m, false, false)) {
            Ok((st, r)) => Ok((st.0, r)),
            Err(x) => Err(x),
        },
    }
}

/// The `Code` attribute of a method that has none.
pub open spec fn empty_code() -> CodeView {
    CodeView {
        max_stack: 0,
        max_locals: 0,
        op_code: seq![],
        exception_table: seq![],
        line_number_table: seq![],
        local_var_table: seq![],
        stack_map_table: seq![],
        local_var_type_table: seq![],
        attributes: seq![],
    }
}

/// Decodes a method: its flags, its name and descriptor (UTF8 constants; the
/// descriptor must be a valid method descriptor), then its attributes.
pub open spec fn sp_method(cp: Seq<ConstantView>, s: Seq<u8>, p: int) -> Decoded<MethodView> {
    match sp_u16(s, p) {
        Err(x) => Err(x),
        Ok((bits, q1)) => if bits & !MethodAccessFlags::known() != 0 {
            Err(ParseError::InvalidFlags)
        } else {
            match sp_utf8_ref(cp, s, q1) {
                Err(x) => Err(x),
                Ok((name, q2)) => match sp_utf8_ref(cp, s, q2) {
                    Err(x) => Err(x),
                    Ok((descriptor, q3)) => match spec_method_descriptor(encode_utf8(descriptor)) {
                        Err(x) => Err(x),
                        Ok(parsed) => sp_method_attrs(
                            cp,
                            s,
                            q3,
                            MethodView {
                                access_flags: MethodAccessFlags { bits },
                                name,
                                descriptor,
                                parsed_descriptor: parsed,
                                signature: seq![],
                                code: empty_code(),
                                exceptions: seq![],
                                method_params: seq![],
                                synthetic: false,
                                deprecated: false,
                                runtime_annotations: seq![],
                                attributes: seq![],
                            },
                        ),
                    },
                },
            }
        },
    }
}

pub open spec fn method_decoder(cp: Seq<ConstantView>) -> Decoder<MethodView> {
    |s: Seq<u8>, p: int| sp_method(cp, s, p)
}

/// Whether a constant may be the value of a `ConstantValue` attribute.
pub open spec fn is_field_constant(c: ConstantView) -> bool {
    c is Integer || c is Float || c is Long || c is Double || c is String
}

/// Decodes the body of an attribute of a field named `name`, with declared
/// length `len`, and records it in `f`; `sig` tells whether a `Signature`
/// attribute came before.
pub open spec fn sp_field_attr_body(
    cp: Seq<ConstantView>,
    name: Seq<char>,
    len: u32,
    s: Seq<u8>,
    p: int,
    st: (FieldView, bool),
) -> Decoded<(FieldView, bool)> {
    let (f, sig) = st;
    if name == "ConstantValue"@ {
        match sp_u16(s, p) {
            Err(x) => Err(x),
            Ok((i, e)) => if !(i < cp.len() && is_field_constant(cp[i as int])) {
                Err(ParseError::InvalidIndex)
            } else {
                Ok(((FieldView { constant_value: cp[i as int], ..f }, sig), e))
            },
        }
    } else if name == "Signature"@ {
        if sig {
            Err(ParseError::InvalidAttribute)
        } else {
            match sp_utf8_ref(cp, s, p) {
                Ok((text, e)) => Ok(((FieldView { signature: text, ..f }, true), e)),
                Err(x) => Err(x),
            }
        }
    } else if name == "Deprecated"@ {
        if len != 0 {
            Err(ParseError::InvalidAttribute)
        } else {
            Ok(((FieldView { deprecated: true, ..f }, sig), p))
        }
    } else if name == "Synthetic"@ {
        if len != 0 {
            Err(ParseError::InvalidAttribute)
        } else {
            Ok(((FieldView { synthetic: true, ..f }, sig), p))
        }
    } else if is_member_annotation_name(name) {
        match sp_runtime_anno(cp, name, s, p) {
            Ok((a, e)) => Ok(
                ((FieldView { runtime_annotations: f.runtime_annotations.push(a), ..f }, sig), e),
            ),
            Err(x) => Err(x),
        }
    } else {
        match sp_bytes(s, p, len as int) {
            Ok((_b, e)) => Ok(((f, sig), e)),
            Err(x) => Err(x),
        }
    }
}

/// Decodes one attribute of a field: its name index, its length, then (the
/// name being a UTF8 constant) its body, which must end where the length
/// says.
pub open spec fn sp_field_attr(cp: Seq<ConstantView>, s: Seq<u8>, p: int, st: (FieldView, bool)) -> Decoded<(FieldView, bool)> {
    match sp_u16(s, p) {
        Err(x) => Err(x),
        Ok((ni, q)) => match sp_u32(s, q) {
            Err(x) => Err(x),
            Ok((len, start)) => if !is_utf8_at(cp, ni as int) {
                Err(ParseError::InvalidIndex)
            } else {
                match sp_field_attr_body(cp, utf8_at(cp, ni as int), len, s, start, st) {
                    Err(x) => Err(x),
                    Ok((st2, e)) => if !ends_where_declared(start, len as int, e) {
                        Err(ParseError::InvalidCursor)
                    } else {
                        Ok((st2, e))
                    },
                }
            },
        },
    }
}

/// Decodes `n` attributes of a field one after the other.
pub open spec fn sp_field_attr_fold(cp: Seq<ConstantView>, s: Seq<u8>, p: int, n: nat, st: (FieldView, bool)) -> Decoded<(FieldView, bool)>
    decreases n,
{
    if n == 0 {
        Ok((st, p))
    } else {
        match sp_field_attr(cp, s, p, st) {
            Ok((st2, q)) => sp_field_attr_fold(cp, s, q, (n - 1) as nat, st2),
            Err(x) => Err(x),
        }
    }
}

/// Decodes a field: its flags, its name and descriptor (UTF8 constants; the
/// descriptor must be a valid field descriptor), then its counted attributes.
#[verifier::opaque]
pub open spec fn sp_field(cp: Seq<ConstantView>, s: Seq<u8>, p: int) -> Decoded<FieldView> {
    match sp_u16(s, p) {
        Err(x) => Err(x),
        Ok((bits, q1)) => if bits & !FieldAccessFlags::known() != 0 {
            Err(ParseError::InvalidFlags)
        } else {
            match sp_utf8_ref(cp, s, q1) {
                Err(x) => Err(x),
                Ok((name, q2)) => match sp_utf8_ref(cp, s, q2) {
                    Err(x) => Err(x),
                    Ok((descriptor, q3)) => match spec_field_type_exact(encode_utf8(descriptor)) {
                        Err(x) => Err(x),
                        Ok(parsed) => match sp_u16(s, q3) {
                            Err(x) => Err(x),
                            Ok((n, q4)) => match sp_field_attr_fold(
                                cp,
                                s,
                                q4,
                                n as nat,
                                (
                                    FieldView {
                                        access_flags: FieldAccessFlags { bits },
                                        name,
                                        descriptor,
                                        parsed_descriptor: parsed,
                                        signature: seq![],
                                        constant_value: ConstantView::Dummy,
                                        synthetic: false,
                                        deprecated: false,
                                        runtime_annotations: seq![],
                                    },
                                    false,
                                ),
                            ) {
                                Ok((st, r)) => Ok((st.0, r)),
                                Err(x) => Err(x),
                            },
                        },
                    },
                },
            }
        },
    }
}

pub open spec fn field_decoder(cp: Seq<ConstantView>) -> Decoder<FieldView> {
    |s: Seq<u8>, p: int| sp_field(cp, s, p)
}

/// Decodes one attribute of a record component, recording it in the
/// signature, annotations and `Signature` flag of `st`: a `Signature`
/// attribute (its length is read and not checked) or an annotation attribute
/// whose body follows its name directly.
pub open spec fn sp_rec_comp_attr(cp: Seq<ConstantView>, s: Seq<u8>, p: int, st: (Seq<char>, Seq<RuntimeAnnotationView>, bool)) -> Decoded<(Seq<char>, Seq<RuntimeAnnotationView>, bool)> {
    let (sig, annos, contains_sig) = st;
    match sp_utf8_ref(cp, s, p) {
        Err(x) => Err(x),
        Ok((name, q)) => if name == "Signature"@ {
            match sp_u32(s, q) {
                Err(x) => Err(x),
                Ok((_len, r)) => if contains_sig {
                    Err(ParseError::InvalidAttribute)
                } else {
                    match sp_utf8_ref(cp, s, r) {
                        Ok((text, e)) => Ok(((text, annos, true), e)),
                        Err(x) => Err(x),
                    }
                },
            }
        } else {
            match sp_runtime_anno(cp, name, s, q) {
                Ok((a, e)) => Ok(((sig, annos.push(a), contains_sig), e)),
                Err(x) => Err(x),
            }
        },
    }
}

/// Decodes `n` attributes of a record component one after the other.
pub open spec fn sp_rec_comp_attr_fold(cp: Seq<ConstantView>, s: Seq<u8>, p: int, n: nat, st: (Seq<char>, Seq<RuntimeAnnotationView>, bool)) -> Decoded<(Seq<char>, Seq<RuntimeAnnotationView>, bool)>
    decreases n,
{
    if n == 0 {
        Ok((st, p))
    } else {
        match sp_rec_comp_attr(cp, s, p, st) {
            Ok((st2, q)) => sp_rec_comp_attr_fold(cp, s, q, (n - 1) as nat, st2),
            Err(x) => Err(x),
        }
    }
}

/// Decodes a record component: its name and descriptor (UTF8 constants), then
/// its counted attributes.
pub open spec fn sp_rec_comp(cp: Seq<ConstantView>, s: Seq<u8>, p: int) -> Decoded<RecordComponentView> {
    match sp_u16(s, p) {
        Err(x) => Err(x),
        Ok((name_index, q1)) => if !is_utf8_at(cp, name_index as int) {
            Err(ParseError::InvalidIndex)
        } else {
            match sp_u16(s, q1) {
                Err(x) => Err(x),
                Ok((descriptor_index, q2)) => if !is_utf8_at(cp, descriptor_index as int) {
                    Err(ParseError::InvalidIndex)
                } else {
                    match sp_u16(s, q2) {
                        Err(x) => Err(x),
                        Ok((n, q3)) => match sp_rec_comp_attr_fold(cp, s, q3, n as nat, (seq![], seq![], false)) {
                            Ok(((sig, annos, _c), r)) => Ok(
                                (
                                    RecordComponentView {
                                        name_index: name_index as usize,
                                        descriptor_index: descriptor_index as usize,
                                        signature: sig,
                                        runtime_annotations: annos,
                                    },
                                    r,
                                ),
                            ),
                            Err(x) => Err(x),
                        },
                    }
                },
            }
        },
    }
}

pub open spec fn rec_comp_decoder(cp: Seq<ConstantView>) -> Decoder<RecordComponentView> {
    |s: Seq<u8>, p: int| sp_rec_comp(cp, s, p)
}

impl ClassReader {
    /// Reads the index of a UTF8 constant and gives its string.
    fn read_utf8_ref<'a>(&mut self, cp: &'a ConstantPool) -> (r: Result<&'a str, ParseError>)
        ensures
            final(self).bytes@ == old(self).bytes@,
            match sp_utf8_ref(cp@, old(self).bytes@, old(self).pos as int) {
                Ok((text, q)) => r matches Ok(x) && x@ == text && final(self).pos == q,
                Err(e) => r == Err::<&str, ParseError>(e),
            },
    {
        let index = match self.read_u16() {
            Ok(x) => x as usize,
            Err(e) => {
                return Err(e);
            },
        };
        cp.get_utf8(index)
    }

    /// Reads and interprets the next bytes as a `Signature` attribute; an
    /// item may have only one.
    pub fn parse_sig_attr(&mut self, cp: &ConstantPool, contains_sig: &mut bool) -> (r: Result<String, ParseError>)
        ensures
            *old(contains_sig) ==> r == Err::<String, ParseError>(ParseError::InvalidAttribute) && *final(self) == *old(self),
            !*old(contains_sig) ==> *final(contains_sig) && read_as(*old(self), *final(self), r, sp_utf8_ref(cp@, old(self).bytes@, old(self).pos as int)),
    {
        if *contains_sig {
            return Err(ParseError::InvalidAttribute);
        }
        *contains_sig = true;
        match self.read_utf8_ref(cp) {
            Ok(sig) => Ok(sig.to_owned()),
            Err(e) => Err(e),
        }
    }

    /// The names of the classes whose `Class` constants `indices` gives.
    fn exception_class_names(cp: &ConstantPool, indices: &Vec<u16>) -> (r: Result<Exceptions, ParseError>)
        ensures
            match exception_names(cp@, indices@) {
                Ok(names) => r matches Ok(x) && x@ == names,
                Err(e) => r == Err::<Exceptions, ParseError>(e),
            },
    {
        let mut names: Vec<String> = Vec::new();
        let mut i: usize = 0;
        while i < indices.len()
            invariant
                i <= indices@.len(),
                names@.len() == i,
                forall|k: int| 0 <= k < i ==> (#[trigger] class_name_at(cp@, indices@[k] as int)) is Some,
                forall|k: int| 0 <= k < i ==> #[trigger] names@[k]@ == class_name_at(cp@, indices@[k] as int)->Some_0,
            decreases indices@.len() - i,
        {
            let index = indices[i] as usize;
            match cp.get(index) {
                Some(Constant::Class(name_index)) => {
                    match cp.get_utf8(*name_index) {
                        Ok(name) => {
                            names.push(name.to_owned());
                        },
                        Err(e) => {
                            assert(class_name_at(cp@, indices@[i as int] as int) is None);
                            return Err(e);
                        },
                    }
                },
                _ => {
                    assert(class_name_at(cp@, indices@[i as int] as int) is None);
                    return Err(ParseError::InvalidIndex);
                },
            }
            i += 1;
        }
        let r = Exceptions(names);
        assert(r@ =~= Seq::new(indices@.len(), |k: int| class_name_at(cp@, indices@[k] as int)->Some_0));
        Ok(r)
    }

    /// Reads a formal parameter of a `MethodParameters` attribute.
    fn read_method_param(&mut self, cp: &ConstantPool) -> (r: Result<MethodParameters, ParseError>)
        ensures
            read_as(*old(self), *final(self), r, sp_method_param(cp@, old(self).bytes@, old(self).pos as int)),
    {
        let name_index = match self.read_u16() {
            Ok(x) => x as usize,
            Err(e) => {
                return Err(e);
            },
        };
        // A name index of 0 stands for a formal parameter with no name.
        if name_index != 0 {
            match Self::verify_utf8(cp, name_index) {
                Ok(()) => {},
                Err(e) => {
                    return Err(e);
                },
            }
        }
        let flag = match self.read_u16() {
            Ok(x) => x,
            Err(e) => {
                return Err(e);
            },
        };
        match MethodParamAccessFlags::from_bits(flag) {
            Some(access_flags) => Ok(MethodParameters { name_index, access_flags }),
            None => Err(ParseError::InvalidFlags),
        }
    }

    /// Reads the formal parameters of a `MethodParameters` attribute.
    fn read_method_params(&mut self, cp: &ConstantPool) -> (r: Result<Vec<MethodParameters>, ParseError>)
        ensures
            read_as(*old(self), *final(self), r, (match sp_u8(old(self).bytes@, old(self).pos as int) { Err(e) => Err(e), Ok((n, q)) => repeat(method_param_decoder(cp@), old(self).bytes@, q, n as nat) })),
    {
        let ghost s = self.bytes@;
        let ghost p_start = self.pos as int;
        let table_len: u8 = match self.read_u8() {
            Ok(n) => n,
            Err(e) => {
                return Err(e);
            },
        };
        let ghost p0 = self.pos as int;
        let mut table: Vec<MethodParameters> = Vec::new();
        let mut i: u8 = 0;
        
        while i < table_len
            invariant
                self.bytes@ == s,
                s == old(self).bytes@,
                p_start == old(self).pos,
                (match sp_u8(s, p_start) { Err(e) => Err(e), Ok((n, q)) => repeat(method_param_decoder(cp@), s, q, n as nat) }) == repeat(method_param_decoder(cp@), s, p0, table_len as nat),
                0 <= i <= table_len,
                repeat(method_param_decoder(cp@), s, p0, i as nat) == Ok::<(Seq<MethodParameters>, int), ParseError>(
                    (table@, self.pos as int),
                ),
            decreases table_len - i,
        {
            let ghost prev = table@;
            match self.read_method_param(cp) {
                Ok(entry) => {
                    table.push(entry);
                    
                },
                Err(e) => {
                    proof {
                        assert(repeat(method_param_decoder(cp@), s, p0, (i + 1) as nat) == Err::<(Seq<MethodParameters>, int), ParseError>(e));
                        lemma_repeat_err(method_param_decoder(cp@), s, p0, (i + 1) as nat, table_len as nat);
                    }
                    return Err(e);
                },
            }
            i += 1;
        }
        Ok(table)
    }
    /// Reads one attribute of a method and records it in `method`.
    fn parse_one_method_attr(&mut self, cp: &ConstantPool, method: &mut Method, sig_present: &mut bool, exc_present: &mut bool) -> (r: Result<(), ParseError>)
        ensures
            final(self).bytes@ == old(self).bytes@,
            match sp_method_attr(cp@, old(self).bytes@, old(self).pos as int, (old(method)@, *old(sig_present), *old(exc_present))) {
                Ok((st, q)) => r is Ok && final(method)@ == st.0 && *final(sig_present) == st.1 && *final(exc_present) == st.2 && final(self).pos == q,
                Err(e) => r == Err::<(), ParseError>(e),
            },
    {
        let name = match self.read_utf8_ref(cp) {
            Ok(x) => x,
            Err(e) => {
                return Err(e);
            },
        };
        let attr_len = match self.read_u32() {
            Ok(x) => x as usize,
            Err(e) => {
                return Err(e);
            },
        };
        // The position must be read after the attribute length.
        let cursor = self.position();
        match self.parse_method_attr_body(cp, name, attr_len, method, sig_present, exc_present) {
            Ok(()) => {},
            Err(e) => {
                return Err(e);
            },
        }
        self.end_attribute(cursor, attr_len)
    }

    /// Reads the body of the attribute of a method called `name`, with
    /// declared length `attr_len`, and records it in `method`.
    #[verifier::rlimit(100)]
    fn parse_method_attr_body(&mut self, cp: &ConstantPool, name: &str, attr_len: usize, method: &mut Method, sig_present: &mut bool, exc_present: &mut bool) -> (r: Result<(), ParseError>)
        requires
            attr_len < 0x1_0000_0000,
        ensures
            final(self).bytes@ == old(self).bytes@,
            match sp_method_attr_body(cp@, name@, attr_len as u32, old(self).bytes@, old(self).pos as int, (old(method)@, *old(sig_present), *old(exc_present))) {
                Ok((st, q)) => r is Ok && final(method)@ == st.0 && *final(sig_present) == st.1 && *final(exc_present) == st.2 && final(self).pos == q,
                Err(e) => r == Err::<(), ParseError>(e),
            },
    {
        if str_eq(name, "Code") {
            let code = match self.parse_code_attr(cp) {
                Ok(x) => x,
                Err(e) => {
                        return Err(e);
                },
            };
            method.code = code;
        } else if str_eq(name, "Exceptions") {
            if *exc_present {
                return Err(ParseError::InvalidAttribute);
            }
            *exc_present = true;
            let exc_len = match self.read_u16() {
                Ok(x) => x as usize,
                Err(e) => {
                    return Err(e);
                },
            };
            let indices = match self.read_u16s(exc_len) {
                Ok(x) => x,
                Err(e) => {
                    return Err(e);
                },
            };
            let names = match Self::exception_class_names(cp, &indices) {
                Ok(x) => x,
                Err(e) => {
                    return Err(e);
                },
            };
            method.exceptions = names;
        } else if str_eq(name, "Signature") {
            if *sig_present {
                return Err(ParseError::InvalidAttribute);
            }
            *sig_present = true;
            let signature = match self.read_utf8_ref(cp) {
                Ok(x) => x,
                Err(e) => {
                    return Err(e);
                },
            };
            method.signature = signature.to_owned();
        } else if str_eq(name, "MethodParameters") {
            let params = match self.read_method_params(cp) {
                Ok(x) => x,
                Err(e) => {
                    return Err(e);
                },
            };
            method.method_params = params;
        } else if str_eq(name, "Deprecated") {
            if attr_len != 0 {
                return Err(ParseError::InvalidAttribute);
            }
            method.deprecated = true;
        } else if str_eq(name, "Synthetic") {
            if attr_len != 0 {
                return Err(ParseError::InvalidAttribute);
            }
            method.synthetic = true;
        } else if str_eq(name, "RuntimeVisibleAnnotations") || str_eq(name, "RuntimeInvisibleAnnotations") || str_eq(name, "RuntimeInvisibleTypeAnnotations") || str_eq(name, "RuntimeVisibleTypeAnnotations") {
            let ghost before = views(method.runtime_annotations@);
            let annotation = match self.parse_runtime_anno(cp, name) {
                Ok(x) => x,
                Err(e) => {
                    return Err(e);
                },
            };
            method.runtime_annotations.push(annotation);
            proof {
                assert(views(method.runtime_annotations@) =~= before.push(annotation@));
            }
        } else {
            let _unrecognized = match self.parse_unrec_attr(attr_len) {
                Ok(x) => x,
                Err(e) => {
                    return Err(e);
                },
            };
        }
        Ok(())
    }

    /// Reads and interprets the next bytes as the counted attributes of a
    /// method, and records them in `method`.
    pub fn parse_method_attr(&mut self, cp: &ConstantPool, method: &mut Method) -> (r: Result<(), ParseError>)
        ensures
            final(self).bytes@ == old(self).bytes@,
            match sp_method_attrs(cp@, old(self).bytes@, old(self).pos as int, old(method)@) {
                Ok((m, q)) => r is Ok && final(method)@ == m && final(self).pos == q,
                Err(e) => r == Err::<(), ParseError>(e),
            },
    {
        let ghost s = self.bytes@;
        let attr_count = match self.read_u16() {
            Ok(x) => x,
            Err(e) => {
                return Err(e);
            },
        };
        let ghost p0 = self.pos as int;
        let ghost m0 = method@;
        let mut sig_present = false;
        let mut exc_present = false;
        let mut i: u16 = 0;
        while i < attr_count
            invariant
                self.bytes@ == s,
                s == old(self).bytes@,
                m0 == old(method)@,
                i <= attr_count,
                sp_method_attrs(cp@, s, old(self).pos as int, m0) == match sp_method_attr_fold(cp@, s, p0, attr_count as nat, (m0, false, false)) {
                    Ok((st, r)) => Ok((st.0, r)),
                    Err(x) => Err(x),
                },
                sp_method_attr_fold(cp@, s, p0, attr_count as nat, (m0, false, false)) == sp_method_attr_fold(cp@, s, self.pos as int, (attr_count - i) as nat, (method@, sig_present, exc_present)),
            decreases attr_count - i,
        {
            match self.parse_one_method_attr(cp, method, &mut sig_present, &mut exc_present) {
                Ok(()) => {},
                Err(e) => {
                    return Err(e);
                },
            }
            i += 1;
        }
        Ok(())
    }

    /// Reads and interprets the next bytes as a method.
    pub fn parse_method(&mut self, cp: &ConstantPool, _min_ver: u16, _maj_ver: u16) -> (r: Result<Method, ParseError>)
        ensures
            read_as(*old(self), *final(self), r, sp_method(cp@, old(self).bytes@, old(self).pos as int)),
    {
        let flag = match self.read_u16() {
            Ok(x) => x,
            Err(e) => {
                return Err(e);
            },
        };
        let access_flags = match MethodAccessFlags::from_bits(flag) {
            Some(f) => f,
            None => {
                return Err(ParseError::InvalidFlags);
            },
        };
        let name = match self.read_utf8_ref(cp) {
            Ok(x) => x,
            Err(e) => {
                return Err(e);
            },
        };
        let descriptor = match self.read_utf8_ref(cp) {
            Ok(x) => x,
            Err(e) => {
                return Err(e);
            },
        };
        let parsed_descriptor = match MethodDescriptor::parse_descriptor(descriptor) {
            Ok(x) => x,
            Err(e) => {
                return Err(e);
            },
        };
        let mut method = Method {
            access_flags,
            name: name.to_owned(),
            descriptor: descriptor.to_owned(),
            parsed_descriptor,
            signature: String::new(),
            code: Code {
                max_stack: 0,
                max_locals: 0,
                op_code: Vec::new(),
                exception_table: Vec::new(),
                line_number_table: LineNumberTable(Vec::new()),
                local_var_table: LocalVariableTable(Vec::new()),
                stack_map_table: StackMapTable(Vec::new()),
                local_var_type_table: LocalVariableTypeTable(Vec::new()),
                attributes: Vec::new(),
            },
            exceptions: Exceptions(Vec::new()),
            method_params: Vec::new(),
            synthetic: false,
            deprecated: false,
            runtime_annotations: Vec::new(),
            attributes: Vec::new(),
        };
        proof {
            assert(method@.code.op_code =~= seq![]);
            assert(method@.code.stack_map_table =~= seq![]);
            assert(method@.exceptions =~= seq![]);
            assert(method@.runtime_annotations =~= seq![]);
            assert(method@ == MethodView {
                access_flags: MethodAccessFlags { bits: flag },
                name: name@,
                descriptor: descriptor@,
                parsed_descriptor: method@.parsed_descriptor,
                signature: seq![],
                code: empty_code(),
                exceptions: seq![],
                method_params: seq![],
                synthetic: false,
                deprecated: false,
                runtime_annotations: seq![],
                attributes: seq![],
            });
        }
        match self.parse_method_attr(cp, &mut method) {
            Ok(()) => Ok(method),
            Err(e) => Err(e),
        }
    }

    /// Reads and interprets the next bytes as `method_count` methods.
    #[verifier::rlimit(60)]
    pub fn parse_methods(&mut self, cp: &ConstantPool, method_count: usize, min_ver: u16, maj_ver: u16) -> (r: Result<Vec<Method>, ParseError>)
        ensures
            read_vec_as(*old(self), *final(self), r, repeat(method_decoder(cp@), old(self).bytes@, old(self).pos as int, method_count as nat)),
    {
        let ghost s = self.bytes@;
        let ghost p_start = self.pos as int;
        let table_len: usize = match Ok::<usize, ParseError>(method_count) {
            Ok(n) => n,
            Err(e) => {
                return Err(e);
            },
        };
        let ghost p0 = self.pos as int;
        let mut table: Vec<Method> = Vec::new();
        let mut i: usize = 0;
        proof { assert(views(table@) =~= Seq::<MethodView>::empty()); }
        while i < table_len
            invariant
                self.bytes@ == s,
                s == old(self).bytes@,
                p_start == old(self).pos,
                repeat(method_decoder(cp@), s, p_start, method_count as nat) == repeat(method_decoder(cp@), s, p0, table_len as nat),
                0 <= i <= table_len,
                repeat(method_decoder(cp@), s, p0, i as nat) == Ok::<(Seq<MethodView>, int), ParseError>(
                    (views(table@), self.pos as int),
                ),
            decreases table_len - i,
        {
            let ghost prev = table@;
            match self.parse_method(cp, min_ver, maj_ver) {
                Ok(entry) => {
                    table.push(entry);
                    proof { assert(views(table@) =~= views(prev).push(entry@)); }
                },
                Err(e) => {
                    proof {
                        assert(repeat(method_decoder(cp@), s, p0, (i + 1) as nat) == Err::<(Seq<MethodView>, int), ParseError>(e));
                        lemma_repeat_err(method_decoder(cp@), s, p0, (i + 1) as nat, table_len as nat);
                    }
                    return Err(e);
                },
            }
            i += 1;
        }
        Ok(table)
    }
    /// Reads one attribute of a field and records it in `field`.
    fn parse_one_field_attr(&mut self, cp: &ConstantPool, field: &mut Field, contains_sig: &mut bool) -> (r: Result<(), ParseError>)
        ensures
            final(self).bytes@ == old(self).bytes@,
            match sp_field_attr(cp@, old(self).bytes@, old(self).pos as int, (old(field)@, *old(contains_sig))) {
                Ok((st, q)) => r is Ok && final(field)@ == st.0 && *final(contains_sig) == st.1 && final(self).pos == q,
                Err(e) => r == Err::<(), ParseError>(e),
            },
    {
        let name_index = match self.read_u16() {
            Ok(x) => x as usize,
            Err(e) => {
                return Err(e);
            },
        };
        let attr_len = match self.read_u32() {
            Ok(x) => x as usize,
            Err(e) => {
                return Err(e);
            },
        };
        // The position must be read after the attribute length.
        let cursor = self.position();
        let name = match cp.get_utf8(name_index) {
            Ok(x) => x,
            Err(e) => {
                return Err(e);
            },
        };
        match self.parse_field_attr_body(cp, name, attr_len, field, contains_sig) {
            Ok(()) => {},
            Err(e) => {
                return Err(e);
            },
        }
        self.end_attribute(cursor, attr_len)
    }

    /// Reads the body of the attribute of a field called `name`, with
    /// declared length `attr_len`, and records it in `field`.
    #[verifier::rlimit(60)]
    fn parse_field_attr_body(&mut self, cp: &ConstantPool, name: &str, attr_len: usize, field: &mut Field, contains_sig: &mut bool) -> (r: Result<(), ParseError>)
        requires
            attr_len < 0x1_0000_0000,
        ensures
            final(self).bytes@ == old(self).bytes@,
            match sp_field_attr_body(cp@, name@, attr_len as u32, old(self).bytes@, old(self).pos as int, (old(field)@, *old(contains_sig))) {
                Ok((st, q)) => r is Ok && final(field)@ == st.0 && *final(contains_sig) == st.1 && final(self).pos == q,
                Err(e) => r == Err::<(), ParseError>(e),
            },
    {
        if str_eq(name, "ConstantValue") {
            let const_index = match self.read_u16() {
                Ok(x) => x as usize,
                Err(e) => {
                    return Err(e);
                },
            };
            match cp.get(const_index) {
                Some(Constant::Integer(x)) => {
                    field.constant_value = Constant::Integer(*x);
                },
                Some(Constant::Float(x)) => {
                    field.constant_value = Constant::Float(*x);
                },
                Some(Constant::Long(x)) => {
                    field.constant_value = Constant::Long(*x);
                },
                Some(Constant::Double(x)) => {
                    field.constant_value = Constant::Double(*x);
                },
                Some(Constant::String(x)) => {
                    field.constant_value = Constant::String(*x);
                },
                _ => {
                    return Err(ParseError::InvalidIndex);
                },
            }
        } else if str_eq(name, "Signature") {
            let signature = match self.parse_sig_attr(cp, contains_sig) {
                Ok(x) => x,
                Err(e) => {
                    return Err(e);
                },
            };
            field.signature = signature;
        } else if str_eq(name, "Deprecated") {
            if attr_len != 0 {
                return Err(ParseError::InvalidAttribute);
            }
            field.deprecated = true;
        } else if str_eq(name, "Synthetic") {
            if attr_len != 0 {
                return Err(ParseError::InvalidAttribute);
            }
            field.synthetic = true;
        } else if str_eq(name, "RuntimeVisibleAnnotations") || str_eq(name, "RuntimeInvisibleAnnotations") || str_eq(name, "RuntimeInvisibleTypeAnnotations") || str_eq(name, "RuntimeVisibleTypeAnnotations") {
            let ghost before = views(field.runtime_annotations@);
            let annotation = match self.parse_runtime_anno(cp, name) {
                Ok(x) => x,
                Err(e) => {
                    return Err(e);
                },
            };
            field.runtime_annotations.push(annotation);
            proof {
                assert(views(field.runtime_annotations@) =~= before.push(annotation@));
            }
        } else {
            let _unrecognized = match self.parse_unrec_attr(attr_len) {
                Ok(x) => x,
                Err(e) => {
                    return Err(e);
                },
            };
        }
        Ok(())
    }

    /// Reads and interprets the next bytes as `attr_count` attributes of a
    /// field, and records them in `field`.
    pub fn parse_field_attr(&mut self, cp: &ConstantPool, attr_count: usize, field: &mut Field) -> (r: Result<(), ParseError>)
        ensures
            final(self).bytes@ == old(self).bytes@,
            match sp_field_attr_fold(cp@, old(self).bytes@, old(self).pos as int, attr_count as nat, (old(field)@, false)) {
                Ok((st, q)) => r is Ok && final(field)@ == st.0 && final(self).pos == q,
                Err(e) => r == Err::<(), ParseError>(e),
            },
    {
        let ghost s = self.bytes@;
        let ghost p0 = self.pos as int;
        let ghost f0 = field@;
        let mut contains_sig = false;
        let mut i: usize = 0;
        while i < attr_count
            invariant
                self.bytes@ == s,
                s == old(self).bytes@,
                p0 == old(self).pos,
                f0 == old(field)@,
                i <= attr_count,
                sp_field_attr_fold(cp@, s, p0, attr_count as nat, (f0, false)) == sp_field_attr_fold(cp@, s, self.pos as int, (attr_count - i) as nat, (field@, contains_sig)),
            decreases attr_count - i,
        {
            match self.parse_one_field_attr(cp, field, &mut contains_sig) {
                Ok(()) => {},
                Err(e) => {
                    return Err(e);
                },
            }
            i += 1;
        }
        Ok(())
    }

    /// Reads and interprets the next bytes as a field.
    pub fn parse_field(&mut self, cp: &ConstantPool) -> (r: Result<Field, ParseError>)
        ensures
            read_as(*old(self), *final(self), r, sp_field(cp@, old(self).bytes@, old(self).pos as int)),
    {
        reveal(sp_field);
        let flag = match self.read_u16() {
            Ok(x) => x,
            Err(e) => {
                return Err(e);
            },
        };
        let access_flags = match FieldAccessFlags::from_bits(flag) {
            Some(f) => f,
            None => {
                return Err(ParseError::InvalidFlags);
            },
        };
        let name = match self.read_utf8_ref(cp) {
            Ok(x) => x,
            Err(e) => {
                return Err(e);
            },
        };
        let descriptor = match self.read_utf8_ref(cp) {
            Ok(x) => x,
            Err(e) => {
                return Err(e);
            },
        };
        let parsed_descriptor = match FieldDescriptor::parse_descriptor(descriptor) {
            Ok(x) => x,
            Err(e) => {
                return Err(e);
            },
        };
        let attributes_count = match self.read_u16() {
            Ok(x) => x as usize,
            Err(e) => {
                return Err(e);
            },
        };
        let mut field = Field {
            access_flags,
            name: name.to_owned(),
            descriptor: descriptor.to_owned(),
            parsed_descriptor,
            signature: String::new(),
            constant_value: Constant::Dummy,
            synthetic: false,
            deprecated: false,
            runtime_annotations: Vec::new(),
        };
        proof {
            assert(field@.runtime_annotations =~= seq![]);
        }
        match self.parse_field_attr(cp, attributes_count, &mut field) {
            Ok(()) => Ok(field),
            Err(e) => Err(e),
        }
    }

    /// Reads and interprets the next bytes as the counted fields of a class.
    #[verifier::rlimit(60)]
    pub fn parse_fields(&mut self, cp: &ConstantPool) -> (r: Result<Vec<Field>, ParseError>)
        ensures
            read_vec_as(*old(self), *final(self), r, sp_counted(field_decoder(cp@), old(self).bytes@, old(self).pos as int)),
    {
        let ghost s = self.bytes@;
        let ghost p_start = self.pos as int;
        let table_len: u16 = match self.read_u16() {
            Ok(n) => n,
            Err(e) => {
                return Err(e);
            },
        };
        let ghost p0 = self.pos as int;
        let mut table: Vec<Field> = Vec::new();
        let mut i: u16 = 0;
        proof { assert(views(table@) =~= Seq::<FieldView>::empty()); }
        while i < table_len
            invariant
                self.bytes@ == s,
                s == old(self).bytes@,
                p_start == old(self).pos,
                sp_counted(field_decoder(cp@), s, p_start) == repeat(field_decoder(cp@), s, p0, table_len as nat),
                0 <= i <= table_len,
                repeat(field_decoder(cp@), s, p0, i as nat) == Ok::<(Seq<FieldView>, int), ParseError>(
                    (views(table@), self.pos as int),
                ),
            decreases table_len - i,
        {
            let ghost prev = table@;
            match self.parse_field(cp) {
                Ok(entry) => {
                    table.push(entry);
                    proof { assert(views(table@) =~= views(prev).push(entry@)); }
                },
                Err(e) => {
                    proof {
                        assert(repeat(field_decoder(cp@), s, p0, (i + 1) as nat) == Err::<(Seq<FieldView>, int), ParseError>(e));
                        lemma_repeat_err(field_decoder(cp@), s, p0, (i + 1) as nat, table_len as nat);
                    }
                    return Err(e);
                },
            }
            i += 1;
        }
        Ok(table)
    }
    /// Reads and interprets the next bytes as a record component.
    pub fn parse_rec_comp(&mut self, cp: &ConstantPool) -> (r: Result<RecordComponent, ParseError>)
        ensures
            read_as(*old(self), *final(self), r, sp_rec_comp(cp@, old(self).bytes@, old(self).pos as int)),
    {
        let ghost s = self.bytes@;
        let name_index = match self.read_u16() {
            Ok(x) => x as usize,
            Err(e) => {
                return Err(e);
            },
        };
        match Self::verify_utf8(cp, name_index) {
            Ok(()) => {},
            Err(e) => {
                return Err(e);
            },
        }
        let descriptor_index = match self.read_u16() {
            Ok(x) => x as usize,
            Err(e) => {
                return Err(e);
            },
        };
        match Self::verify_utf8(cp, descriptor_index) {
            Ok(()) => {},
            Err(e) => {
                return Err(e);
            },
        }
        let attr_count = match self.read_u16() {
            Ok(x) => x,
            Err(e) => {
                return Err(e);
            },
        };
        let ghost p0 = self.pos as int;
        let mut runtime_annotations: Vec<crate::attribute::RuntimeAnnotation> = Vec::new();
        let mut signature = String::new();
        let mut contains_sig = false;
        let mut i: u16 = 0;
        proof {
            assert(views(runtime_annotations@) =~= Seq::<RuntimeAnnotationView>::empty());
        }
        while i < attr_count
            invariant
                self.bytes@ == s,
                s == old(self).bytes@,
                i <= attr_count,
                sp_rec_comp(cp@, s, old(self).pos as int) == match sp_rec_comp_attr_fold(cp@, s, p0, attr_count as nat, (seq![], seq![], false)) {
                    Ok(((sig, annos, _c), r)) => Ok(
                        (
                            RecordComponentView {
                                name_index: name_index,
                                descriptor_index: descriptor_index,
                                signature: sig,
                                runtime_annotations: annos,
                            },
                            r,
                        ),
                    ),
                    Err(x) => Err(x),
                },
                sp_rec_comp_attr_fold(cp@, s, p0, attr_count as nat, (seq![], seq![], false)) == sp_rec_comp_attr_fold(cp@, s, self.pos as int, (attr_count - i) as nat, (signature@, views(runtime_annotations@), contains_sig)),
            decreases attr_count - i,
        {
            let name = match self.read_utf8_ref(cp) {
                Ok(x) => x,
                Err(e) => {
                    return Err(e);
                },
            };
            if str_eq(name, "Signature") {
                let _len = match self.read_u32() {
                    Ok(x) => x,
                    Err(e) => {
                        return Err(e);
                    },
                };
                signature = match self.parse_sig_attr(cp, &mut contains_sig) {
                    Ok(x) => x,
                    Err(e) => {
                        return Err(e);
                    },
                };
            } else {
                let ghost before = views(runtime_annotations@);
                let annotation = match self.parse_runtime_anno(cp, name) {
                    Ok(x) => x,
                    Err(e) => {
                        return Err(e);
                    },
                };
                runtime_annotations.push(annotation);
                proof {
                    assert(views(runtime_annotations@) =~= before.push(annotation@));
                }
            }
            i += 1;
        }
        Ok(RecordComponent { name_index, descriptor_index, signature, runtime_annotations })
    }

    /// Reads the counted components of a `Record` attribute.
    fn read_record_components(&mut self, cp: &ConstantPool) -> (r: Result<Record, ParseError>)
        ensures
            read_as(*old(self), *final(self), r, sp_counted(rec_comp_decoder(cp@), old(self).bytes@, old(self).pos as int)),
    {
        let ghost s = self.bytes@;
        let ghost p_start = self.pos as int;
        let table_len: u16 = match self.read_u16() {
            Ok(n) => n,
            Err(e) => {
                return Err(e);
            },
        };
        let ghost p0 = self.pos as int;
        let mut table: Vec<RecordComponent> = Vec::new();
        let mut i: u16 = 0;
        proof { assert(views(table@) =~= Seq::<RecordComponentView>::empty()); }
        while i < table_len
            invariant
                self.bytes@ == s,
                s == old(self).bytes@,
                p_start == old(self).pos,
                sp_counted(rec_comp_decoder(cp@), s, p_start) == repeat(rec_comp_decoder(cp@), s, p0, table_len as nat),
                0 <= i <= table_len,
                repeat(rec_comp_decoder(cp@), s, p0, i as nat) == Ok::<(Seq<RecordComponentView>, int), ParseError>(
                    (views(table@), self.pos as int),
                ),
            decreases table_len - i,
        {
            let ghost prev = table@;
            match self.parse_rec_comp(cp) {
                Ok(entry) => {
                    table.push(entry);
                    proof { assert(views(table@) =~= views(prev).push(entry@)); }
                },
                Err(e) => {
                    proof {
                        assert(repeat(rec_comp_decoder(cp@), s, p0, (i + 1) as nat) == Err::<(Seq<RecordComponentView>, int), ParseError>(e));
                        lemma_repeat_err(rec_comp_decoder(cp@), s, p0, (i + 1) as nat, table_len as nat);
                    }
                    return Err(e);
                },
            }
            i += 1;
        }
        Ok(Record(table))
    }
    /// Reads and interprets the next bytes as a `Record` attribute; a class may
    /// have only one.
    pub fn parse_record_attr(&mut self, cp: &ConstantPool, rcrd_parsed: &mut bool) -> (r: Result<Record, ParseError>)
        ensures
            *old(rcrd_parsed) ==> r == Err::<Record, ParseError>(ParseError::InvalidAttribute) && *final(self) == *old(self),
            !*old(rcrd_parsed) ==> *final(rcrd_parsed) && read_as(*old(self), *final(self), r, sp_counted(rec_comp_decoder(cp@), old(self).bytes@, old(self).pos as int)),
    {
        if *rcrd_parsed {
            return Err(ParseError::InvalidAttribute);
        }
        *rcrd_parsed = true;
        self.read_record_components(cp)
    }
}

} // verus!
