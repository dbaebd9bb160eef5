//! Decoding of annotations, their element values and the targets and paths
//! of type annotations (JVMS 4.7.16 to 4.7.22).
use vstd::prelude::*;
use crate::annotation::{
    Annotation, AnnotationView, ElementPairs, ElementValue, ElementValueView,
    lemma_array_view, lemma_annotation_value_view,
    LocalVarTargetTable, LocalVarTargetTableEntry, ParameterAnnotation, TypeAnnotation,
    TypeAnnotationView, TypePath, TypePathEntry, TypeTarget, TypeTargetView,
};
use crate::attribute::{RuntimeAnnotation, RuntimeAnnotationView};
use crate::class_reader::{ClassReader, read_as, read_vec_as};
use crate::constant::{Constant, ConstantView};
use crate::constant_pool::{ConstantPool, is_utf8_at};
use crate::decode::{sp_u8, sp_u16, repeat, lemma_repeat_err, sp_counted, views, Decoded, Decoder};
use crate::error::ParseError;
use crate::text::str_eq;

verus! {

/// Whether `tag` is one of the element value tags `B C I Z S` of an `int`
/// constant.
pub open spec fn is_int_tag(tag: u8) -> bool {
    tag == 66 || tag == 67 || tag == 73 || tag == 90 || tag == 83
}

/// Whether `tag` is the tag of an element value that is a constant:
/// `B C I Z S D F J s`.
pub open spec fn is_const_tag(tag: u8) -> bool {
    is_int_tag(tag) || tag == 68 || tag == 70 || tag == 74 || tag == 115
}

/// Whether the constant `c` has the kind that a constant element value with
/// tag `tag` must point at.
pub open spec fn const_fits_tag(c: ConstantView, tag: u8) -> bool {
    if is_int_tag(tag) {
        c is Integer
    } else if tag == 68 {
        c is Double
    } else if tag == 70 {
        c is Float
    } else if tag == 74 {
        c is Long
    } else {
        c is Utf8
    }
}

/// Decodes an element value: its tag, then a constant of the kind the tag
/// names, the type and name of an enum constant (UTF8 constants both), a
/// class, a nested annotation or a counted array of element values.
pub open spec fn sp_element_value(cp: Seq<ConstantView>, s: Seq<u8>, p: int) -> Decoded<ElementValueView>
    decreases s.len() - p, 0int,
{
    if p < 0 || p >= s.len() {
        Err(ParseError::UnexpectedEof)
    } else {
        let tag = s[p];
        let q = p + 1;
        if is_const_tag(tag) {
            match sp_u16(s, q) {
                Err(e) => Err(e),
                Ok((i, r)) => if !(i < cp.len() && const_fits_tag(cp[i as int], tag)) {
                    Err(ParseError::InvalidIndex)
                } else {
                    Ok((ElementValueView::ConstIndex(i as usize), r))
                },
            }
        } else if tag == 101 {
            match sp_u16(s, q) {
                Err(e) => Err(e),
                Ok((a, r)) => if !is_utf8_at(cp, a as int) {
                    Err(ParseError::InvalidIndex)
                } else {
                    match sp_u16(s, r) {
                        Err(e) => Err(e),
                        Ok((b, t)) => if !is_utf8_at(cp, b as int) {
                            Err(ParseError::InvalidIndex)
                        } else {
                            Ok((ElementValueView::EnumConst(a as usize, b as usize), t))
                        },
                    }
                },
            }
        } else if tag == 99 {
            match sp_u16(s, q) {
                Err(e) => Err(e),
                Ok((i, r)) => Ok((ElementValueView::ClassIndex(i as usize), r)),
            }
        } else if tag == 64 {
            match sp_annotation(cp, s, q) {
                Err(e) => Err(e),
                Ok((a, r)) => Ok((ElementValueView::AnnotationValue(a), r)),
            }
        } else if tag == 91 {
            match sp_u16(s, q) {
                Err(e) => Err(e),
                Ok((n, r)) => match sp_element_values(cp, s, r, n as nat) {
                    Err(e) => Err(e),
                    Ok((vs, t)) => Ok((ElementValueView::Array(vs), t)),
                },
            }
        } else {
            Err(ParseError::InvalidElementValue)
        }
    }
}

/// Decodes `n` element values one after the other.
pub open spec fn sp_element_values(cp: Seq<ConstantView>, s: Seq<u8>, p: int, n: nat) -> Decoded<Seq<ElementValueView>>
    decreases s.len() - p, n + 1,
{
    if n == 0 {
        Ok((seq![], p))
    } else if p < 0 || p >= s.len() {
        Err(ParseError::UnexpectedEof)
    } else {
        match sp_element_value(cp, s, p) {
            Err(e) => Err(e),
            Ok((v, q)) => if !(p < q <= s.len()) {
                Err(ParseError::InvalidElementValue)
            } else {
                match sp_element_values(cp, s, q, (n - 1) as nat) {
                    Err(e) => Err(e),
                    Ok((rest, r)) => Ok((seq![v] + rest, r)),
                }
            },
        }
    }
}

/// Decodes an annotation: the index of its type (a UTF8 constant), then its
/// element-value pairs.
pub open spec fn sp_annotation(cp: Seq<ConstantView>, s: Seq<u8>, p: int) -> Decoded<AnnotationView>
    decreases s.len() - p, 0int,
{
    match sp_u16(s, p) {
        Err(e) => Err(e),
        Ok((ti, q)) => if !is_utf8_at(cp, ti as int) {
            Err(ParseError::InvalidIndex)
        } else {
            match sp_element_pairs(cp, s, q) {
                Err(e) => Err(e),
                Ok((ps, r)) => Ok((AnnotationView { type_index: ti as usize, value_pairs: ps }, r)),
            }
        },
    }
}

/// Decodes counted element-value pairs.
pub open spec fn sp_element_pairs(cp: Seq<ConstantView>, s: Seq<u8>, p: int) -> Decoded<Seq<(usize, ElementValueView)>>
    decreases s.len() - p, 1int,
{
    match sp_u16(s, p) {
        Err(e) => Err(e),
        Ok((m, q)) => sp_pairs_from(cp, s, q, m as nat),
    }
}

/// Decodes `n` element-value pairs one after the other; each name must be a
/// UTF8 constant.
pub open spec fn sp_pairs_from(cp: Seq<ConstantView>, s: Seq<u8>, p: int, n: nat) -> Decoded<Seq<(usize, ElementValueView)>>
    decreases s.len() - p, n + 1,
{
    if n == 0 {
        Ok((seq![], p))
    } else {
        match sp_u16(s, p) {
            Err(e) => Err(e),
            Ok((ni, q)) => if !is_utf8_at(cp, ni as int) {
                Err(ParseError::InvalidIndex)
            } else {
                match sp_element_value(cp, s, q) {
                    Err(e) => Err(e),
                    Ok((v, r)) => if !(p < r <= s.len()) {
                        Err(ParseError::InvalidElementValue)
                    } else {
                        match sp_pairs_from(cp, s, r, (n - 1) as nat) {
                            Err(e) => Err(e),
                            Ok((rest, t)) => Ok((seq![(ni as usize, v)] + rest, t)),
                        }
                    },
                }
            },
        }
    }
}

pub open spec fn annotation_decoder(cp: Seq<ConstantView>) -> Decoder<AnnotationView> {
    |s: Seq<u8>, p: int| sp_annotation(cp, s, p)
}

/// Decodes a parameter's counted annotations.
pub open spec fn sp_parameter_annotation(cp: Seq<ConstantView>, s: Seq<u8>, p: int) -> Decoded<Seq<AnnotationView>> {
    sp_counted(annotation_decoder(cp), s, p)
}

pub open spec fn parameter_annotation_decoder(cp: Seq<ConstantView>) -> Decoder<Seq<AnnotationView>> {
    |s: Seq<u8>, p: int| sp_parameter_annotation(cp, s, p)
}

/// Decodes the annotations of the parameters of a method: a one-byte count,
/// then each parameter's annotations.
pub open spec fn sp_para_anno(cp: Seq<ConstantView>, s: Seq<u8>, p: int) -> Decoded<Seq<Seq<AnnotationView>>> {
    match sp_u8(s, p) {
        Err(e) => Err(e),
        Ok((n, q)) => repeat(parameter_annotation_decoder(cp), s, q, n as nat),
    }
}

/// Decodes a type path entry: its kind and the index of a type argument.
pub open spec fn sp_type_path_entry(s: Seq<u8>, p: int) -> Decoded<TypePathEntry> {
    match sp_u8(s, p) {
        Err(e) => Err(e),
        Ok((kind, q)) => match sp_u8(s, q) {
            Err(e) => Err(e),
            Ok((arg, r)) => Ok((TypePathEntry { type_path_kind: kind, type_arg_index: arg as usize }, r)),
        },
    }
}

pub open spec fn type_path_entry_decoder() -> Decoder<TypePathEntry> {
    |s: Seq<u8>, p: int| sp_type_path_entry(s, p)
}

/// Decodes a type path: a one-byte count, then its entries.
pub open spec fn sp_type_path(s: Seq<u8>, p: int) -> Decoded<Seq<TypePathEntry>> {
    match sp_u8(s, p) {
        Err(e) => Err(e),
        Ok((n, q)) => repeat(type_path_entry_decoder(), s, q, n as nat),
    }
}

/// Decodes an entry of a local variable target table.
pub open spec fn sp_local_var_target(s: Seq<u8>, p: int) -> Decoded<LocalVarTargetTableEntry> {
    match sp_u16(s, p) {
        Err(e) => Err(e),
        Ok((start_pc, q)) => match sp_u16(s, q) {
            Err(e) => Err(e),
            Ok((length, r)) => match sp_u16(s, r) {
                Err(e) => Err(e),
                Ok((index, t)) => Ok(
                    (LocalVarTargetTableEntry { start_pc, length, index: index as usize }, t),
                ),
            },
        },
    }
}

pub open spec fn local_var_target_decoder() -> Decoder<LocalVarTargetTableEntry> {
    |s: Seq<u8>, p: int| sp_local_var_target(s, p)
}

/// One `u8` as an index.
pub open spec fn sp_u8_index(s: Seq<u8>, p: int) -> Decoded<usize> {
    match sp_u8(s, p) {
        Err(e) => Err(e),
        Ok((x, q)) => Ok((x as usize, q)),
    }
}

/// One `u16` as an index.
pub open spec fn sp_u16_index(s: Seq<u8>, p: int) -> Decoded<usize> {
    match sp_u16(s, p) {
        Err(e) => Err(e),
        Ok((x, q)) => Ok((x as usize, q)),
    }
}

/// Decodes the target of a type annotation: its `target_type` byte, then the
/// fields that type has.
pub open spec fn sp_type_target(s: Seq<u8>, p: int) -> Decoded<TypeTargetView> {
    match sp_u8(s, p) {
        Err(e) => Err(e),
        Ok((value, q)) => if value == 0x00 || value == 0x01 {
            match sp_u8_index(s, q) {
                Ok((i, r)) => Ok((TypeTargetView::TypeParameter { value, type_param_index: i }, r)),
                Err(e) => Err(e),
            }
        } else if value == 0x10 {
            match sp_u16_index(s, q) {
                Ok((i, r)) => Ok((TypeTargetView::SuperType { value, supertype_index: i }, r)),
                Err(e) => Err(e),
            }
        } else if value == 0x11 || value == 0x12 {
            match sp_u8_index(s, q) {
                Err(e) => Err(e),
                Ok((i, r)) => match sp_u8_index(s, r) {
                    Ok((b, t)) => Ok(
                        (
                            TypeTargetView::TypeParameterBound {
                                value,
                                type_parameter_index: i,
                                bound_index: b,
                            },
                            t,
                        ),
                    ),
                    Err(e) => Err(e),
                },
            }
        } else if 0x13 <= value <= 0x15 {
            Ok((TypeTargetView::Empty(value), q))
        } else if value == 0x16 {
            match sp_u8_index(s, q) {
                Ok((i, r)) => Ok((TypeTargetView::FormalParameter { value, formal_param_index: i }, r)),
                Err(e) => Err(e),
            }
        } else if value == 0x17 {
            match sp_u16_index(s, q) {
                Ok((i, r)) => Ok((TypeTargetView::Throws { value, throws_type_index: i }, r)),
                Err(e) => Err(e),
            }
        } else if value == 0x40 || value == 0x41 {
            match sp_counted(local_var_target_decoder(), s, q) {
                Ok((t, r)) => Ok((TypeTargetView::LocalVar { value, target_table: t }, r)),
                Err(e) => Err(e),
            }
        } else if value == 0x42 {
            match sp_u16_index(s, q) {
                Ok((i, r)) => Ok((TypeTargetView::Catch { value, exception_table_index: i }, r)),
                Err(e) => Err(e),
            }
        } else if 0x43 <= value <= 0x46 {
            match sp_u16(s, q) {
                Ok((o, r)) => Ok((TypeTargetView::Offset { value, offset: o }, r)),
                Err(e) => Err(e),
            }
        } else if 0x47 <= value <= 0x4B {
            match sp_u16(s, q) {
                Err(e) => Err(e),
                Ok((o, r)) => match sp_u8_index(s, r) {
                    Ok((i, t)) => Ok(
                        (TypeTargetView::TypeArgument { value, offset: o, type_arg_index: i }, t),
                    ),
                    Err(e) => Err(e),
                },
            }
        } else {
            Err(ParseError::InvalidTypeTarget)
        },
    }
}

/// Decodes a type annotation: its target, its path, the index of its type and
/// its element-value pairs.
pub open spec fn sp_type_annotation(cp: Seq<ConstantView>, s: Seq<u8>, p: int) -> Decoded<TypeAnnotationView> {
    match sp_type_target(s, p) {
        Err(e) => Err(e),
        Ok((target, q)) => match sp_type_path(s, q) {
            Err(e) => Err(e),
            Ok((path, r)) => match sp_u16(s, r) {
                Err(e) => Err(e),
                Ok((ti, t)) => match sp_element_pairs(cp, s, t) {
                    Err(e) => Err(e),
                    Ok((pairs, u)) => Ok(
                        (
                            TypeAnnotationView {
                                type_target: target,
                                type_path: path,
                                type_index: ti as usize,
                                value_pairs: pairs,
                            },
                            u,
                        ),
                    ),
                },
            },
        },
    }
}

pub open spec fn type_annotation_decoder(cp: Seq<ConstantView>) -> Decoder<TypeAnnotationView> {
    |s: Seq<u8>, p: int| sp_type_annotation(cp, s, p)
}

/// Decodes the body of an annotation attribute named `name`: counted
/// annotations, parameter annotations or type annotations, or the
/// element-value pair of an `AnnotationDefault`. Any other name is an error.
pub open spec fn sp_runtime_anno(cp: Seq<ConstantView>, name: Seq<char>, s: Seq<u8>, p: int) -> Decoded<RuntimeAnnotationView> {
    if name == "RuntimeVisibleAnnotations"@ {
        match sp_counted(annotation_decoder(cp), s, p) {
            Ok((v, q)) => Ok((RuntimeAnnotationView::RuntimeVisibleAnnotations(v), q)),
            Err(e) => Err(e),
        }
    } else if name == "RuntimeInvisibleAnnotations"@ {
        match sp_counted(annotation_decoder(cp), s, p) {
            Ok((v, q)) => Ok((RuntimeAnnotationView::RuntimeInvisibleAnnotations(v), q)),
            Err(e) => Err(e),
        }
    } else if name == "RuntimeInvisibleParameterAnnotations"@ {
        match sp_para_anno(cp, s, p) {
            Ok((v, q)) => Ok((RuntimeAnnotationView::RuntimeInvisibleParameterAnnotations(v), q)),
            Err(e) => Err(e),
        }
    } else if name == "RuntimeVisibleParameterAnnotations"@ {
        match sp_para_anno(cp, s, p) {
            Ok((v, q)) => Ok((RuntimeAnnotationView::RuntimeVisibleParameterAnnotations(v), q)),
            Err(e) => Err(e),
        }
    } else if name == "RuntimeInvisibleTypeAnnotations"@ {
        match sp_counted(type_annotation_decoder(cp), s, p) {
            Ok((v, q)) => Ok((RuntimeAnnotationView::RuntimeInvisibleTypeAnnotations(v), q)),
            Err(e) => Err(e),
        }
    } else if name == "RuntimeVisibleTypeAnnotations"@ {
        match sp_counted(type_annotation_decoder(cp), s, p) {
            Ok((v, q)) => Ok((RuntimeAnnotationView::RuntimeVisibleTypeAnnotations(v), q)),
            Err(e) => Err(e),
        }
    } else if name == "AnnotationDefault"@ {
        match sp_u16(s, p) {
            Err(e) => Err(e),
            Ok((i, q)) => match sp_element_value(cp, s, q) {
                Ok((v, r)) => Ok((RuntimeAnnotationView::AnnotationDefault((i as usize, v)), r)),
                Err(e) => Err(e),
            },
        }
    } else {
        Err(ParseError::InvalidAnnotation)
    }
}

/// Whether the entry at `index` of `cp` has the kind a constant element value
/// with tag `tag` must point at.
fn const_fits(cp: &ConstantPool, index: usize, tag: u8) -> (b: bool)
    requires
        is_const_tag(tag),
    ensures
        b == (index < cp@.len() && const_fits_tag(cp@[index as int], tag)),
{
    match cp.get(index) {
        Some(Constant::Integer(_)) => tag == 66 || tag == 67 || tag == 73 || tag == 90 || tag == 83,
        Some(Constant::Double(_)) => tag == 68,
        Some(Constant::Float(_)) => tag == 70,
        Some(Constant::Long(_)) => tag == 74,
        Some(Constant::UTF8(_)) => tag == 115,
        _ => false,
    }
}

impl ClassReader {
    /// Reads and interprets the next bytes as an element value.
    pub fn parse_element_value(&mut self, cp: &ConstantPool) -> (r: Result<ElementValue, ParseError>)
        ensures
            read_as(*old(self), *final(self), r, sp_element_value(cp@, old(self).bytes@, old(self).pos as int)),
            r is Ok ==> old(self).pos < final(self).pos <= final(self).bytes@.len(),
        decreases old(self).bytes@.len() - old(self).pos,
    {
        let ghost s = self.bytes@;
        let ghost p = self.pos as int;
        let tag = match self.read_u8() {
            Ok(t) => t,
            Err(e) => {
                return Err(e);
            },
        };
        assert(s[p] == tag);
        if tag == 66 || tag == 67 || tag == 73 || tag == 90 || tag == 83 || tag == 68 || tag == 70
            || tag == 74 || tag == 115 {
            // B C I Z S: an int; D: a double; F: a float; J: a long; s: a string.
            let const_type_index = match self.read_u16() {
                Ok(x) => x as usize,
                Err(e) => {
                    return Err(e);
                },
            };
            if !const_fits(cp, const_type_index, tag) {
                return Err(ParseError::InvalidIndex);
            }
            Ok(ElementValue::ConstIndex(const_type_index))
        } else if tag == 101 {
            // e: an enum constant.
            let type_name_index = match self.read_u16() {
                Ok(x) => x as usize,
                Err(e) => {
                    return Err(e);
                },
            };
            match Self::verify_utf8(cp, type_name_index) {
                Ok(()) => {},
                Err(e) => {
                    return Err(e);
                },
            }
            let const_name_index = match self.read_u16() {
                Ok(x) => x as usize,
                Err(e) => {
                    return Err(e);
                },
            };
            match Self::verify_utf8(cp, const_name_index) {
                Ok(()) => {},
                Err(e) => {
                    return Err(e);
                },
            }
            Ok(ElementValue::EnumConst(type_name_index, const_name_index))
        } else if tag == 99 {
            // c: a class.
            match self.read_u16() {
                Ok(x) => Ok(ElementValue::ClassIndex(x as usize)),
                Err(e) => Err(e),
            }
        } else if tag == 64 {
            // @: a nested annotation.
            match self.parse_invis_vis_inner_anno(cp) {
                Ok(a) => {
                    proof {
                        lemma_annotation_value_view(a);
                    }
                    Ok(ElementValue::AnnotationValue(a))
                },
                Err(e) => Err(e),
            }
        } else if tag == 91 {
            // [: an array.
            let len = match self.read_u16() {
                Ok(n) => n,
                Err(e) => {
                    return Err(e);
                },
            };
            let ghost p0 = self.pos as int;
            let mut values: Vec<ElementValue> = Vec::new();
            let mut i: u16 = 0;
            proof {
                assert(views(values@) =~= Seq::<ElementValueView>::empty());
            }
            while i < len
                invariant
                    self.bytes@ == s,
                    s == old(self).bytes@,
                    p == old(self).pos,
                    p < p0 <= self.pos <= s.len(),
                    i <= len,
                    sp_element_value(cp@, s, p) == match sp_element_values(cp@, s, p0, len as nat) {
                        Err(e) => Err(e),
                        Ok((vs, t)) => Ok((ElementValueView::Array(vs), t)),
                    },
                    sp_element_values(cp@, s, p0, len as nat) == match sp_element_values(cp@, s, self.pos as int, (len - i) as nat) {
                        Err(e) => Err(e),
                        Ok((rest, t)) => Ok((views(values@) + rest, t)),
                    },
                decreases len - i,
            {
                let ghost before = views(values@);
                let ghost q = self.pos as int;
                match self.parse_element_value(cp) {
                    Ok(v) => {
                        values.push(v);
                        proof {
                            assert(views(values@) =~= before.push(v@));
                            match sp_element_values(cp@, s, self.pos as int, (len - i - 1) as nat) {
                                Ok((rest, t)) => {
                                    assert(before + (seq![v@] + rest) =~= views(values@) + rest);
                                },
                                Err(e) => {},
                            }
                        }
                    },
                    Err(e) => {
                        return Err(e);
                    },
                }
                i += 1;
            }
            proof {
                assert(views(values@) + seq![] =~= views(values@));
                lemma_array_view(values);
            }
            Ok(ElementValue::Array(values))
        } else {
            Err(ParseError::InvalidElementValue)
        }
    }

    /// Reads and interprets the next bytes as an annotation.
    pub fn parse_invis_vis_inner_anno(&mut self, cp: &ConstantPool) -> (r: Result<Annotation, ParseError>)
        ensures
            read_as(*old(self), *final(self), r, sp_annotation(cp@, old(self).bytes@, old(self).pos as int)),
            r is Ok ==> old(self).pos < final(self).pos <= final(self).bytes@.len(),
        decreases old(self).bytes@.len() - old(self).pos,
    {
        let type_index = match self.read_u16() {
            Ok(x) => x as usize,
            Err(e) => {
                return Err(e);
            },
        };
        match Self::verify_utf8(cp, type_index) {
            Ok(()) => {},
            Err(e) => {
                return Err(e);
            },
        }
        match self.parse_element_pairs(cp) {
            Ok(value_pairs) => Ok(Annotation { type_index, value_pairs }),
            Err(e) => Err(e),
        }
    }

    /// Reads and interprets the next bytes as counted element-value pairs.
    pub fn parse_element_pairs(&mut self, cp: &ConstantPool) -> (r: Result<Vec<ElementPairs>, ParseError>)
        ensures
            read_vec_as(*old(self), *final(self), r, sp_element_pairs(cp@, old(self).bytes@, old(self).pos as int)),
            r is Ok ==> old(self).pos < final(self).pos <= final(self).bytes@.len(),
        decreases old(self).bytes@.len() - old(self).pos,
    {
        let ghost s = self.bytes@;
        let ghost p = self.pos as int;
        let pairs_len = match self.read_u16() {
            Ok(n) => n,
            Err(e) => {
                return Err(e);
            },
        };
        let ghost p0 = self.pos as int;
        let mut pairs: Vec<ElementPairs> = Vec::new();
        let mut i: u16 = 0;
        proof {
            assert(views(pairs@) =~= Seq::<(usize, ElementValueView)>::empty());
        }
        while i < pairs_len
            invariant
                self.bytes@ == s,
                s == old(self).bytes@,
                p == old(self).pos,
                p < p0 <= self.pos <= s.len(),
                i <= pairs_len,
                sp_element_pairs(cp@, s, p) == sp_pairs_from(cp@, s, p0, pairs_len as nat),
                sp_pairs_from(cp@, s, p0, pairs_len as nat) == match sp_pairs_from(cp@, s, self.pos as int, (pairs_len - i) as nat) {
                    Err(e) => Err(e),
                    Ok((rest, t)) => Ok((views(pairs@) + rest, t)),
                },
            decreases pairs_len - i,
        {
            let ghost before = views(pairs@);
            let name_index = match self.read_u16() {
                Ok(x) => x as usize,
                Err(e) => {
                    return Err(e);
                },
            };
            match Self::verify_utf8(cp, name_index) {
                Ok(()) => {},
                Err(e) => {
                    return Err(e);
                },
            }
            match self.parse_element_value(cp) {
                Ok(v) => {
                    let pair = ElementPairs(name_index, v);
                    pairs.push(pair);
                    proof {
                        assert(views(pairs@) =~= before.push(pair@));
                        match sp_pairs_from(cp@, s, self.pos as int, (pairs_len - i - 1) as nat) {
                            Ok((rest, t)) => {
                                assert(before + (seq![pair@] + rest) =~= views(pairs@) + rest);
                            },
                            Err(e) => {},
                        }
                    }
                },
                Err(e) => {
                    return Err(e);
                },
            }
            i += 1;
        }
        proof {
            assert(views(pairs@) + seq![] =~= views(pairs@));
        }
        Ok(pairs)
    }

    /// Reads and interprets the next bytes as the counted annotations of a `RuntimeVisibleAnnotations` or `RuntimeInvisibleAnnotations` attribute.
    pub fn parse_invis_vis_anno(&mut self, cp: &ConstantPool) -> (r: Result<Vec<Annotation>, ParseError>)
        ensures
            read_vec_as(*old(self), *final(self), r, sp_counted(annotation_decoder(cp@), old(self).bytes@, old(self).pos as int)),
    {
        let ghost s = self.bytes@;
        let ghost p_start = self.pos as int;
        let table_len: u16 = match self.read_u16() {
            Ok(n) => n,
            Err(e) => {
                return Err(e);
            },
        };
        let ghost p0 = self.pos as int;
        let mut table: Vec<Annotation> = Vec::new();
        let mut i: u16 = 0;
        proof { assert(views(table@) =~= Seq::<AnnotationView>::empty()); }
        while i < table_len
            invariant
                self.bytes@ == s,
                s == old(self).bytes@,
                p_start == old(self).pos,
                sp_counted(annotation_decoder(cp@), s, p_start) == repeat(annotation_decoder(cp@), s, p0, table_len as nat),
                0 <= i <= table_len,
                repeat(annotation_decoder(cp@), s, p0, i as nat) == Ok::<(Seq<AnnotationView>, int), ParseError>(
                    (views(table@), self.pos as int),
                ),
            decreases table_len - i,
        {
            let ghost prev = table@;
            match self.parse_invis_vis_inner_anno(cp) {
                Ok(entry) => {
                    table.push(entry);
                    proof { assert(views(table@) =~= views(prev).push(entry@)); }
                },
                Err(e) => {
                    proof {
                        assert(repeat(annotation_decoder(cp@), s, p0, (i + 1) as nat) == Err::<(Seq<AnnotationView>, int), ParseError>(e));
                        lemma_repeat_err(annotation_decoder(cp@), s, p0, (i + 1) as nat, table_len as nat);
                    }
                    return Err(e);
                },
            }
            i += 1;
        }
        Ok(table)
    }
    /// Reads the counted annotations of one parameter.
    fn read_parameter_annotation(&mut self, cp: &ConstantPool) -> (r: Result<ParameterAnnotation, ParseError>)
        ensures
            read_as(*old(self), *final(self), r, sp_parameter_annotation(cp@, old(self).bytes@, old(self).pos as int)),
    {
        match self.parse_invis_vis_anno(cp) {
            Ok(v) => Ok(ParameterAnnotation(v)),
            Err(e) => Err(e),
        }
    }

    /// Reads and interprets the next bytes as the annotations of the parameters of a method.
    pub fn parse_para_anno(&mut self, cp: &ConstantPool) -> (r: Result<Vec<ParameterAnnotation>, ParseError>)
        ensures
            read_vec_as(*old(self), *final(self), r, sp_para_anno(cp@, old(self).bytes@, old(self).pos as int)),
    {
        let ghost s = self.bytes@;
        let ghost p_start = self.pos as int;
        let table_len: u8 = match self.read_u8() {
            Ok(n) => n,
            Err(e) => {
                return Err(e);
            },
        };
        let ghost p0 = self.pos as int;
        let mut table: Vec<ParameterAnnotation> = Vec::new();
        let mut i: u8 = 0;
        proof { assert(views(table@) =~= Seq::<Seq<AnnotationView>>::empty()); }
        while i < table_len
            invariant
                self.bytes@ == s,
                s == old(self).bytes@,
                p_start == old(self).pos,
                sp_para_anno(cp@, s, p_start) == repeat(parameter_annotation_decoder(cp@), s, p0, table_len as nat),
                0 <= i <= table_len,
                repeat(parameter_annotation_decoder(cp@), s, p0, i as nat) == Ok::<(Seq<Seq<AnnotationView>>, int), ParseError>(
                    (views(table@), self.pos as int),
                ),
            decreases table_len - i,
        {
            let ghost prev = table@;
            match self.read_parameter_annotation(cp) {
                Ok(entry) => {
                    table.push(entry);
                    proof { assert(views(table@) =~= views(prev).push(entry@)); }
                },
                Err(e) => {
                    proof {
                        assert(repeat(parameter_annotation_decoder(cp@), s, p0, (i + 1) as nat) == Err::<(Seq<Seq<AnnotationView>>, int), ParseError>(e));
                        lemma_repeat_err(parameter_annotation_decoder(cp@), s, p0, (i + 1) as nat, table_len as nat);
                    }
                    return Err(e);
                },
            }
            i += 1;
        }
        Ok(table)
    }
    /// Reads a type path entry.
    fn read_type_path_entry(&mut self) -> (r: Result<TypePathEntry, ParseError>)
        ensures
            read_as(*old(self), *final(self), r, sp_type_path_entry(old(self).bytes@, old(self).pos as int)),
    {
        let type_path_kind = match self.read_u8() {
            Ok(x) => x,
            Err(e) => {
                return Err(e);
            },
        };
        match self.read_u8() {
            Ok(a) => Ok(TypePathEntry { type_path_kind, type_arg_index: a as usize }),
            Err(e) => Err(e),
        }
    }

    /// Reads and interprets the next bytes as a type path.
    pub fn parse_type_path(&mut self) -> (r: Result<TypePath, ParseError>)
        ensures
            read_as(*old(self), *final(self), r, sp_type_path(old(self).bytes@, old(self).pos as int)),
    {
        let ghost s = self.bytes@;
        let ghost p_start = self.pos as int;
        let table_len: u8 = match self.read_u8() {
            Ok(n) => n,
            Err(e) => {
                return Err(e);
            },
        };
        let ghost p0 = self.pos as int;
        let mut table: Vec<TypePathEntry> = Vec::new();
        let mut i: u8 = 0;
        
        while i < table_len
            invariant
                self.bytes@ == s,
                s == old(self).bytes@,
                p_start == old(self).pos,
                sp_type_path(s, p_start) == repeat(type_path_entry_decoder(), s, p0, table_len as nat),
                0 <= i <= table_len,
                repeat(type_path_entry_decoder(), s, p0, i as nat) == Ok::<(Seq<TypePathEntry>, int), ParseError>(
                    (table@, self.pos as int),
                ),
            decreases table_len - i,
        {
            let ghost prev = table@;
            match self.read_type_path_entry() {
                Ok(entry) => {
                    table.push(entry);
                    
                },
                Err(e) => {
                    proof {
                        assert(repeat(type_path_entry_decoder(), s, p0, (i + 1) as nat) == Err::<(Seq<TypePathEntry>, int), ParseError>(e));
                        lemma_repeat_err(type_path_entry_decoder(), s, p0, (i + 1) as nat, table_len as nat);
                    }
                    return Err(e);
                },
            }
            i += 1;
        }
        Ok(TypePath(table))
    }
    /// Reads an entry of a local variable target table.
    fn read_local_var_target(&mut self) -> (r: Result<LocalVarTargetTableEntry, ParseError>)
        ensures
            read_as(*old(self), *final(self), r, sp_local_var_target(old(self).bytes@, old(self).pos as int)),
    {
        let start_pc = match self.read_u16() {
            Ok(x) => x,
            Err(e) => {
                return Err(e);
            },
        };
        let length = match self.read_u16() {
            Ok(x) => x,
            Err(e) => {
                return Err(e);
            },
        };
        match self.read_u16() {
            Ok(index) => Ok(LocalVarTargetTableEntry { start_pc, length, index: index as usize }),
            Err(e) => Err(e),
        }
    }

    /// Reads the table of a local variable target.
    fn read_local_var_targets(&mut self) -> (r: Result<LocalVarTargetTable, ParseError>)
        ensures
            read_as(*old(self), *final(self), r, sp_counted(local_var_target_decoder(), old(self).bytes@, old(self).pos as int)),
    {
        let ghost s = self.bytes@;
        let ghost p_start = self.pos as int;
        let table_len: u16 = match self.read_u16() {
            Ok(n) => n,
            Err(e) => {
                return Err(e);
            },
        };
        let ghost p0 = self.pos as int;
        let mut table: Vec<LocalVarTargetTableEntry> = Vec::new();
        let mut i: u16 = 0;
        
        while i < table_len
            invariant
                self.bytes@ == s,
                s == old(self).bytes@,
                p_start == old(self).pos,
                sp_counted(local_var_target_decoder(), s, p_start) == repeat(local_var_target_decoder(), s, p0, table_len as nat),
                0 <= i <= table_len,
                repeat(local_var_target_decoder(), s, p0, i as nat) == Ok::<(Seq<LocalVarTargetTableEntry>, int), ParseError>(
                    (table@, self.pos as int),
                ),
            decreases table_len - i,
        {
            let ghost prev = table@;
            match self.read_local_var_target() {
                Ok(entry) => {
                    table.push(entry);
                    
                },
                Err(e) => {
                    proof {
                        assert(repeat(local_var_target_decoder(), s, p0, (i + 1) as nat) == Err::<(Seq<LocalVarTargetTableEntry>, int), ParseError>(e));
                        lemma_repeat_err(local_var_target_decoder(), s, p0, (i + 1) as nat, table_len as nat);
                    }
                    return Err(e);
                },
            }
            i += 1;
        }
        Ok(LocalVarTargetTable(table))
    }
    /// Reads a `u8` as an index.
    fn read_u8_index(&mut self) -> (r: Result<usize, ParseError>)
        ensures
            read_as(*old(self), *final(self), r, sp_u8_index(old(self).bytes@, old(self).pos as int)),
    {
        match self.read_u8() {
            Ok(x) => Ok(x as usize),
            Err(e) => Err(e),
        }
    }

    /// Reads a `u16` as an index.
    fn read_u16_index(&mut self) -> (r: Result<usize, ParseError>)
        ensures
            read_as(*old(self), *final(self), r, sp_u16_index(old(self).bytes@, old(self).pos as int)),
    {
        match self.read_u16() {
            Ok(x) => Ok(x as usize),
            Err(e) => Err(e),
        }
    }

    /// Reads and interprets the next bytes as the target of a type annotation.
    pub fn parse_type_target(&mut self) -> (r: Result<TypeTarget, ParseError>)
        ensures
            read_as(*old(self), *final(self), r, sp_type_target(old(self).bytes@, old(self).pos as int)),
    {
        let value = match self.read_u8() {
            Ok(x) => x,
            Err(e) => {
                return Err(e);
            },
        };
        if value == 0x00 || value == 0x01 {
            match self.read_u8_index() {
                Ok(i) => Ok(TypeTarget::TypeParameter { value, type_param_index: i }),
                Err(e) => Err(e),
            }
        } else if value == 0x10 {
            match self.read_u16_index() {
                Ok(i) => Ok(TypeTarget::SuperType { value, supertype_index: i }),
                Err(e) => Err(e),
            }
        } else if value == 0x11 || value == 0x12 {
            let type_parameter_index = match self.read_u8_index() {
                Ok(i) => i,
                Err(e) => {
                    return Err(e);
                },
            };
            match self.read_u8_index() {
                Ok(bound_index) => Ok(
                    TypeTarget::TypeParameterBound { value, type_parameter_index, bound_index },
                ),
                Err(e) => Err(e),
            }
        } else if 0x13 <= value && value <= 0x15 {
            Ok(TypeTarget::Empty(value))
        } else if value == 0x16 {
            match self.read_u8_index() {
                Ok(i) => Ok(TypeTarget::FormalParameter { value, formal_param_index: i }),
                Err(e) => Err(e),
            }
        } else if value == 0x17 {
            match self.read_u16_index() {
                Ok(i) => Ok(TypeTarget::Throws { value, throws_type_index: i }),
                Err(e) => Err(e),
            }
        } else if value == 0x40 || value == 0x41 {
            match self.read_local_var_targets() {
                Ok(target_table) => Ok(TypeTarget::LocalVar { value, target_table }),
                Err(e) => Err(e),
            }
        } else if value == 0x42 {
            match self.read_u16_index() {
                Ok(i) => Ok(TypeTarget::Catch { value, exception_table_index: i }),
                Err(e) => Err(e),
            }
        } else if 0x43 <= value && value <= 0x46 {
            match self.read_u16() {
                Ok(offset) => Ok(TypeTarget::Offset { value, offset }),
                Err(e) => Err(e),
            }
        } else if 0x47 <= value && value <= 0x4B {
            let offset = match self.read_u16() {
                Ok(o) => o,
                Err(e) => {
                    return Err(e);
                },
            };
            match self.read_u8_index() {
                Ok(i) => Ok(TypeTarget::TypeArgument { value, offset, type_arg_index: i }),
                Err(e) => Err(e),
            }
        } else {
            Err(ParseError::InvalidTypeTarget)
        }
    }

    /// Reads a type annotation.
    fn read_type_annotation(&mut self, cp: &ConstantPool) -> (r: Result<TypeAnnotation, ParseError>)
        ensures
            read_as(*old(self), *final(self), r, sp_type_annotation(cp@, old(self).bytes@, old(self).pos as int)),
    {
        let type_target = match self.parse_type_target() {
            Ok(t) => t,
            Err(e) => {
                return Err(e);
            },
        };
        let type_path = match self.parse_type_path() {
            Ok(t) => t,
            Err(e) => {
                return Err(e);
            },
        };
        let type_index = match self.read_u16() {
            Ok(x) => x as usize,
            Err(e) => {
                return Err(e);
            },
        };
        match self.parse_element_pairs(cp) {
            Ok(value_pairs) => Ok(TypeAnnotation { type_target, type_path, type_index, value_pairs }),
            Err(e) => Err(e),
        }
    }

    /// Reads and interprets the next bytes as counted type annotations.
    pub fn parse_type_anno(&mut self, cp: &ConstantPool) -> (r: Result<Vec<TypeAnnotation>, ParseError>)
        ensures
            read_vec_as(*old(self), *final(self), r, sp_counted(type_annotation_decoder(cp@), old(self).bytes@, old(self).pos as int)),
    {
        let ghost s = self.bytes@;
        let ghost p_start = self.pos as int;
        let table_len: u16 = match self.read_u16() {
            Ok(n) => n,
            Err(e) => {
                return Err(e);
            },
        };
        let ghost p0 = self.pos as int;
        let mut table: Vec<TypeAnnotation> = Vec::new();
        let mut i: u16 = 0;
        proof { assert(views(table@) =~= Seq::<TypeAnnotationView>::empty()); }
        while i < table_len
            invariant
                self.bytes@ == s,
                s == old(self).bytes@,
                p_start == old(self).pos,
                sp_counted(type_annotation_decoder(cp@), s, p_start) == repeat(type_annotation_decoder(cp@), s, p0, table_len as nat),
                0 <= i <= table_len,
                repeat(type_annotation_decoder(cp@), s, p0, i as nat) == Ok::<(Seq<TypeAnnotationView>, int), ParseError>(
                    (views(table@), self.pos as int),
                ),
            decreases table_len - i,
        {
            let ghost prev = table@;
            match self.read_type_annotation(cp) {
                Ok(entry) => {
                    table.push(entry);
                    proof { assert(views(table@) =~= views(prev).push(entry@)); }
                },
                Err(e) => {
                    proof {
                        assert(repeat(type_annotation_decoder(cp@), s, p0, (i + 1) as nat) == Err::<(Seq<TypeAnnotationView>, int), ParseError>(e));
                        lemma_repeat_err(type_annotation_decoder(cp@), s, p0, (i + 1) as nat, table_len as nat);
                    }
                    return Err(e);
                },
            }
            i += 1;
        }
        Ok(table)
    }
    /// Reads and interprets the next bytes as the body of the annotation
    /// attribute called `name`.
    pub fn parse_runtime_anno(&mut self, cp: &ConstantPool, name: &str) -> (r: Result<RuntimeAnnotation, ParseError>)
        ensures
            read_as(*old(self), *final(self), r, sp_runtime_anno(cp@, name@, old(self).bytes@, old(self).pos as int)),
    {
        if str_eq(name, "RuntimeVisibleAnnotations") {
            match self.parse_invis_vis_anno(cp) {
                Ok(v) => Ok(RuntimeAnnotation::RuntimeVisibleAnnotations(v)),
                Err(e) => Err(e),
            }
        } else if str_eq(name, "RuntimeInvisibleAnnotations") {
            match self.parse_invis_vis_anno(cp) {
                Ok(v) => Ok(RuntimeAnnotation::RuntimeInvisibleAnnotations(v)),
                Err(e) => Err(e),
            }
        } else if str_eq(name, "RuntimeInvisibleParameterAnnotations") {
            match self.parse_para_anno(cp) {
                Ok(v) => Ok(RuntimeAnnotation::RuntimeInvisibleParameterAnnotations(v)),
                Err(e) => Err(e),
            }
        } else if str_eq(name, "RuntimeVisibleParameterAnnotations") {
            match self.parse_para_anno(cp) {
                Ok(v) => Ok(RuntimeAnnotation::RuntimeVisibleParameterAnnotations(v)),
                Err(e) => Err(e),
            }
        } else if str_eq(name, "RuntimeInvisibleTypeAnnotations") {
            match self.parse_type_anno(cp) {
                Ok(v) => Ok(RuntimeAnnotation::RuntimeInvisibleTypeAnnotations(v)),
                Err(e) => Err(e),
            }
        } else if str_eq(name, "RuntimeVisibleTypeAnnotations") {
            match self.parse_type_anno(cp) {
                Ok(v) => Ok(RuntimeAnnotation::RuntimeVisibleTypeAnnotations(v)),
                Err(e) => Err(e),
            }
        } else if str_eq(name, "AnnotationDefault") {
        let index = match self.read_u16() {
            Ok(x) => x as usize,
            Err(e) => {
                return Err(e);
            },
        };
            match self.parse_element_value(cp) {
                Ok(v) => Ok(RuntimeAnnotation::AnnotationDefault(ElementPairs(index, v))),
                Err(e) => Err(e),
            }
        } else {
            Err(ParseError::InvalidAnnotation)
        }
    }
}

} // verus!
