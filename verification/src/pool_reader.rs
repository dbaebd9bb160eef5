//! Decoding of the constant pool and of the modified UTF-8 strings it holds
//! (JVMS 4.4).
use vstd::prelude::*;
use vstd::utf8::{is_scalar, encode_utf8, encode_scalar};
use crate::class_reader::{ClassReader, read_as};
use crate::constant::{Constant, ConstantView};
use crate::constant_pool::ConstantPool;
use crate::decode::{sp_u8, sp_u16, sp_u32, sp_i64, sp_u64, sp_bytes, Decoded};
use crate::error::ParseError;
use crate::text::{push_char, char_from_u32};

verus! {

/// The code point of a supplementary character held in the six-byte form of
/// modified UTF-8 (JVMS 4.4.7), given the bytes `v`, `w`, `y` and `z` of the
/// form `0xED v w 0xED y z`: the two surrogates' bits put together.
pub open spec fn six_byte_code(v: u8, w: u8, y: u8, z: u8) -> u32 {
    (0x10000u32 + ((((v & 0x0F) as u32) << 16) | (((w & 0x3F) as u32) << 10) | (((y & 0x0F)
        as u32) << 6) | ((z & 0x3F) as u32))) as u32
}

/// Whether the bytes of `b` from `i` on start with the six-byte form of a
/// supplementary character: a high surrogate `0xED 0xA? ..` followed by a
/// low surrogate `0xED 0xB? ..`.
pub open spec fn starts_six_byte_form(b: Seq<u8>, i: int) -> bool {
    &&& 0 <= i
    &&& i + 5 < b.len()
    &&& b[i] == 0xED
    &&& b[i + 1] & 0xF0 == 0xA0
    &&& b[i + 3] == 0xED
    &&& b[i + 4] & 0xF0 == 0xB0
}

/// Decodes the modified UTF-8 bytes `b[i..]` (JVMS 4.4.7), which hold
/// characters of one, two or three bytes, and supplementary characters as
/// two three-byte surrogates (six bytes). There is no string where a
/// character is cut short, where a byte starts none of these forms, or where
/// a code point is not a Unicode scalar value.
pub open spec fn jvm_utf8_from(b: Seq<u8>, i: int) -> Option<Seq<char>>
    decreases b.len() - i,
{
    if i < 0 || i >= b.len() {
        Some(seq![])
    } else {
        let x = b[i];
        if x & 0x80 == 0 {
            match jvm_utf8_from(b, i + 1) {
                Some(rest) => Some(seq![x as char] + rest),
                None => None,
            }
        } else if x & 0xE0 == 0xC0 {
            if i + 1 < b.len() {
                let code = (((x & 0x1F) as u32) << 6) | ((b[i + 1] & 0x3F) as u32);
                if is_scalar(code) {
                    match jvm_utf8_from(b, i + 2) {
                        Some(rest) => Some(seq![code as char] + rest),
                        None => None,
                    }
                } else {
                    None
                }
            } else {
                None
            }
        } else if starts_six_byte_form(b, i) {
            let code = six_byte_code(b[i + 1], b[i + 2], b[i + 4], b[i + 5]);
            if is_scalar(code) {
                match jvm_utf8_from(b, i + 6) {
                    Some(rest) => Some(seq![code as char] + rest),
                    None => None,
                }
            } else {
                None
            }
        } else if x & 0xF0 == 0xE0 {
            if i + 2 < b.len() {
                let code = (((x & 0x0F) as u32) << 12) | (((b[i + 1] & 0x3F) as u32) << 6) | ((b[i
                    + 2] & 0x3F) as u32);
                if is_scalar(code) {
                    match jvm_utf8_from(b, i + 3) {
                        Some(rest) => Some(seq![code as char] + rest),
                        None => None,
                    }
                } else {
                    None
                }
            } else {
                None
            }
        } else {
            None
        }
    }
}

/// Bytes below 0x80 are each one character: modified UTF-8 text that is
/// ASCII decodes to the characters with the same codes.
pub proof fn lemma_ascii_utf8(b: Seq<u8>, i: int)
    requires
        0 <= i,
        forall|k: int| i <= k < b.len() ==> b[k] < 0x80,
    ensures
        jvm_utf8_from(b, i) == Some(
            if i < b.len() {
                b.skip(i).map_values(|x: u8| x as char)
            } else {
                Seq::<char>::empty()
            },
        ),
    decreases b.len() - i,
{
    if i < b.len() {
        let x = b[i];
        assert(x & 0x80 == 0) by (bit_vector)
            requires
                x < 0x80,
        ;
        lemma_ascii_utf8(b, i + 1);
        assert(seq![x as char] + (if i + 1 < b.len() {
            b.skip(i + 1).map_values(|x: u8| x as char)
        } else {
            Seq::<char>::empty()
        }) =~= b.skip(i).map_values(|x: u8| x as char));
    }
}

/// Decoding bytes that stand behind a prefix is decoding them on their own.
proof fn lemma_jvm_utf8_shift(p: Seq<u8>, b: Seq<u8>, i: int)
    requires
        0 <= i,
    ensures
        jvm_utf8_from(p + b, p.len() + i) == jvm_utf8_from(b, i),
    decreases if i < b.len() {
        b.len() - i
    } else {
        0
    },
{
    let c = p + b;
    let j = p.len() + i;
    if i < b.len() {
        assert(c[j] == b[i]);
        if i + 1 < b.len() {
            assert(c[j + 1] == b[i + 1]);
        }
        if i + 2 < b.len() {
            assert(c[j + 2] == b[i + 2]);
        }
        if i + 5 < b.len() {
            assert(c[j + 3] == b[i + 3]);
            assert(c[j + 4] == b[i + 4]);
            assert(c[j + 5] == b[i + 5]);
        }
        assert(starts_six_byte_form(c, j) == starts_six_byte_form(b, i));
        lemma_jvm_utf8_shift(p, b, i + 1);
        lemma_jvm_utf8_shift(p, b, i + 2);
        lemma_jvm_utf8_shift(p, b, i + 3);
        lemma_jvm_utf8_shift(p, b, i + 6);
    }
}

/// Whether every character of `chars` lies in the Basic Multilingual Plane,
/// where modified UTF-8 and standard UTF-8 write it the same way.
pub open spec fn all_bmp(chars: Seq<char>) -> bool {
    forall|k: int| 0 <= k < chars.len() ==> (#[trigger] chars[k]) as u32 <= 0xFFFF
}

/// The one-byte form of a character below 0x80.
proof fn lemma_width_1(u: u32)
    by (bit_vector)
    requires
        u <= 0x7F,
    ensures
        ((u & 0x7F) as u8) & 0x80 == 0,
        ((u & 0x7F) as u8) as u32 == u,
{
}

/// The two-byte form of a character from 0x80 to 0x7FF.
proof fn lemma_width_2(u: u32)
    by (bit_vector)
    requires
        0x80 <= u <= 0x7FF,
    ensures
        ({
            let x = (0xC0 | ((u >> 6) & 0x1F) as u8) as u8;
            let y = (0x80 | (u & 0x3F) as u8) as u8;
            &&& x & 0x80 != 0
            &&& x & 0xE0 == 0xC0
            &&& (((x & 0x1F) as u32) << 6) | ((y & 0x3F) as u32) == u
        }),
{
}

/// The three-byte form of a character from 0x800 to 0xFFFF, surrogates
/// excluded: it never looks like the start of a six-byte form.
proof fn lemma_width_3(u: u32)
    by (bit_vector)
    requires
        0x800 <= u <= 0xFFFF,
        !(0xD800 <= u <= 0xDFFF),
    ensures
        ({
            let x = (0xE0 | ((u >> 12) & 0x0F) as u8) as u8;
            let y = (0x80 | ((u >> 6) & 0x3F) as u8) as u8;
            let z = (0x80 | (u & 0x3F) as u8) as u8;
            &&& x & 0x80 != 0
            &&& x & 0xE0 != 0xC0
            &&& x & 0xF0 == 0xE0
            &&& (x == 0xED ==> y & 0xF0 != 0xA0)
            &&& (((x & 0x0F) as u32) << 12) | (((y & 0x3F) as u32) << 6) | ((z & 0x3F) as u32) == u
        }),
{
}

/// Text without supplementary characters reads back unchanged from its
/// standard UTF-8 bytes: there, modified UTF-8 and UTF-8 agree, so a Rust
/// string `s` of such characters gives back `s` from its bytes
/// (`s.spec_bytes() == encode_utf8(s@)`).
pub proof fn lemma_jvm_utf8_round_trip(chars: Seq<char>)
    requires
        all_bmp(chars),
    ensures
        jvm_utf8_from(encode_utf8(chars), 0) == Some(chars),
    decreases chars.len(),
{
    if chars.len() > 0 {
        let c = chars[0];
        let u = c as u32;
        let tail = chars.drop_first();
        assert forall|k: int| 0 <= k < tail.len() implies (#[trigger] tail[k]) as u32 <= 0xFFFF by {
            assert(tail[k] == chars[k + 1]);
        }
        lemma_jvm_utf8_round_trip(tail);
        let e = encode_scalar(u);
        let r = encode_utf8(tail);
        assert(encode_utf8(chars) == e + r);
        lemma_jvm_utf8_shift(e, r, 0);
        let b = e + r;
        vstd::utf8::char_is_scalar(c);
        assert(u <= 0xFFFF);
        if u <= 0x7F {
            lemma_width_1(u);
            assert(b[0] == e[0]);
            assert(b[0] as u32 == u);
            vstd::utf8::char_u32_cast(c, b[0] as u32);
            assert(b[0] as char == c);
            assert(e.len() == 1);
            assert(jvm_utf8_from(b, 0) == Some(seq![c] + tail));
        } else if u <= 0x7FF {
            lemma_width_2(u);
            assert(b[0] == e[0]);
            assert(b[1] == e[1]);
            assert(e.len() == 2);
            let code = (((b[0] & 0x1F) as u32) << 6) | ((b[1] & 0x3F) as u32);
            assert(code == u);
            vstd::utf8::char_u32_cast(c, code);
            assert(jvm_utf8_from(b, 0) == Some(seq![c] + tail));
        } else {
            lemma_width_3(u);
            assert(b[0] == e[0]);
            assert(b[1] == e[1]);
            assert(b[2] == e[2]);
            assert(e.len() == 3);
            assert(!starts_six_byte_form(b, 0));
            let code = (((b[0] & 0x0F) as u32) << 12) | (((b[1] & 0x3F) as u32) << 6) | ((b[2]
                & 0x3F) as u32);
            assert(code == u);
            vstd::utf8::char_u32_cast(c, code);
            assert(jvm_utf8_from(b, 0) == Some(seq![c] + tail));
        }
        assert(seq![c] + tail =~= chars);
    } else {
        assert(chars =~= Seq::<char>::empty());
    }
}

/// In decoded pool entries, the entry after a `Long` or a `Double` is an
/// unused `Dummy`.
pub proof fn lemma_cp_entries_wide(s: Seq<u8>, p: int, k: int)
    ensures
        sp_cp_entries(s, p, k) matches Ok((es, _)) ==> forall|j: int|
            0 <= j < es.len() && is_wide_constant(#[trigger] es[j]) ==> j + 1 < es.len() && es[j + 1]
                is Dummy,
    decreases if k > 0 {
        k
    } else {
        0
    },
{
    if k > 0 {
        if let Ok((c, q)) = sp_constant(s, p) {
            if is_wide_constant(c) {
                lemma_cp_entries_wide(s, q, k - 2);
                if let Ok((rest, r)) = sp_cp_entries(s, q, k - 2) {
                    let es = seq![c, ConstantView::Dummy] + rest;
                    assert forall|j: int| 0 <= j < es.len() && is_wide_constant(#[trigger] es[j]) implies j + 1
                        < es.len() && es[j + 1] is Dummy by {
                        if j >= 2 {
                            assert(es[j] == rest[j - 2]);
                            assert(es[j + 1] == rest[j - 1]);
                        }
                    }
                }
            } else {
                lemma_cp_entries_wide(s, q, k - 1);
                if let Ok((rest, r)) = sp_cp_entries(s, q, k - 1) {
                    let es = seq![c] + rest;
                    assert forall|j: int| 0 <= j < es.len() && is_wide_constant(#[trigger] es[j]) implies j + 1
                        < es.len() && es[j + 1] is Dummy by {
                        if j >= 1 {
                            assert(es[j] == rest[j - 1]);
                            assert(es[j + 1] == rest[j]);
                        }
                    }
                }
            }
        }
    }
}

/// The tag that introduces a pool entry of the kind of `c` (JVMS table
/// 4.4-B); the unused entry has none. Text kept as raw bytes comes from a
/// `Utf8` entry.
pub open spec fn constant_tag(c: ConstantView) -> Option<u8> {
    match c {
        ConstantView::Dummy => None,
        ConstantView::Utf8(_) => Some(1u8),
        ConstantView::UnRecCharSet(_) => Some(1u8),
        ConstantView::Integer(_) => Some(3u8),
        ConstantView::Float(_) => Some(4u8),
        ConstantView::Long(_) => Some(5u8),
        ConstantView::Double(_) => Some(6u8),
        ConstantView::Class(_) => Some(7u8),
        ConstantView::String(_) => Some(8u8),
        ConstantView::FieldRef { .. } => Some(9u8),
        ConstantView::MethodRef { .. } => Some(10u8),
        ConstantView::InterfaceMethodRef { .. } => Some(11u8),
        ConstantView::NameAndType { .. } => Some(12u8),
        ConstantView::MethodHandle { .. } => Some(15u8),
        ConstantView::MethodType(_) => Some(16u8),
        ConstantView::Dynamic { .. } => Some(17u8),
        ConstantView::InvokeDynamic { .. } => Some(18u8),
        ConstantView::Module(_) => Some(19u8),
        ConstantView::Package(_) => Some(20u8),
    }
}

/// The two `u16` indices that follow the tag of an entry that holds two,
/// in the order the entry lists them.
pub open spec fn constant_index_pair(c: ConstantView) -> Option<(usize, usize)> {
    match c {
        ConstantView::FieldRef { class_index, name_and_type_index } => Some((class_index, name_and_type_index)),
        ConstantView::MethodRef { class_index, name_and_type_index } => Some((class_index, name_and_type_index)),
        ConstantView::InterfaceMethodRef { class_index, name_and_type_index } => Some(
            (class_index, name_and_type_index),
        ),
        ConstantView::NameAndType { name_index, descriptor_index } => Some((name_index, descriptor_index)),
        ConstantView::Dynamic { bootstrap_method_attr_index, name_and_type_index } => Some(
            (bootstrap_method_attr_index, name_and_type_index),
        ),
        ConstantView::InvokeDynamic { bootstrap_method_attr_index, name_and_type_index } => Some(
            (bootstrap_method_attr_index, name_and_type_index),
        ),
        _ => None,
    }
}

/// A decoded pool entry is of the kind its tag byte introduces, so that the
/// tag and the kind determine each other; an entry with two indices holds
/// the big-endian `u16`s after its tag, first the one at `p + 1`, then the one
/// at `p + 3`; and a tag that introduces no kind is refused.
pub proof fn lemma_constant_kind(s: Seq<u8>, p: int)
    requires
        0 <= p,
    ensures
        sp_constant(s, p) matches Ok((c, _)) ==> constant_tag(c) == Some(s[p]),
        sp_constant(s, p) matches Ok((c, _)) ==> (constant_index_pair(c) matches Some((a, b)) ==> a
            == s[p + 1] as int * 256 + s[p + 2] as int && b == s[p + 3] as int * 256 + s[p + 4] as int),
        p < s.len() && !(s[p] == 1 || 3 <= s[p] <= 12 || 15 <= s[p] <= 20) ==> sp_constant(s, p)
            == Err::<(ConstantView, int), ParseError>(ParseError::UnknownConstant),
{
    if let Ok((tag, q)) = sp_u8(s, p) {
        if tag == 1 {
            assert(sp_utf8_constant(s, q) matches Ok((c, _)) ==> (c is Utf8 || c is UnRecCharSet));
        }
    }
}

/// Whether a pool entry that is a method handle has one of the reference
/// kinds 1 to 9.
pub open spec fn handle_kind_valid(c: ConstantView) -> bool {
    c matches ConstantView::MethodHandle { reference_kind, .. } ==> 1 <= reference_kind <= 9
}

/// A decoded constant is a method handle only with a reference kind from 1
/// to 9.
proof fn lemma_constant_handle(s: Seq<u8>, p: int)
    ensures
        sp_constant(s, p) matches Ok((c, _)) ==> handle_kind_valid(c),
{
}

/// Every method handle among decoded pool entries has a reference kind from
/// 1 to 9.
pub proof fn lemma_cp_entries_handles(s: Seq<u8>, p: int, k: int)
    ensures
        sp_cp_entries(s, p, k) matches Ok((es, _)) ==> forall|j: int|
            0 <= j < es.len() ==> handle_kind_valid(#[trigger] es[j]),
    decreases if k > 0 {
        k
    } else {
        0
    },
{
    if k > 0 {
        lemma_constant_handle(s, p);
        if let Ok((c, q)) = sp_constant(s, p) {
            let n = if is_wide_constant(c) { k - 2 } else { k - 1 };
            lemma_cp_entries_handles(s, q, n);
            if let Ok((rest, r)) = sp_cp_entries(s, q, n) {
                let es = if is_wide_constant(c) {
                    seq![c, ConstantView::Dummy] + rest
                } else {
                    seq![c] + rest
                };
                let m: int = if is_wide_constant(c) { 2 } else { 1 };
                assert forall|j: int| 0 <= j < es.len() implies handle_kind_valid(#[trigger] es[j]) by {
                    if j >= m {
                        assert(es[j] == rest[j - m]);
                    }
                }
            }
        }
    }
}

/// In a decoded constant pool, every method handle has a reference kind from
/// 1 to 9: a pool with any other kind is refused.
pub proof fn lemma_cp_handles(s: Seq<u8>, p: int)
    ensures
        sp_cp(s, p) matches Ok((cp, _)) ==> forall|j: int|
            0 <= j < cp.len() ==> handle_kind_valid(#[trigger] cp[j]),
{
    if let Ok((n, q)) = sp_u16(s, p) {
        if n != 0 {
            lemma_cp_entries_handles(s, q, n - 1);
            if let Ok((es, r)) = sp_cp_entries(s, q, n - 1) {
                let cp = seq![ConstantView::Dummy] + es;
                assert forall|j: int| 0 <= j < cp.len() implies handle_kind_valid(#[trigger] cp[j]) by {
                    if j >= 1 {
                        assert(cp[j] == es[j - 1]);
                    }
                }
            }
        }
    }
}

/// A decoded constant pool starts with the unused entry 0, and the entry
/// after a `Long` or a `Double` is unused too.
pub proof fn lemma_cp_layout(s: Seq<u8>, p: int)
    ensures
        sp_cp(s, p) matches Ok((cp, _)) ==> {
            &&& cp.len() >= 1
            &&& cp[0] is Dummy
            &&& forall|j: int|
                0 <= j < cp.len() && is_wide_constant(#[trigger] cp[j]) ==> j + 1 < cp.len() && cp[j
                    + 1] is Dummy
        },
{
    if let Ok((n, q)) = sp_u16(s, p) {
        if n != 0 {
            lemma_cp_entries_wide(s, q, n - 1);
            if let Ok((es, r)) = sp_cp_entries(s, q, n - 1) {
                let cp = seq![ConstantView::Dummy] + es;
                assert forall|j: int| 0 <= j < cp.len() && is_wide_constant(#[trigger] cp[j]) implies j + 1
                    < cp.len() && cp[j + 1] is Dummy by {
                    if j >= 1 {
                        assert(cp[j] == es[j - 1]);
                        assert(cp[j + 1] == es[j]);
                    }
                }
            }
        }
    }
}

/// Two `u16` indices one after the other.
pub open spec fn sp_index_pair(s: Seq<u8>, p: int) -> Decoded<(usize, usize)> {
    match sp_u16(s, p) {
        Err(e) => Err(e),
        Ok((a, q)) => match sp_u16(s, q) {
            Err(e) => Err(e),
            Ok((b, r)) => Ok(((a as usize, b as usize), r)),
        },
    }
}

/// One `u16` index.
pub open spec fn sp_index(s: Seq<u8>, p: int) -> Decoded<usize> {
    match sp_u16(s, p) {
        Err(e) => Err(e),
        Ok((a, q)) => Ok((a as usize, q)),
    }
}

/// The body of a UTF8 constant: its length, then its bytes, kept as they are
/// when they are not valid modified UTF-8.
pub open spec fn sp_utf8_constant(s: Seq<u8>, p: int) -> Decoded<ConstantView> {
    match sp_u16(s, p) {
        Err(e) => Err(e),
        Ok((len, q)) => match sp_bytes(s, q, len as int) {
            Err(e) => Err(e),
            Ok((b, r)) => match jvm_utf8_from(b, 0) {
                Some(text) => Ok((ConstantView::Utf8(text), r)),
                None => Ok((ConstantView::UnRecCharSet(b), r)),
            },
        },
    }
}

/// Decodes one constant pool entry: its tag and its body.
pub open spec fn sp_constant(s: Seq<u8>, p: int) -> Decoded<ConstantView> {
    match sp_u8(s, p) {
        Err(e) => Err(e),
        Ok((tag, q)) => if tag == 1 {
            sp_utf8_constant(s, q)
        } else if tag == 3 {
            match sp_u32(s, q) {
                Ok((x, r)) => Ok((ConstantView::Integer(x as i32), r)),
                Err(e) => Err(e),
            }
        } else if tag == 4 {
            match sp_u32(s, q) {
                Ok((x, r)) => Ok((ConstantView::Float(x), r)),
                Err(e) => Err(e),
            }
        } else if tag == 5 {
            match sp_i64(s, q) {
                Ok((x, r)) => Ok((ConstantView::Long(x), r)),
                Err(e) => Err(e),
            }
        } else if tag == 6 {
            match sp_u64(s, q) {
                Ok((x, r)) => Ok((ConstantView::Double(x), r)),
                Err(e) => Err(e),
            }
        } else if tag == 7 {
            match sp_index(s, q) {
                Ok((x, r)) => Ok((ConstantView::Class(x), r)),
                Err(e) => Err(e),
            }
        } else if tag == 8 {
            match sp_index(s, q) {
                Ok((x, r)) => Ok((ConstantView::String(x), r)),
                Err(e) => Err(e),
            }
        } else if tag == 9 {
            match sp_index_pair(s, q) {
                Ok(((a, b), r)) => Ok(
                    (ConstantView::FieldRef { class_index: a, name_and_type_index: b }, r),
                ),
                Err(e) => Err(e),
            }
        } else if tag == 10 {
            match sp_index_pair(s, q) {
                Ok(((a, b), r)) => Ok(
                    (ConstantView::MethodRef { class_index: a, name_and_type_index: b }, r),
                ),
                Err(e) => Err(e),
            }
        } else if tag == 11 {
            match sp_index_pair(s, q) {
                Ok(((a, b), r)) => Ok(
                    (ConstantView::InterfaceMethodRef { class_index: a, name_and_type_index: b }, r),
                ),
                Err(e) => Err(e),
            }
        } else if tag == 12 {
            match sp_index_pair(s, q) {
                Ok(((a, b), r)) => Ok(
                    (ConstantView::NameAndType { name_index: a, descriptor_index: b }, r),
                ),
                Err(e) => Err(e),
            }
        } else if tag == 15 {
            match sp_u8(s, q) {
                Err(e) => Err(e),
                Ok((k, r)) => if k < 1 || k > 9 {
                    Err(ParseError::InvalidReferenceKind)
                } else {
                    match sp_index(s, r) {
                        Ok((x, t)) => Ok(
                            (ConstantView::MethodHandle { reference_kind: k, reference_index: x }, t),
                        ),
                        Err(e) => Err(e),
                    }
                },
            }
        } else if tag == 16 {
            match sp_index(s, q) {
                Ok((x, r)) => Ok((ConstantView::MethodType(x), r)),
                Err(e) => Err(e),
            }
        } else if tag == 17 {
            match sp_index_pair(s, q) {
                Ok(((a, b), r)) => Ok(
                    (
                        ConstantView::Dynamic {
                            bootstrap_method_attr_index: a,
                            name_and_type_index: b,
                        },
                        r,
                    ),
                ),
                Err(e) => Err(e),
            }
        } else if tag == 18 {
            match sp_index_pair(s, q) {
                Ok(((a, b), r)) => Ok(
                    (
                        ConstantView::InvokeDynamic {
                            bootstrap_method_attr_index: a,
                            name_and_type_index: b,
                        },
                        r,
                    ),
                ),
                Err(e) => Err(e),
            }
        } else if tag == 19 {
            match sp_index(s, q) {
                Ok((x, r)) => Ok((ConstantView::Module(x), r)),
                Err(e) => Err(e),
            }
        } else if tag == 20 {
            match sp_index(s, q) {
                Ok((x, r)) => Ok((ConstantView::Package(x), r)),
                Err(e) => Err(e),
            }
        } else {
            Err(ParseError::UnknownConstant)
        },
    }
}

/// Whether a constant takes two entries of the pool.
pub open spec fn is_wide_constant(c: ConstantView) -> bool {
    c is Long || c is Double
}

/// Decodes the entries of a constant pool from position `p`, while `k`
/// entries are still to come; a `Long` or a `Double` fills two entries, the
/// second an unused `Dummy`.
pub open spec fn sp_cp_entries(s: Seq<u8>, p: int, k: int) -> Decoded<Seq<ConstantView>>
    decreases if k > 0 {
        k
    } else {
        0
    },
{
    if k <= 0 {
        Ok((seq![], p))
    } else {
        match sp_constant(s, p) {
            Err(e) => Err(e),
            Ok((c, q)) => if is_wide_constant(c) {
                match sp_cp_entries(s, q, k - 2) {
                    Ok((rest, r)) => Ok((seq![c, ConstantView::Dummy] + rest, r)),
                    Err(e) => Err(e),
                }
            } else {
                match sp_cp_entries(s, q, k - 1) {
                    Ok((rest, r)) => Ok((seq![c] + rest, r)),
                    Err(e) => Err(e),
                }
            },
        }
    }
}

/// Decodes a constant pool: its count (one more than the number of entries
/// that follow), then the entries, behind the unused entry at index 0. A
/// count of 0 is invalid.
pub open spec fn sp_cp(s: Seq<u8>, p: int) -> Decoded<Seq<ConstantView>> {
    match sp_u16(s, p) {
        Err(e) => Err(e),
        Ok((n, q)) => if n == 0 {
            Err(ParseError::InvalidCount)
        } else {
            match sp_cp_entries(s, q, n - 1) {
                Ok((es, r)) => Ok((seq![ConstantView::Dummy] + es, r)),
                Err(e) => Err(e),
            }
        },
    }
}

impl ClassReader {
    /// Reads and interprets the next bytes as the constant pool.
    pub fn parse_cp(&mut self) -> (r: Result<ConstantPool, ParseError>)
        ensures
            read_as(*old(self), *final(self), r, sp_cp(old(self).bytes@, old(self).pos as int)),
    {
        let ghost s = self.bytes@;
        let count = match self.read_u16() {
            Ok(n) => n,
            Err(e) => {
                return Err(e);
            },
        };
        if count == 0 {
            return Err(ParseError::InvalidCount);
        }
        let cp_count: usize = count as usize - 1;
        let ghost q0 = self.pos as int;
        let mut cp = ConstantPool::new(cp_count);
        cp.push(Constant::Dummy);
        let mut i: usize = 0;
        proof {
            assert(seq![ConstantView::Dummy] + sp_cp_entries(s, q0, cp_count as int)->Ok_0.0
                =~= sp_cp_entries(s, q0, cp_count as int)->Ok_0.0.insert(0, ConstantView::Dummy));
        }
        while i < cp_count
            invariant
                self.bytes@ == s,
                s == old(self).bytes@,
                sp_cp(s, old(self).pos as int) == match sp_cp_entries(s, q0, cp_count as int) {
                    Ok((es, r)) => Ok((seq![ConstantView::Dummy] + es, r)),
                    Err(e) => Err(e),
                },
                i <= cp_count + 1,
                cp_count < 0x10000,
                cp@.len() == i + 1,
                cp@[0] == ConstantView::Dummy,
                sp_cp_entries(s, q0, cp_count as int) == match sp_cp_entries(
                    s,
                    self.pos as int,
                    cp_count - i,
                ) {
                    Ok((rest, r)) => Ok((cp@.skip(1) + rest, r)),
                    Err(e) => Err(e),
                },
            decreases cp_count + 1 - i,
        {
            let ghost before = cp@;
            let ghost rest_k = cp_count - i;
            let constant = match self.read_constant() {
                Ok(c) => c,
                Err(e) => {
                    return Err(e);
                },
            };
            let ghost c = constant@;
            match constant {
                Constant::Long(_) | Constant::Double(_) => {
                    cp.push(constant);
                    cp.push(Constant::Dummy);
                    i += 1;
                    proof {
                        match sp_cp_entries(s, self.pos as int, rest_k - 2) {
                            Ok((rest, r)) => {
                                assert(before.skip(1) + (seq![c, ConstantView::Dummy] + rest)
                                    =~= cp@.skip(1) + rest);
                            },
                            Err(e) => {},
                        }
                    }
                },
                _ => {
                    cp.push(constant);
                    proof {
                        match sp_cp_entries(s, self.pos as int, rest_k - 1) {
                            Ok((rest, r)) => {
                                assert(before.skip(1) + (seq![c] + rest) =~= cp@.skip(1) + rest);
                            },
                            Err(e) => {},
                        }
                    }
                },
            }
            i += 1;
        }
        proof {
            assert(cp@.skip(1) + seq![] =~= cp@.skip(1));
            assert(seq![ConstantView::Dummy] + cp@.skip(1) =~= cp@);
        }
        Ok(cp)
    }

    /// Reads one constant pool entry.
    #[verifier::rlimit(40)]
    fn read_constant(&mut self) -> (r: Result<Constant, ParseError>)
        ensures
            read_as(*old(self), *final(self), r, sp_constant(old(self).bytes@, old(self).pos as int)),
    {
        let tag = match self.read_u8() {
            Ok(t) => t,
            Err(e) => {
                return Err(e);
            },
        };
        if tag == 1 {
            let length = match self.read_u16() {
                Ok(n) => n as usize,
                Err(e) => {
                    return Err(e);
                },
            };
            let bytes = match self.read_bytes(length) {
                Ok(b) => b,
                Err(e) => {
                    return Err(e);
                },
            };
            match Self::parse_jvm_utf8(bytes.as_slice()) {
                Ok(string) => Ok(Constant::UTF8(string)),
                Err(_) => Ok(Constant::UnRecCharSet(bytes)),
            }
        } else if tag == 3 {
            match self.read_u32() {
                Ok(x) => Ok(Constant::Integer(x as i32)),
                Err(e) => Err(e),
            }
        } else if tag == 4 {
            match self.read_u32() {
                Ok(x) => Ok(Constant::Float(x)),
                Err(e) => Err(e),
            }
        } else if tag == 5 {
            match self.read_i64() {
                Ok(x) => Ok(Constant::Long(x)),
                Err(e) => Err(e),
            }
        } else if tag == 6 {
            match self.read_u64() {
                Ok(x) => Ok(Constant::Double(x)),
                Err(e) => Err(e),
            }
        } else if tag == 7 || tag == 8 || tag == 16 || tag == 19 || tag == 20 {
            let x = match self.read_u16() {
                Ok(x) => x as usize,
                Err(e) => {
                    return Err(e);
                },
            };
            if tag == 7 {
                Ok(Constant::Class(x))
            } else if tag == 8 {
                Ok(Constant::String(x))
            } else if tag == 16 {
                Ok(Constant::MethodType(x))
            } else if tag == 19 {
                Ok(Constant::Module(x))
            } else {
                Ok(Constant::Package(x))
            }
        } else if tag == 15 {
            let reference_kind = match self.read_u8() {
                Ok(k) => k,
                Err(e) => {
                    return Err(e);
                },
            };
            if reference_kind < 1 || reference_kind > 9 {
                return Err(ParseError::InvalidReferenceKind);
            }
            match self.read_u16() {
                Ok(x) => Ok(Constant::MethodHandle { reference_kind, reference_index: x as usize }),
                Err(e) => Err(e),
            }
        } else if tag == 9 || tag == 10 || tag == 11 || tag == 12 || tag == 17 || tag == 18 {
            let a = match self.read_u16() {
                Ok(x) => x as usize,
                Err(e) => {
                    return Err(e);
                },
            };
            let b = match self.read_u16() {
                Ok(x) => x as usize,
                Err(e) => {
                    return Err(e);
                },
            };
            if tag == 9 {
                Ok(Constant::FieldRef { class_index: a, name_and_type_index: b })
            } else if tag == 10 {
                Ok(Constant::MethodRef { class_index: a, name_and_type_index: b })
            } else if tag == 11 {
                Ok(Constant::InterfaceMethodRef { class_index: a, name_and_type_index: b })
            } else if tag == 12 {
                Ok(Constant::NameAndType { name_index: a, descriptor_index: b })
            } else if tag == 17 {
                Ok(Constant::Dynamic { bootstrap_method_attr_index: a, name_and_type_index: b })
            } else {
                Ok(
                    Constant::InvokeDynamic {
                        bootstrap_method_attr_index: a,
                        name_and_type_index: b,
                    },
                )
            }
        } else {
            Err(ParseError::UnknownConstant)
        }
    }

    /// Reads and interprets the given bytes as a modified UTF-8 string.
    pub fn parse_jvm_utf8(bytes: &[u8]) -> (r: Result<String, ParseError>)
        ensures
            match jvm_utf8_from(bytes@, 0) {
                Some(text) => r matches Ok(string) && string@ == text,
                None => r == Err::<String, ParseError>(ParseError::InvalidUtf8),
            },
    {
        let ghost b = bytes@;
        let mut decoded_string = String::new();
        let mut index: usize = 0;
        while index < bytes.len()
            invariant
                b == bytes@,
                index <= bytes.len(),
                jvm_utf8_from(b, 0) == match jvm_utf8_from(b, index as int) {
                    Some(rest) => Some(decoded_string@ + rest),
                    None => None,
                },
            decreases bytes.len() - index,
        {
            let ghost before = decoded_string@;
            let byte = bytes[index];
            if byte & 0x80 == 0 {
                // Single-byte character
                let c = byte as char;
                push_char(&mut decoded_string, c);
                index += 1;
                proof {
                    if let Some(rest) = jvm_utf8_from(b, index as int) {
                        assert(before + (seq![c] + rest) =~= decoded_string@ + rest);
                    }
                }
            } else if byte & 0xE0 == 0xC0 {
                // Two-byte character
                if bytes.len() - index > 1 {
                    let code_point = (((byte & 0x1F) as u32) << 6) | ((bytes[index + 1] & 0x3F) as u32);
                    match char_from_u32(code_point) {
                        Some(c) => {
                            push_char(&mut decoded_string, c);
                        },
                        None => {
                            return Err(ParseError::InvalidUtf8);
                        },
                    }
                    index += 2;
                    proof {
                        if let Some(rest) = jvm_utf8_from(b, index as int) {
                            assert(before + (seq![code_point as char] + rest) =~= decoded_string@
                                + rest);
                        }
                    }
                } else {
                    return Err(ParseError::InvalidUtf8);
                }
            } else if byte == 0xED && bytes.len() - index > 5 && bytes[index + 1] & 0xF0 == 0xA0
                && bytes[index + 3] == 0xED && bytes[index + 4] & 0xF0 == 0xB0 {
                // Supplementary character: a high and a low surrogate
                let v = bytes[index + 1];
                let w = bytes[index + 2];
                let y = bytes[index + 4];
                let z = bytes[index + 5];
                let bits: u32 = (((v & 0x0F) as u32) << 16) | (((w & 0x3F) as u32) << 10) | (((y
                    & 0x0F) as u32) << 6) | ((z & 0x3F) as u32);
                assert(bits <= 0xFFFFF) by (bit_vector)
                    requires
                        bits == (((v & 0x0F) as u32) << 16) | (((w & 0x3F) as u32) << 10) | (((y
                            & 0x0F) as u32) << 6) | ((z & 0x3F) as u32),
                ;
                let code_point: u32 = 0x10000u32 + bits;
                assert(code_point == six_byte_code(v, w, y, z));
                match char_from_u32(code_point) {
                    Some(c) => {
                        push_char(&mut decoded_string, c);
                    },
                    None => {
                        return Err(ParseError::InvalidUtf8);
                    },
                }
                index += 6;
                proof {
                    if let Some(rest) = jvm_utf8_from(b, index as int) {
                        assert(before + (seq![code_point as char] + rest) =~= decoded_string@
                            + rest);
                    }
                }
            } else if byte & 0xF0 == 0xE0 {
                // Three-byte character
                if bytes.len() - index > 2 {
                    let code_point = (((byte & 0x0F) as u32) << 12) | (((bytes[index + 1] & 0x3F)
                        as u32) << 6) | ((bytes[index + 2] & 0x3F) as u32);
                    match char_from_u32(code_point) {
                        Some(c) => {
                            push_char(&mut decoded_string, c);
                        },
                        None => {
                            return Err(ParseError::InvalidUtf8);
                        },
                    }
                    index += 3;
                    proof {
                        if let Some(rest) = jvm_utf8_from(b, index as int) {
                            assert(before + (seq![code_point as char] + rest) =~= decoded_string@
                                + rest);
                        }
                    }
                } else {
                    return Err(ParseError::InvalidUtf8);
                }
            } else {
                return Err(ParseError::InvalidUtf8);
            }
        }
        proof {
            assert(decoded_string@ + seq![] =~= decoded_string@);
        }
        Ok(decoded_string)
    }
}

} // verus!
