//! Field, return and method descriptors (JVMS 4.3).
use vstd::prelude::*;
use vstd::utf8::*;
use vstd::string::StringSliceAdditionalSpecFns;
use core::str::FromStr;
use crate::error::ParseError;
use crate::text::{latin1, latin1_string, str_tail};

verus! {

broadcast use {
    encode_utf8_valid_utf8,
};

/// A primitive (base) type of the JVM.
#[derive(Debug, Default, Eq, PartialEq, Hash, Clone)]
pub enum Primitive {
    Byte,
    Char,
    Double,
    Float,
    Int,
    Long,
    Short,
    Boolean,
    #[default]
    Invalid,
}

/// Whether `t` is one of the base type letters `B C D F I J S Z`.
pub open spec fn is_primitive_token(t: u8) -> bool {
    t == 66 || t == 67 || t == 68 || t == 70 || t == 73 || t == 74 || t == 83 || t == 90
}

/// The primitive type denoted by the base type letter `t`.
pub open spec fn primitive_of(t: u8) -> Primitive {
    if t == 66 {
        Primitive::Byte
    } else if t == 67 {
        Primitive::Char
    } else if t == 68 {
        Primitive::Double
    } else if t == 70 {
        Primitive::Float
    } else if t == 73 {
        Primitive::Int
    } else if t == 74 {
        Primitive::Long
    } else if t == 83 {
        Primitive::Short
    } else if t == 90 {
        Primitive::Boolean
    } else {
        Primitive::Invalid
    }
}

/// The letter that stands for a primitive type in a descriptor (JVMS table
/// 4.3-A).
pub open spec fn base_type_letter(p: Primitive) -> char {
    match p {
        Primitive::Byte => 'B',
        Primitive::Char => 'C',
        Primitive::Double => 'D',
        Primitive::Float => 'F',
        Primitive::Int => 'I',
        Primitive::Long => 'J',
        Primitive::Short => 'S',
        Primitive::Boolean => 'Z',
        Primitive::Invalid => '?',
    }
}

/// Whether `c` is one of the eight base type letters.
pub open spec fn is_base_type_letter(c: char) -> bool {
    c == 'B' || c == 'C' || c == 'D' || c == 'F' || c == 'I' || c == 'J' || c == 'S' || c == 'Z'
}

impl Primitive {
    /// The primitive type denoted by a base type letter.
    pub fn from(token: u8) -> (p: Primitive)
        requires
            is_primitive_token(token),
        ensures
            p == primitive_of(token),
    {
        if token == 66 {
            Primitive::Byte
        } else if token == 67 {
            Primitive::Char
        } else if token == 68 {
            Primitive::Double
        } else if token == 70 {
            Primitive::Float
        } else if token == 73 {
            Primitive::Int
        } else if token == 74 {
            Primitive::Long
        } else if token == 83 {
            Primitive::Short
        } else {
            Primitive::Boolean
        }
    }
}

/// The type of a field, a parameter or a return value.
#[derive(Debug, Default, Eq, PartialEq, Hash, Clone)]
pub enum FieldType {
    Base(Primitive),
    /// A class type; the name keeps its terminating `;`.
    Object(String),
    /// An array of the given component with the given number of dimensions.
    Array(ArrayType, usize),
    #[default]
    Invalid,
}

/// The innermost component of an array type.
#[derive(Debug, Eq, PartialEq, Hash, Clone)]
pub enum ArrayType {
    Object(String),
    Primitive(Primitive),
}

/// The mathematical value of an [`ArrayType`].
pub enum SpecArrayType {
    Object(Seq<char>),
    Primitive(Primitive),
}

/// The mathematical value of a [`FieldType`].
pub enum SpecFieldType {
    Base(Primitive),
    Object(Seq<char>),
    Array(SpecArrayType, usize),
    Invalid,
}

impl View for ArrayType {
    type V = SpecArrayType;

    open spec fn view(&self) -> SpecArrayType {
        match self {
            ArrayType::Object(s) => SpecArrayType::Object(s@),
            ArrayType::Primitive(p) => SpecArrayType::Primitive(*p),
        }
    }
}

impl View for FieldType {
    type V = SpecFieldType;

    open spec fn view(&self) -> SpecFieldType {
        match self {
            FieldType::Base(p) => SpecFieldType::Base(*p),
            FieldType::Object(s) => SpecFieldType::Object(s@),
            FieldType::Array(a, n) => SpecFieldType::Array(a@, *n),
            FieldType::Invalid => SpecFieldType::Invalid,
        }
    }
}

/// The index of the first occurrence of byte `c` in `b` at or after `i`.
pub open spec fn find_byte(b: Seq<u8>, c: u8, i: int) -> Option<int>
    decreases b.len() - i,
{
    if i < 0 || i >= b.len() {
        None
    } else if b[i] == c {
        Some(i)
    } else {
        find_byte(b, c, i + 1)
    }
}

/// The number of consecutive bytes equal to `c` in `b` starting at `i`.
pub open spec fn count_run(b: Seq<u8>, c: u8, i: int) -> int
    decreases b.len() - i,
{
    if 0 <= i < b.len() && b[i] == c {
        1 + count_run(b, c, i + 1)
    } else {
        0
    }
}

/// Decodes a class type descriptor `L<name>;` at the start of `b`: the name
/// (with its `;`, each byte read as a character) and the number of bytes used.
pub open spec fn spec_object(b: Seq<u8>) -> Result<(Seq<char>, int), ParseError> {
    if b.len() <= 2 {
        Err(ParseError::InvalidDescriptor)
    } else if b[0] != 76 {
        Err(ParseError::InvalidDescriptor)
    } else {
        match find_byte(b, 59, 0) {
            None => Err(ParseError::InvalidDescriptor),
            Some(i) => Ok((latin1(b.subrange(1, i + 1)), i + 1)),
        }
    }
}

/// Decodes an array type descriptor at the start of `b`: the component, the
/// number of dimensions and the number of bytes used.
pub open spec fn spec_array(b: Seq<u8>) -> Result<(SpecArrayType, usize, int), ParseError> {
    if b.len() == 0 {
        Err(ParseError::InvalidDescriptor)
    } else {
        let i = count_run(b, 91, 0);
        if i >= b.len() {
            Err(ParseError::InvalidDescriptor)
        } else if b[i] == 76 {
            match spec_object(b.skip(i)) {
                Ok((name, n)) => Ok((SpecArrayType::Object(name), i as usize, i + n)),
                Err(e) => Err(e),
            }
        } else if is_primitive_token(b[i]) {
            Ok((SpecArrayType::Primitive(primitive_of(b[i])), i as usize, i + 1))
        } else {
            Err(ParseError::InvalidDescriptor)
        }
    }
}

/// Decodes the field type descriptor at the start of `b`: the type and the
/// number of bytes used.
pub open spec fn spec_field_type(b: Seq<u8>) -> Result<(SpecFieldType, int), ParseError> {
    if b.len() == 0 {
        Err(ParseError::InvalidDescriptor)
    } else if b[0] == 76 {
        match spec_object(b) {
            Ok((name, n)) => Ok((SpecFieldType::Object(name), n)),
            Err(e) => Err(e),
        }
    } else if is_primitive_token(b[0]) {
        Ok((SpecFieldType::Base(primitive_of(b[0])), 1))
    } else if b[0] == 91 {
        match spec_array(b) {
            Ok((a, d, n)) => Ok((SpecFieldType::Array(a, d), n)),
            Err(e) => Err(e),
        }
    } else {
        Err(ParseError::InvalidDescriptor)
    }
}

/// A field type descriptor that must span all of `b`.
pub open spec fn spec_field_type_exact(b: Seq<u8>) -> Result<SpecFieldType, ParseError> {
    match spec_field_type(b) {
        Ok((t, n)) => if n == b.len() {
            Ok(t)
        } else {
            Err(ParseError::InvalidDescriptor)
        },
        Err(e) => Err(e),
    }
}

proof fn lemma_find_byte(b: Seq<u8>, c: u8, i: int)
    requires
        0 <= i,
    ensures
        match find_byte(b, c, i) {
            Some(k) => i <= k < b.len() && b[k] == c && forall|j: int| i <= j < k ==> b[j] != c,
            None => forall|j: int| i <= j < b.len() ==> b[j] != c,
        },
    decreases b.len() - i,
{
    if i < b.len() && b[i] != c {
        lemma_find_byte(b, c, i + 1);
    }
}

proof fn lemma_count_run(b: Seq<u8>, c: u8, i: int)
    requires
        0 <= i <= b.len(),
    ensures
        0 <= count_run(b, c, i) <= b.len() - i,
        forall|j: int| i <= j < i + count_run(b, c, i) ==> b[j] == c,
        i + count_run(b, c, i) < b.len() ==> b[i + count_run(b, c, i)] != c,
    decreases b.len() - i,
{
    if i < b.len() && b[i] == c {
        lemma_count_run(b, c, i + 1);
    }
}

/// The bytes consumed by a field type descriptor are at least one and at most
/// all of the input, and the byte that follows them starts a character.
pub proof fn lemma_field_type_len(b: Seq<u8>)
    ensures
        spec_field_type(b) matches Ok((_, n)) ==> 1 <= n <= b.len(),
        spec_object(b) matches Ok((_, n)) ==> 1 <= n <= b.len() && b[n - 1] == 59,
        spec_array(b) matches Ok((_, _, n)) ==> 1 <= n <= b.len() && b[n - 1] < 128,
{
    if b.len() > 0 {
        lemma_find_byte(b, 59, 0);
        lemma_count_run(b, 91, 0);
        let i = count_run(b, 91, 0);
        if i < b.len() {
            lemma_find_byte(b.skip(i), 59, 0);
        }
    }
}

/// Text after the first occurrence of a byte does not change where that
/// occurrence is found.
proof fn lemma_find_byte_append(a: Seq<u8>, b: Seq<u8>, c: u8, i: int)
    requires
        0 <= i,
        find_byte(a, c, i) is Some,
    ensures
        find_byte(a + b, c, i) == find_byte(a, c, i),
    decreases a.len() - i,
{
    if i < a.len() && a[i] != c {
        lemma_find_byte_append(a, b, c, i + 1);
    }
}

/// Text after the end of a run of equal bytes does not change the run.
proof fn lemma_count_run_append(a: Seq<u8>, b: Seq<u8>, c: u8, i: int)
    requires
        0 <= i <= a.len(),
        i + count_run(a, c, i) < a.len(),
    ensures
        count_run(a + b, c, i) == count_run(a, c, i),
    decreases a.len() - i,
{
    if a[i] == c {
        lemma_count_run_append(a, b, c, i + 1);
    }
}

/// A class type descriptor decodes the same with any text after it.
proof fn lemma_object_append(a: Seq<u8>, b: Seq<u8>)
    requires
        spec_object(a) is Ok,
    ensures
        spec_object(a + b) == spec_object(a),
{
    lemma_find_byte_append(a, b, 59, 0);
    lemma_find_byte(a, 59, 0);
    let k = find_byte(a, 59, 0)->Some_0;
    assert((a + b).subrange(1, k + 1) =~= a.subrange(1, k + 1));
}

/// A field type descriptor decodes to the same type, using the same bytes,
/// whatever text follows it: decoding takes exactly one complete field type
/// and leaves the rest.
pub proof fn lemma_field_type_append(a: Seq<u8>, b: Seq<u8>)
    requires
        spec_field_type(a) is Ok,
    ensures
        spec_field_type(a + b) == spec_field_type(a),
{
    assert((a + b)[0] == a[0]);
    if a[0] == 76 {
        lemma_object_append(a, b);
    } else if a[0] == 91 {
        lemma_count_run(a, 91, 0);
        let i = count_run(a, 91, 0);
        lemma_count_run_append(a, b, 91, 0);
        assert((a + b)[i] == a[i]);
        if a[i] == 76 {
            assert((a + b).skip(i) =~= a.skip(i) + b);
            lemma_object_append(a.skip(i), b);
        }
    }
}

/// A field type descriptor that is a single base type letter decodes to the
/// primitive type that letter stands for, and to nothing else: the letters
/// and the primitive types correspond one to one. The component of an array
/// of a primitive type is, in the same way, the type its last letter stands
/// for.
pub proof fn lemma_base_type_letters(b: Seq<u8>)
    ensures
        spec_field_type(b) matches Ok((SpecFieldType::Base(p), n)) ==> n == 1 && base_type_letter(p)
            == b[0] as char,
        b.len() > 0 && is_base_type_letter(b[0] as char) ==> (spec_field_type(b) matches Ok(
            (SpecFieldType::Base(p), n),
        ) && n == 1),
        spec_field_type(b) matches Ok((SpecFieldType::Array(SpecArrayType::Primitive(p), _), n))
            ==> 1 <= n <= b.len() && base_type_letter(p) == b[n - 1] as char,
{
    lemma_field_type_len(b);
    if b.len() > 0 {
        let t = b[0];
        assert(is_base_type_letter(t as char) == is_primitive_token(t)) by {
            assert(('B' as u8) == 66 && ('C' as u8) == 67 && ('D' as u8) == 68 && ('F' as u8) == 70);
            assert(('I' as u8) == 73 && ('J' as u8) == 74 && ('S' as u8) == 83 && ('Z' as u8) == 90);
        }
        if b[0] == 91 {
            lemma_count_run(b, 91, 0);
        }
    }
}

/// A complete field type descriptor followed by any text decodes to that
/// field type, and exactly its bytes are used.
pub proof fn lemma_field_type_exact_prefix(a: Seq<u8>, b: Seq<u8>)
    requires
        spec_field_type_exact(a) is Ok,
    ensures
        spec_field_type(a + b) == Ok::<(SpecFieldType, int), ParseError>(
            (spec_field_type_exact(a)->Ok_0, a.len() as int),
        ),
{
    lemma_field_type_append(a, b);
}

impl FieldType {
    /// Decodes the field type descriptor at the start of `desc` and returns it
    /// with the rest of `desc`.
    pub fn parse_and_remainder(desc: &str) -> (r: Result<(FieldType, &str), ParseError>)
        ensures
            match spec_field_type(desc.spec_bytes()) {
                Ok((t, n)) => r matches Ok((f, rest)) && f@ == t && rest.spec_bytes()
                    == desc.spec_bytes().skip(n),
                Err(e) => r matches Err(e2) && e2 == e,
            },
    {
        let bytes = desc.as_bytes();
        if bytes.len() == 0 {
            return Err(ParseError::InvalidDescriptor);
        }
        proof {
            lemma_field_type_len(desc.spec_bytes());
        }
        let t = bytes[0];
        if t == 76 {
            let (object, remaining) = match Self::parse_object(desc) {
                Ok(x) => x,
                Err(e) => return Err(e),
            };
            Ok((FieldType::Object(object), remaining))
        } else if t == 66 || t == 67 || t == 68 || t == 70 || t == 73 || t == 74 || t == 83 || t
            == 90 {
            let primitive = Primitive::from(t);
            let remaining = str_tail(desc, 1);
            Ok((FieldType::Base(primitive), remaining))
        } else if t == 91 {
            let (array, len, remaining) = match Self::parse_array(desc) {
                Ok(x) => x,
                Err(e) => return Err(e),
            };
            Ok((FieldType::Array(array, len), remaining))
        } else {
            Err(ParseError::InvalidDescriptor)
        }
    }

    /// Decodes a class type descriptor `L<name>;` at the start of `desc`.
    fn parse_object(desc: &str) -> (r: Result<(String, &str), ParseError>)
        ensures
            match spec_object(desc.spec_bytes()) {
                Ok((name, n)) => r matches Ok((s, rest)) && s@ == name && rest.spec_bytes()
                    == desc.spec_bytes().skip(n),
                Err(e) => r matches Err(e2) && e2 == e,
            },
    {
        let bytes = desc.as_bytes();
        if bytes.len() <= 2 {
            return Err(ParseError::InvalidDescriptor);
        } else if bytes[0] != 76 {
            return Err(ParseError::InvalidDescriptor);
        }
        proof {
            lemma_find_byte(bytes@, 59, 0);
        }
        let mut i: usize = 0;
        while i < bytes.len()
            invariant
                bytes@ == desc.spec_bytes(),
                bytes@.len() > 2,
                bytes@[0] == 76,
                i <= bytes@.len(),
                find_byte(bytes@, 59, 0) == find_byte(bytes@, 59, i as int),
            decreases bytes@.len() - i,
        {
            if bytes[i] == 59 {
                assert(find_byte(bytes@, 59, i as int) == Some(i as int));
                let name = latin1_string(bytes, 1, i + 1);
                let remaining = str_tail(desc, i + 1);
                return Ok((name, remaining));
            }
            i += 1;
        }
        Err(ParseError::InvalidDescriptor)
    }

    /// Decodes an array type descriptor at the start of `desc`.
    fn parse_array(desc: &str) -> (r: Result<(ArrayType, usize, &str), ParseError>)
        ensures
            match spec_array(desc.spec_bytes()) {
                Ok((a, d, n)) => r matches Ok((x, dims, rest)) && x@ == a && dims == d
                    && rest.spec_bytes() == desc.spec_bytes().skip(n),
                Err(e) => r matches Err(e2) && e2 == e,
            },
    {
        let bytes = desc.as_bytes();
        if bytes.len() == 0 {
            return Err(ParseError::InvalidDescriptor);
        }
        let mut i: usize = 0;
        while bytes[i] == 91
            invariant
                bytes@ == desc.spec_bytes(),
                bytes@.len() > 0,
                i < bytes@.len(),
                count_run(bytes@, 91, 0) == i + count_run(bytes@, 91, i as int),
                forall|j: int| 0 <= j < i ==> bytes@[j] == 91,
            decreases bytes@.len() - i,
        {
            i += 1;
            if i == bytes.len() {
                assert(count_run(bytes@, 91, i as int) == 0);
                return Err(ParseError::InvalidDescriptor);
            }
        }
        let t = bytes[i];
        if t == 76 {
            let tail = str_tail(desc, i);
            proof {
                assert(tail.spec_bytes().skip(
                    0,
                ) == tail.spec_bytes());
            }
            let (name, remaining) = match Self::parse_object(tail) {
                Ok(x) => x,
                Err(e) => return Err(e),
            };
            proof {
                let b = desc.spec_bytes();
                lemma_field_type_len(b.skip(i as int));
                assert(remaining.spec_bytes() =~= b.skip(i as int).skip(
                    spec_object(b.skip(i as int))->Ok_0.1,
                ));
            }
            Ok((ArrayType::Object(name), i, remaining))
        } else if t == 66 || t == 67 || t == 68 || t == 70 || t == 73 || t == 74 || t == 83 || t
            == 90 {
            let remaining = str_tail(desc, i + 1);
            Ok((ArrayType::Primitive(Primitive::from(t)), i, remaining))
        } else {
            Err(ParseError::InvalidDescriptor)
        }
    }
}


/// The mathematical value of a sequence of field types.
pub open spec fn field_types(v: Seq<FieldType>) -> Seq<SpecFieldType> {
    v.map_values(|t: FieldType| t@)
}

impl FieldType {
    /// Decodes a field type descriptor that must span all of `desc`.
    pub fn parse_descriptor(desc: &str) -> (r: Result<FieldType, ParseError>)
        ensures
            match spec_field_type_exact(desc.spec_bytes()) {
                Ok(t) => r matches Ok(f) && f@ == t,
                Err(e) => r matches Err(e2) && e2 == e,
            },
    {
        proof {
            lemma_field_type_len(desc.spec_bytes());
        }
        let (t, rest) = match Self::parse_and_remainder(desc) {
            Ok(x) => x,
            Err(e) => return Err(e),
        };
        if rest.as_bytes().len() != 0 {
            return Err(ParseError::InvalidDescriptor);
        }
        Ok(t)
    }
}

impl FromStr for FieldType {
    type Err = ParseError;

    fn from_str(desc: &str) -> (r: Result<FieldType, ParseError>)
        ensures
            match spec_field_type_exact(desc.spec_bytes()) {
                Ok(t) => r matches Ok(f) && f@ == t,
                Err(e) => r matches Err(e2) && e2 == e,
            },
    {
        FieldType::parse_descriptor(desc)
    }
}

/// The type a method returns.
#[derive(Debug, Default, Eq, PartialEq, Hash, Clone)]
pub enum ReturnDescriptor {
    NonVoid(FieldType),
    Void,
    #[default]
    Invalid,
}

/// The mathematical value of a [`ReturnDescriptor`].
pub enum SpecReturnDescriptor {
    NonVoid(SpecFieldType),
    Void,
    Invalid,
}

impl View for ReturnDescriptor {
    type V = SpecReturnDescriptor;

    open spec fn view(&self) -> SpecReturnDescriptor {
        match self {
            ReturnDescriptor::NonVoid(t) => SpecReturnDescriptor::NonVoid(t@),
            ReturnDescriptor::Void => SpecReturnDescriptor::Void,
            ReturnDescriptor::Invalid => SpecReturnDescriptor::Invalid,
        }
    }
}

/// Decodes a return descriptor that must span all of `b`: `V` or a field type.
pub open spec fn spec_return_descriptor(b: Seq<u8>) -> Result<SpecReturnDescriptor, ParseError> {
    if b.len() == 0 {
        Err(ParseError::InvalidDescriptor)
    } else if b[0] == 86 {
        if b.len() != 1 {
            Err(ParseError::InvalidDescriptor)
        } else {
            Ok(SpecReturnDescriptor::Void)
        }
    } else {
        match spec_field_type_exact(b) {
            Ok(t) => Ok(SpecReturnDescriptor::NonVoid(t)),
            Err(e) => Err(e),
        }
    }
}

/// The first byte of the UTF-8 form of a character is the character itself
/// when it is below 0x80, and at least 0xC0 otherwise.
proof fn lemma_first_utf8_byte(u: u32)
    by (bit_vector)
    requires
        u <= 0x10FFFF,
    ensures
        u <= 0x7F ==> ((u & 0x7F) as u8) as u32 == u,
        0x80 <= u <= 0x7FF ==> (0xC0 | ((u >> 6) & 0x1F) as u8) as u8 >= 0xC0,
        0x800 <= u <= 0xFFFF ==> (0xE0 | ((u >> 12) & 0x0F) as u8) as u8 >= 0xC0,
        0x10000 <= u ==> (0xF0 | ((u >> 18) & 0x7) as u8) as u8 >= 0xC0,
{
}

/// The UTF-8 form of a nonempty text starts with the byte of `V` exactly
/// when the text starts with `V`, and is that one byte exactly when the text
/// is `"V"`.
proof fn lemma_utf8_starts_with_v(chars: Seq<char>)
    requires
        chars.len() > 0,
    ensures
        (encode_utf8(chars)[0] == 86) == (chars[0] == 'V'),
        (encode_utf8(chars) == seq![86u8]) == (chars == seq!['V']),
{
    let c = chars[0];
    let u = c as u32;
    char_is_scalar(c);
    lemma_first_utf8_byte(u);
    let e = encode_scalar(u);
    let tail = chars.drop_first();
    let r = encode_utf8(tail);
    assert(encode_utf8(chars) == e + r);
    assert((e + r)[0] == e[0]);
    if u <= 0x7F {
        char_u32_cast(c, e[0] as u32);
        assert(e[0] == 86 ==> c == 'V');
        assert(c == 'V' ==> u == 86);
    }
    if tail.len() > 0 {
        assert(encode_utf8(tail) == encode_scalar(tail[0] as u32) + encode_utf8(tail.drop_first()));
        assert(r.len() > 0);
        assert(chars.len() > 1);
        assert((e + r).len() > 1);
    } else {
        assert(r =~= Seq::<u8>::empty());
        assert(e + r =~= e);
        if c == 'V' {
            assert(chars =~= seq!['V']);
            assert(e =~= seq![86u8]);
        }
    }
}

/// What a return descriptor is, over the characters of its text: `Void`
/// exactly for `"V"`, an error for any other text that starts with `V`, and
/// for all other text the field type that the text spells, as `NonVoid`,
/// with the same error where the text spells none.
pub proof fn lemma_return_descriptor_text(s: &str)
    ensures
        s@ == seq!['V'] ==> spec_return_descriptor(s.spec_bytes()) == Ok::<
            SpecReturnDescriptor,
            ParseError,
        >(SpecReturnDescriptor::Void),
        s@.len() > 0 && s@[0] == 'V' && s@ != seq!['V'] ==> spec_return_descriptor(s.spec_bytes())
            == Err::<SpecReturnDescriptor, ParseError>(ParseError::InvalidDescriptor),
        s@.len() == 0 || s@[0] != 'V' ==> spec_return_descriptor(s.spec_bytes()) == match spec_field_type_exact(
            s.spec_bytes(),
        ) {
            Ok(t) => Ok(SpecReturnDescriptor::NonVoid(t)),
            Err(e) => Err(e),
        },
{
    let b = s.spec_bytes();
    if s@.len() == 0 {
        assert(b =~= Seq::<u8>::empty());
    } else {
        lemma_utf8_starts_with_v(s@);
        if b.len() == 1 && b[0] == 86 {
            assert(b =~= seq![86u8]);
        }
    }
}

impl ReturnDescriptor {
    /// Decodes a return descriptor that must span all of `desc`.
    pub fn parse_descriptor(desc: &str) -> (r: Result<ReturnDescriptor, ParseError>)
        ensures
            match spec_return_descriptor(desc.spec_bytes()) {
                Ok(t) => r matches Ok(f) && f@ == t,
                Err(e) => r matches Err(e2) && e2 == e,
            },
    {
        let bytes = desc.as_bytes();
        if bytes.len() == 0 {
            return Err(ParseError::InvalidDescriptor);
        }
        if bytes[0] == 86 {
            if bytes.len() != 1 {
                return Err(ParseError::InvalidDescriptor);
            }
            return Ok(ReturnDescriptor::Void);
        }
        match FieldType::parse_descriptor(desc) {
            Ok(t) => Ok(ReturnDescriptor::NonVoid(t)),
            Err(e) => Err(e),
        }
    }
}

impl FromStr for ReturnDescriptor {
    type Err = ParseError;

    fn from_str(desc: &str) -> (r: Result<ReturnDescriptor, ParseError>)
        ensures
            match spec_return_descriptor(desc.spec_bytes()) {
                Ok(t) => r matches Ok(f) && f@ == t,
                Err(e) => r matches Err(e2) && e2 == e,
            },
    {
        ReturnDescriptor::parse_descriptor(desc)
    }
}

/// The parameter types of a method.
#[derive(Debug, Default, Eq, PartialEq, Hash, Clone)]
pub struct Params(pub Vec<FieldType>);

impl View for Params {
    type V = Seq<SpecFieldType>;

    open spec fn view(&self) -> Seq<SpecFieldType> {
        field_types(self.0@)
    }
}

impl Params {
    /// The number of parameters.
    pub fn len(&self) -> (n: usize)
        ensures
            n == self@.len(),
    {
        self.0.len()
    }
}

/// A method descriptor: its parameter types and its return type.
#[derive(Debug, Default, Eq, PartialEq, Hash, Clone)]
pub struct MethodDescriptor(pub Params, pub ReturnDescriptor);

/// The mathematical value of a [`MethodDescriptor`].
pub struct SpecMethodDescriptor {
    pub params: Seq<SpecFieldType>,
    pub ret: SpecReturnDescriptor,
}

impl View for MethodDescriptor {
    type V = SpecMethodDescriptor;

    open spec fn view(&self) -> SpecMethodDescriptor {
        SpecMethodDescriptor { params: self.0@, ret: self.1@ }
    }
}

/// Decodes the parameter types at the start of `b`, up to the first `)` or the
/// end of `b`: the types and the number of bytes used.
pub open spec fn spec_params(b: Seq<u8>) -> Result<(Seq<SpecFieldType>, int), ParseError>
    decreases b.len(),
{
    if b.len() == 0 || b[0] == 41 {
        Ok((seq![], 0))
    } else {
        match spec_field_type(b) {
            Ok((t, n)) => if 1 <= n <= b.len() {
                match spec_params(b.skip(n)) {
                    Ok((ts, m)) => Ok((seq![t] + ts, n + m)),
                    Err(e) => Err(e),
                }
            } else {
                Err(ParseError::InvalidDescriptor)
            },
            Err(e) => Err(e),
        }
    }
}

/// Decodes a method descriptor `(<params>)<return>` that must span all of `b`.
/// A descriptor whose parameter list is not closed by `)` is rejected.
pub open spec fn spec_method_descriptor(b: Seq<u8>) -> Result<SpecMethodDescriptor, ParseError> {
    if b.len() == 0 {
        Err(ParseError::InvalidDescriptor)
    } else if b[0] != 40 {
        Err(ParseError::InvalidDescriptor)
    } else if b.len() < 2 {
        Err(ParseError::InvalidDescriptor)
    } else {
        match spec_params(b.skip(1)) {
            Err(e) => Err(e),
            Ok((ps, m)) => {
                let rest = b.skip(1).skip(m);
                if rest.len() == 0 {
                    Err(ParseError::InvalidDescriptor)
                } else {
                    match spec_return_descriptor(rest.skip(1)) {
                        Ok(r) => Ok(SpecMethodDescriptor { params: ps, ret: r }),
                        Err(e) => Err(e),
                    }
                }
            },
        }
    }
}

/// The bytes used by the parameter list lie within the input, and the byte
/// after them, if any, is `)`.
pub proof fn lemma_params_len(b: Seq<u8>)
    ensures
        spec_params(b) matches Ok((_, m)) ==> 0 <= m <= b.len() && (m < b.len() ==> b[m] == 41),
    decreases b.len(),
{
    if b.len() != 0 && b[0] != 41 {
        lemma_field_type_len(b);
        if let Ok((t, n)) = spec_field_type(b) {
            lemma_params_len(b.skip(n));
            if let Ok((ts, m)) = spec_params(b.skip(n)) {
                if m < b.skip(n).len() {
                    assert(b.skip(n)[m] == b[n + m]);
                }
            }
        }
    }
}

impl MethodDescriptor {
    /// Decodes a method descriptor that must span all of `desc`.
    pub fn parse_descriptor(desc: &str) -> (r: Result<MethodDescriptor, ParseError>)
        ensures
            match spec_method_descriptor(desc.spec_bytes()) {
                Ok(t) => r matches Ok(f) && f@ == t,
                Err(e) => r matches Err(e2) && e2 == e,
            },
    {
        let bytes = desc.as_bytes();
        if bytes.len() == 0 {
            return Err(ParseError::InvalidDescriptor);
        }
        if bytes[0] != 40 {
            return Err(ParseError::InvalidDescriptor);
        }
        if bytes.len() < 2 {
            return Err(ParseError::InvalidDescriptor);
        }
        let mut remaining = str_tail(desc, 1);
        let ghost b1 = desc.spec_bytes().skip(1);
        let ghost mut used: int = 0;
        let mut params: Vec<FieldType> = Vec::new();
        proof {
            assert(b1.skip(0) =~= b1);
        }
        loop
            invariant
                desc.spec_bytes().len() >= 2,
                desc.spec_bytes()[0] == 40,
                b1 == desc.spec_bytes().skip(1),
                remaining.spec_bytes() == b1.skip(used),
                0 <= used <= b1.len(),
                spec_params(b1) == match spec_params(b1.skip(used)) {
                    Ok((ts, m)) => Ok((field_types(params@) + ts, used + m)),
                    Err(e) => Err(e),
                },
            ensures
                remaining.spec_bytes().len() == 0 || remaining.spec_bytes()[0] == 41,
                remaining.spec_bytes() == b1.skip(used),
                0 <= used <= b1.len(),
                spec_params(b1) == match spec_params(b1.skip(used)) {
                    Ok((ts, m)) => Ok((field_types(params@) + ts, used + m)),
                    Err(e) => Err(e),
                },
            decreases b1.len() - used,
        {
            let rb = remaining.as_bytes();
            if rb.len() == 0 || rb[0] == 41 {
                break;
            }
            proof {
                lemma_field_type_len(rb@);
            }
            let (t, rest) = match FieldType::parse_and_remainder(remaining) {
                Ok(x) => x,
                Err(e) => {
                    proof {
                        assert(b1.skip(used) == rb@);
                    }
                    return Err(e);
                },
            };
            proof {
                let n = spec_field_type(rb@)->Ok_0.1;
                assert(rest.spec_bytes() =~= b1.skip(used + n));
                assert(field_types(params@.push(t)) =~= field_types(params@) + seq![t@]);
                let tail = spec_params(b1.skip(used + n));
                assert(b1.skip(used).skip(n) =~= b1.skip(used + n));
                if let Ok((ts, m)) = tail {
                    assert(field_types(params@) + (seq![t@] + ts) =~= field_types(params@)
                        + seq![t@] + ts);
                }
                used = used + n;
            }
            params.push(t);
            remaining = rest;
        }
        proof {
            lemma_params_len(b1.skip(used));
            assert(b1.skip(used).skip(0) =~= b1.skip(used));
        }
        let rb = remaining.as_bytes();
        if rb.len() == 0 {
            return Err(ParseError::InvalidDescriptor);
        }
        let ret_str = str_tail(remaining, 1);
        proof {
            assert(desc.spec_bytes().skip(1).skip(used) =~= remaining.spec_bytes());
        }
        match ReturnDescriptor::parse_descriptor(ret_str) {
            Ok(r_type) => Ok(MethodDescriptor(Params(params), r_type)),
            Err(e) => Err(e),
        }
    }

    /// The number of parameters the method takes.
    pub fn num_params(&self) -> (n: usize)
        ensures
            n == self@.params.len(),
    {
        self.0.len()
    }
}

impl FromStr for MethodDescriptor {
    type Err = ParseError;

    fn from_str(desc: &str) -> (r: Result<MethodDescriptor, ParseError>)
        ensures
            match spec_method_descriptor(desc.spec_bytes()) {
                Ok(t) => r matches Ok(f) && f@ == t,
                Err(e) => r matches Err(e2) && e2 == e,
            },
    {
        MethodDescriptor::parse_descriptor(desc)
    }
}

/// The descriptor of a field: its type.
#[derive(Debug, Default, Eq, PartialEq, Clone)]
pub struct FieldDescriptor(pub FieldType);

impl View for FieldDescriptor {
    type V = SpecFieldType;

    open spec fn view(&self) -> SpecFieldType {
        self.0@
    }
}

impl FieldDescriptor {
    /// Decodes a field descriptor that must span all of `desc`.
    pub fn parse_descriptor(desc: &str) -> (r: Result<FieldDescriptor, ParseError>)
        ensures
            match spec_field_type_exact(desc.spec_bytes()) {
                Ok(t) => r matches Ok(f) && f@ == t,
                Err(e) => r matches Err(e2) && e2 == e,
            },
    {
        match FieldType::parse_descriptor(desc) {
            Ok(t) => Ok(FieldDescriptor(t)),
            Err(e) => Err(e),
        }
    }
}

impl FromStr for FieldDescriptor {
    type Err = ParseError;

    fn from_str(desc: &str) -> (r: Result<FieldDescriptor, ParseError>)
        ensures
            match spec_field_type_exact(desc.spec_bytes()) {
                Ok(t) => r matches Ok(f) && f@ == t,
                Err(e) => r matches Err(e2) && e2 == e,
            },
    {
        FieldDescriptor::parse_descriptor(desc)
    }
}

impl Primitive {
    /// A copy of the primitive type.
    pub fn duplicate(&self) -> (r: Primitive)
        ensures
            r == *self,
    {
        match self {
            Primitive::Byte => Primitive::Byte,
            Primitive::Char => Primitive::Char,
            Primitive::Double => Primitive::Double,
            Primitive::Float => Primitive::Float,
            Primitive::Int => Primitive::Int,
            Primitive::Long => Primitive::Long,
            Primitive::Short => Primitive::Short,
            Primitive::Boolean => Primitive::Boolean,
            Primitive::Invalid => Primitive::Invalid,
        }
    }
}

impl ArrayType {
    /// A copy of the array type.
    pub fn duplicate(&self) -> (r: ArrayType)
        ensures
            r@ == self@,
    {
        match self {
            ArrayType::Object(name) => ArrayType::Object(name.clone()),
            ArrayType::Primitive(p) => ArrayType::Primitive(p.duplicate()),
        }
    }
}

impl FieldType {
    /// A copy of the field type.
    pub fn duplicate(&self) -> (r: FieldType)
        ensures
            r@ == self@,
    {
        match self {
            FieldType::Base(p) => FieldType::Base(p.duplicate()),
            FieldType::Object(name) => FieldType::Object(name.clone()),
            FieldType::Array(a, n) => FieldType::Array(a.duplicate(), *n),
            FieldType::Invalid => FieldType::Invalid,
        }
    }
}

impl ReturnDescriptor {
    /// A copy of the return descriptor.
    pub fn duplicate(&self) -> (r: ReturnDescriptor)
        ensures
            r@ == self@,
    {
        match self {
            ReturnDescriptor::NonVoid(t) => ReturnDescriptor::NonVoid(t.duplicate()),
            ReturnDescriptor::Void => ReturnDescriptor::Void,
            ReturnDescriptor::Invalid => ReturnDescriptor::Invalid,
        }
    }
}

impl MethodDescriptor {
    /// A copy of the method descriptor.
    pub fn duplicate(&self) -> (r: MethodDescriptor)
        ensures
            r@ == self@,
    {
        let mut params: Vec<FieldType> = Vec::new();
        let mut i: usize = 0;
        while i < self.0.0.len()
            invariant
                i <= self.0.0@.len(),
                field_types(params@) == field_types(self.0.0@.subrange(0, i as int)),
            decreases self.0.0@.len() - i,
        {
            let t = self.0.0[i].duplicate();
            let ghost before = params@;
            params.push(t);
            i += 1;
            assert(self.0.0@.subrange(0, i as int) =~= self.0.0@.subrange(0, i - 1).push(self.0.0@[i - 1]));
            assert(field_types(params@) =~= field_types(before).push(t@));
            assert(field_types(params@) =~= field_types(self.0.0@.subrange(0, i as int)));
        }
        assert(self.0.0@.subrange(0, i as int) =~= self.0.0@);
        MethodDescriptor(Params(params), self.1.duplicate())
    }
}

} // verus!
