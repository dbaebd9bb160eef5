use vstd::prelude::*;
use vstd::utf8::*;
use vstd::string::StringSliceAdditionalSpecFns;

verus! {

broadcast use {
    encode_utf8_valid_utf8,
    encode_utf8_decode_utf8,
    is_char_boundary_start_end_of_seq,
    is_char_boundary_iff_not_is_continuation_byte,
};

/// The characters obtained by reading each byte of `b` as one character
/// (the byte value is the character's code point).
pub open spec fn latin1(b: Seq<u8>) -> Seq<char> {
    b.map_values(|x: u8| x as char)
}

/// Appends `c` to `s`.
///
/// Calls `String::push`, which appends the character to the end of the string.
/// The contract claims exactly that: the characters of `s` afterwards are its
/// characters before followed by `c`.
#[verifier::external_body]
pub fn push_char(s: &mut String, c: char)
    ensures
        final(s)@ == old(s)@.push(c),
{
    s.push(c);
}

/// The character with code point `code`, when `code` is a Unicode scalar value.
///
/// Calls `char::from_u32`, which returns `None` for surrogate code points and
/// for values above `0x10FFFF`, and the character with that code point
/// otherwise. The contract claims exactly that.
#[verifier::external_body]
pub fn char_from_u32(code: u32) -> (r: Option<char>)
    ensures
        r == (if is_scalar(code) {
            Some(code as char)
        } else {
            None::<char>
        }),
{
    char::from_u32(code)
}

/// In valid UTF-8, the position right after a one-byte character that starts at
/// a character boundary is a character boundary too.
pub proof fn lemma_boundary_after_ascii(b: Seq<u8>, k: int)
    requires
        valid_utf8(b),
        0 <= k < b.len(),
        is_char_boundary(b, k),
        b[k] < 128,
    ensures
        is_char_boundary(b, k + 1),
    decreases b.len(),
{
    reveal_with_fuel(is_char_boundary, 2);
    let l = length_of_first_scalar(b);
    let t = pop_first_scalar(b);
    if k == 0 {
        assert(l == 1);
        assert(is_char_boundary(t, 0));
    } else {
        assert(k - l >= 0);
        assert(t[k - l] == b[k]);
        lemma_boundary_after_ascii(t, k - l);
        assert(is_char_boundary(t, k + 1 - l));
    }
}

/// The part of `s` that follows its first `i` bytes; `i` must be 0 or follow a
/// one-byte character.
pub fn str_tail(s: &str, i: usize) -> (r: &str)
    requires
        i <= s.spec_bytes().len(),
        i == 0 || s.spec_bytes()[i - 1] < 128,
    ensures
        r.spec_bytes() == s.spec_bytes().skip(i as int),
{
    proof {
        let b = s.spec_bytes();
        assert(valid_utf8(b));
        if i > 0 {
            assert(!is_continuation_byte(b[i - 1]));
            assert(is_char_boundary(b, i - 1));
            lemma_boundary_after_ascii(b, i - 1);
        }
    }
    let (_, t) = s.split_at(i);
    assert(t.spec_bytes() =~= s.spec_bytes().skip(i as int));
    t
}

/// Whether two string slices hold the same characters.
pub fn str_eq(a: &str, b: &str) -> (r: bool)
    ensures
        r == (a@ == b@),
{
    let x = a.as_bytes();
    let y = b.as_bytes();
    proof {
        assert(decode_utf8(encode_utf8(a@)) == a@);
        assert(decode_utf8(encode_utf8(b@)) == b@);
    }
    if x.len() != y.len() {
        assert(x@ != y@);
        return false;
    }
    let mut i: usize = 0;
    while i < x.len()
        invariant
            x@ == a.spec_bytes(),
            y@ == b.spec_bytes(),
            a@ != b@ ==> x@ != y@,
            x@.len() == y@.len(),
            i <= x@.len(),
            forall|k: int| 0 <= k < i ==> x@[k] == y@[k],
        decreases x@.len() - i,
    {
        if x[i] != y[i] {
            assert(x@ != y@);
            return false;
        }
        i += 1;
    }
    assert(x@ =~= y@);
    true
}

/// The string whose characters are the bytes `b[from..to]`, each byte read
/// as one character.
pub fn latin1_string(b: &[u8], from: usize, to: usize) -> (r: String)
    requires
        from <= to <= b@.len(),
    ensures
        r@ == latin1(b@.subrange(from as int, to as int)),
{
    let mut s = String::new();
    let mut i = from;
    while i < to
        invariant
            from <= i <= to <= b@.len(),
            s@ == latin1(b@.subrange(from as int, i as int)),
        decreases to - i,
    {
        let c = b[i] as char;
        push_char(&mut s, c);
        i += 1;
        assert(latin1(b@.subrange(from as int, i as int)) =~= latin1(
            b@.subrange(from as int, (i - 1) as int),
        ).push(c));
    }
    s
}

} // verus!
