//! The mathematical reading of big-endian byte sequences that every decoder
//! of this crate is specified against.
use vstd::prelude::*;
use crate::error::ParseError;

verus! {

/// The outcome of decoding a value that starts at some position: the value
/// and the position right after it, or the reason decoding failed.
pub type Decoded<T> = Result<(T, int), ParseError>;

/// The unsigned value of two bytes in big-endian order.
pub open spec fn be16(a: u8, b: u8) -> u16 {
    (a as int * 0x100 + b as int) as u16
}

/// The unsigned value of four bytes in big-endian order.
pub open spec fn be32(a: u8, b: u8, c: u8, d: u8) -> u32 {
    (a as int * 0x1000000 + b as int * 0x10000 + c as int * 0x100 + d as int) as u32
}

/// The unsigned value of eight bytes in big-endian order.
pub open spec fn be64(s: Seq<u8>, p: int) -> u64 {
    (be32(s[p], s[p + 1], s[p + 2], s[p + 3]) as int * 0x100000000 + be32(
        s[p + 4],
        s[p + 5],
        s[p + 6],
        s[p + 7],
    ) as int) as u64
}

/// Whether `n` bytes are available at position `p` of `s`.
pub open spec fn in_bounds(s: Seq<u8>, p: int, n: int) -> bool {
    0 <= p && p + n <= s.len()
}

pub open spec fn sp_u8(s: Seq<u8>, p: int) -> Decoded<u8> {
    if in_bounds(s, p, 1) {
        Ok((s[p], p + 1))
    } else {
        Err(ParseError::UnexpectedEof)
    }
}

pub open spec fn sp_i8(s: Seq<u8>, p: int) -> Decoded<i8> {
    if in_bounds(s, p, 1) {
        Ok((s[p] as i8, p + 1))
    } else {
        Err(ParseError::UnexpectedEof)
    }
}

pub open spec fn sp_u16(s: Seq<u8>, p: int) -> Decoded<u16> {
    if in_bounds(s, p, 2) {
        Ok((be16(s[p], s[p + 1]), p + 2))
    } else {
        Err(ParseError::UnexpectedEof)
    }
}

pub open spec fn sp_i16(s: Seq<u8>, p: int) -> Decoded<i16> {
    if in_bounds(s, p, 2) {
        Ok((be16(s[p], s[p + 1]) as i16, p + 2))
    } else {
        Err(ParseError::UnexpectedEof)
    }
}

pub open spec fn sp_u32(s: Seq<u8>, p: int) -> Decoded<u32> {
    if in_bounds(s, p, 4) {
        Ok((be32(s[p], s[p + 1], s[p + 2], s[p + 3]), p + 4))
    } else {
        Err(ParseError::UnexpectedEof)
    }
}

pub open spec fn sp_i32(s: Seq<u8>, p: int) -> Decoded<i32> {
    if in_bounds(s, p, 4) {
        Ok((be32(s[p], s[p + 1], s[p + 2], s[p + 3]) as i32, p + 4))
    } else {
        Err(ParseError::UnexpectedEof)
    }
}

pub open spec fn sp_u64(s: Seq<u8>, p: int) -> Decoded<u64> {
    if in_bounds(s, p, 8) {
        Ok((be64(s, p), p + 8))
    } else {
        Err(ParseError::UnexpectedEof)
    }
}

pub open spec fn sp_i64(s: Seq<u8>, p: int) -> Decoded<i64> {
    if in_bounds(s, p, 8) {
        Ok((be64(s, p) as i64, p + 8))
    } else {
        Err(ParseError::UnexpectedEof)
    }
}

/// `n` bytes taken as they are.
pub open spec fn sp_bytes(s: Seq<u8>, p: int, n: int) -> Decoded<Seq<u8>> {
    if 0 <= n && in_bounds(s, p, n) {
        Ok((s.subrange(p, p + n), p + n))
    } else {
        Err(ParseError::UnexpectedEof)
    }
}

/// A decoder of one value starting at a position.
pub type Decoder<T> = spec_fn(Seq<u8>, int) -> Decoded<T>;

/// `n` values decoded one after the other by `f`.
pub open spec fn repeat<T>(f: Decoder<T>, s: Seq<u8>, p: int, n: nat) -> Decoded<Seq<T>>
    decreases n,
{
    if n == 0 {
        Ok((seq![], p))
    } else {
        match repeat(f, s, p, (n - 1) as nat) {
            Ok((xs, q)) => match f(s, q) {
                Ok((x, r)) => Ok((xs.push(x), r)),
                Err(e) => Err(e),
            },
            Err(e) => Err(e),
        }
    }
}

/// Once decoding a prefix of the values fails, decoding more of them fails
/// with the same error.
pub proof fn lemma_repeat_err<T>(f: Decoder<T>, s: Seq<u8>, p: int, k: nat, n: nat)
    requires
        k <= n,
        repeat(f, s, p, k) is Err,
    ensures
        repeat(f, s, p, n) == repeat(f, s, p, k),
    decreases n - k,
{
    if k < n {
        lemma_repeat_err(f, s, p, k, (n - 1) as nat);
    }
}

/// Decoding `n` values one after the other gives `n` values.
pub proof fn lemma_repeat_len<T>(f: Decoder<T>, s: Seq<u8>, p: int, n: nat)
    ensures
        repeat(f, s, p, n) matches Ok((xs, _)) ==> xs.len() == n,
    decreases n,
{
    if n > 0 {
        lemma_repeat_len(f, s, p, (n - 1) as nat);
    }
}

/// Decoding values one after the other never moves backwards, given a
/// decoder that never does.
pub proof fn lemma_repeat_forward<T>(f: Decoder<T>, s: Seq<u8>, p: int, n: nat)
    requires
        forall|q: int| (#[trigger] f(s, q)) is Ok ==> f(s, q)->Ok_0.1 >= q,
    ensures
        repeat(f, s, p, n) is Ok ==> repeat(f, s, p, n)->Ok_0.1 >= p,
    decreases n,
{
    if n > 0 {
        lemma_repeat_forward(f, s, p, (n - 1) as nat);
    }
}

pub open spec fn u16_decoder() -> Decoder<u16> {
    |s: Seq<u8>, p: int| sp_u16(s, p)
}

pub open spec fn u8_decoder() -> Decoder<u8> {
    |s: Seq<u8>, p: int| sp_u8(s, p)
}

/// A `u16` count, then that many values decoded one after the other by `f`.
pub open spec fn sp_counted<T>(f: Decoder<T>, s: Seq<u8>, p: int) -> Decoded<Seq<T>> {
    match sp_u16(s, p) {
        Err(e) => Err(e),
        Ok((n, q)) => repeat(f, s, q, n as nat),
    }
}

/// The mathematical values of a sequence of values that have one.
pub open spec fn views<T: View>(v: Seq<T>) -> Seq<T::V> {
    v.map_values(|x: T| x@)
}

/// Whether the result `r` of a decoder, which stopped at `end`, is what the
/// mathematical decoding `spec` gives.
pub open spec fn decodes_as<T: View>(r: Result<T, ParseError>, spec: Decoded<T::V>, end: int) -> bool {
    match spec {
        Ok((v, q)) => r matches Ok(x) && x@ == v && end == q,
        Err(e) => r matches Err(e2) && e2 == e,
    }
}

} // verus!
