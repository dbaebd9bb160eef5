//! The computations behind native methods of `java.lang`: copying a range of
//! one array into another (`System.arraycopy`), reading the name held by a
//! Latin-1 coded Java string (`Class.getPrimitiveClass`), and the processor
//! count (`Runtime.availableProcessors`).
use vstd::prelude::*;

use crate::text::push_char;

verus! {

/// `dst` once its elements from `dest_pos` on, `length` of them, are replaced
/// by those of `src` from `src_pos` on.
pub open spec fn copied<T>(src: Seq<T>, src_pos: int, dst: Seq<T>, dest_pos: int, length: int) -> Seq<T> {
    Seq::new(
        dst.len(),
        |i: int|
            if dest_pos <= i < dest_pos + length {
                src[src_pos + (i - dest_pos)]
            } else {
                dst[i]
            },
    )
}

/// Copies `length` elements of `src`, from index `src_pos` on, into `dest`,
/// from index `dest_pos` on; the other elements of `dest` stay.
///
/// Both ranges must lie inside their arrays and the positions and the length
/// must not be negative: a call outside those bounds has no defined outcome.
pub fn arraycopy<T: Copy>(src: &Vec<T>, src_pos: i32, dest: &mut Vec<T>, dest_pos: i32, length: i32)
    requires
        0 <= src_pos,
        0 <= dest_pos,
        0 <= length,
        src_pos + length <= src.len(),
        dest_pos + length <= old(dest).len(),
    ensures
        final(dest)@ == copied(src@, src_pos as int, old(dest)@, dest_pos as int, length as int),
{
    let sp: usize = src_pos as usize;
    let dp: usize = dest_pos as usize;
    let n: usize = length as usize;
    let mut i: usize = 0;
    while i < n
        invariant
            sp + n <= src.len(),
            dp + n <= dest.len(),
            i <= n,
            dest@.len() == old(dest)@.len(),
            forall|j: int|
                0 <= j < dest@.len() ==> #[trigger] dest@[j] == (if dp <= j < dp + i {
                    src@[sp + (j - dp)]
                } else {
                    old(dest)@[j]
                }),
        decreases n - i,
    {
        dest.set(dp + i, src[sp + i]);
        i += 1;
    }
    assert(dest@ =~= copied(src@, src_pos as int, old(dest)@, dest_pos as int, length as int));
}

/// Copies `length` elements of `array`, from index `src_pos` on, to index
/// `dest_pos` on within the same array. As `System.arraycopy` requires when
/// source and destination are one array, the ranges may overlap and the copy
/// is made as if through a temporary array: every copied element is the one
/// the source range held before the call.
///
/// Both ranges must lie inside the array and the positions and the length
/// must not be negative: a call outside those bounds has no defined outcome.
pub fn arraycopy_within<T: Copy>(array: &mut Vec<T>, src_pos: i32, dest_pos: i32, length: i32)
    requires
        0 <= src_pos,
        0 <= dest_pos,
        0 <= length,
        src_pos + length <= old(array).len(),
        dest_pos + length <= old(array).len(),
    ensures
        final(array)@ == copied(old(array)@, src_pos as int, old(array)@, dest_pos as int, length as int),
{
    let sp: usize = src_pos as usize;
    let n: usize = length as usize;
    let mut temp: Vec<T> = Vec::new();
    let mut i: usize = 0;
    while i < n
        invariant
            sp + n <= array.len(),
            array@ == old(array)@,
            i <= n,
            temp@ == old(array)@.subrange(sp as int, sp + i),
        decreases n - i,
    {
        temp.push(array[sp + i]);
        i += 1;
    }
    let src: Vec<T> = temp;
    arraycopy(&src, 0, array, dest_pos, length);
    assert(array@ =~= copied(old(array)@, src_pos as int, old(array)@, dest_pos as int, length as int));
}

/// The characters of a Java string coded in Latin-1: each byte, read as
/// unsigned, is the code point of one character.
pub open spec fn latin1_chars(bytes: Seq<i8>) -> Seq<char> {
    bytes.map_values(|b: i8| (b as u8) as char)
}

/// The name held by the Latin-1 bytes of a Java string, such as the name of
/// a primitive type that `Class.getPrimitiveClass` is asked for.
pub fn primitive_class_name(bytes: &[i8]) -> (name: String)
    ensures
        name@ == latin1_chars(bytes@),
{
    let mut name = String::new();
    let mut i: usize = 0;
    while i < bytes.len()
        invariant
            i <= bytes@.len(),
            name@ == latin1_chars(bytes@.subrange(0, i as int)),
        decreases bytes@.len() - i,
    {
        let c: char = (bytes[i] as u8) as char;
        push_char(&mut name, c);
        assert(latin1_chars(bytes@.subrange(0, i + 1)) =~= latin1_chars(
            bytes@.subrange(0, i as int),
        ).push(c));
        i += 1;
    }
    assert(bytes@.subrange(0, bytes@.len() as int) =~= bytes@);
    name
}

/// The number of physical processor cores of this machine.
///
/// Calls `num_cpus::get_physical`, whose documentation says that it always
/// returns at least 1. The count depends on the machine, so the contract
/// claims nothing more.
#[verifier::external_body]
fn physical_cores() -> (n: usize)
    ensures
        n >= 1,
{
    num_cpus::get_physical()
}

/// A count as a Java `int`: its low 32 bits.
pub open spec fn java_int(count: usize) -> i32 {
    count as i32
}

/// The Java `int` that `Runtime.availableProcessors` answers for a count of
/// `count` processors: the count, cut to 32 bits.
pub fn processors_as_int(count: usize) -> (r: i32)
    ensures
        r == java_int(count),
{
    count as i32
}

/// The answer of `Runtime.availableProcessors`: the number of physical cores
/// of this machine, as a Java `int`.
pub fn available_processors() -> (r: i32)
    ensures
        exists|n: usize| n >= 1 && r == #[trigger] java_int(n),
{
    let n = physical_cores();
    processors_as_int(n)
}

} // verus!
