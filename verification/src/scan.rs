//! Byte sequences: finding the first occurrence of a byte, appending, and
//! comparing.

use vstd::prelude::*;

verus! {

/// The index of the first `byte` in `bytes`, or the length of `bytes` if
/// there is none.
pub open spec fn position(bytes: Seq<u8>, byte: u8) -> int
    decreases bytes.len(),
{
    if bytes.len() == 0 || bytes[0] == byte {
        0
    } else {
        1 + position(bytes.drop_first(), byte)
    }
}

/// `position` is the one index at which `byte` stands with no `byte`
/// before it, and the length where no such index exists.
pub proof fn lemma_position(bytes: Seq<u8>, byte: u8, at: int)
    requires
        0 <= at <= bytes.len(),
        forall|j: int| 0 <= j < at ==> bytes[j] != byte,
        at < bytes.len() ==> bytes[at] == byte,
    ensures
        position(bytes, byte) == at,
    decreases bytes.len(),
{
    if at > 0 {
        lemma_position(bytes.drop_first(), byte, at - 1);
    }
}

/// `position` lies within the sequence or at its end, `byte` stands there
/// if it lies within, and no `byte` stands before it.
pub proof fn lemma_position_found(bytes: Seq<u8>, byte: u8)
    ensures
        0 <= position(bytes, byte) <= bytes.len(),
        position(bytes, byte) < bytes.len() ==> bytes[position(bytes, byte)] == byte,
        forall|j: int| 0 <= j < position(bytes, byte) ==> bytes[j] != byte,
    decreases bytes.len(),
{
    if bytes.len() > 0 && bytes[0] != byte {
        let rest = bytes.drop_first();
        lemma_position_found(rest, byte);
        assert forall|j: int| 0 <= j < position(bytes, byte) implies bytes[j] != byte by {
            if j > 0 {
                assert(rest[j - 1] == bytes[j]);
            }
        }
    }
}

/// Finds the first `byte` in `bytes` at or after `from`. The result is an
/// index into `bytes`, or the length of `bytes` if there is none.
pub fn find_from(bytes: &[u8], from: usize, byte: u8) -> (at: usize)
    requires
        from <= bytes.len(),
    ensures
        at == from + position(bytes@.skip(from as int), byte),
        from <= at <= bytes.len(),
{
    let mut i: usize = from;
    while i < bytes.len() && bytes[i] != byte
        invariant
            from <= i <= bytes.len(),
            forall|j: int| from <= j < i ==> bytes[j] != byte,
        decreases bytes.len() - i,
    {
        i += 1;
    }
    proof {
        lemma_position(bytes@.skip(from as int), byte, i - from);
    }
    i
}

/// Appends `bytes` to `out`.
pub fn append_bytes(out: &mut Vec<u8>, bytes: &[u8])
    ensures
        final(out)@ == old(out)@ + bytes@,
{
    let mut i: usize = 0;
    while i < bytes.len()
        invariant
            i <= bytes.len(),
            out@ == old(out)@ + bytes@.take(i as int),
        decreases bytes.len() - i,
    {
        out.push(bytes[i]);
        i += 1;
    }
}

/// Whether the bytes of `left` from `from` up to `to` are those of `right`.
pub fn range_equals(left: &[u8], from: usize, to: usize, right: &[u8]) -> (same: bool)
    requires
        from <= to <= left.len(),
    ensures
        same == (left@.subrange(from as int, to as int) == right@),
{
    if to - from != right.len() {
        return false;
    }
    let mut i: usize = 0;
    while i < right.len()
        invariant
            to - from == right.len(),
            from <= to <= left.len(),
            i <= right.len(),
            forall|j: int| 0 <= j < i ==> left[from + j] == right[j],
        decreases right.len() - i,
    {
        if left[from + i] != right[i] {
            return false;
        }
        i += 1;
    }
    assert(left@.subrange(from as int, to as int) =~= right@);
    true
}

} // verus!
