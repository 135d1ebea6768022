//! Little-endian views of byte buffers.
//!
//! The control-plane buffers (register transfers, feature tables, the
//! communication page) are fixed layouts of little-endian fields. The spec
//! functions here name the value of a field at a byte offset; the exec
//! functions read and write such fields and are proved against them.

use vstd::bytes::lemma_auto_spec_u16_to_from_le_bytes;
use vstd::bytes::lemma_auto_spec_u32_to_from_le_bytes;
use vstd::bytes::lemma_auto_spec_u64_to_from_le_bytes;
use vstd::bytes::spec_u16_from_le_bytes;
use vstd::bytes::spec_u16_to_le_bytes;
use vstd::bytes::spec_u32_from_le_bytes;
use vstd::bytes::spec_u32_to_le_bytes;
use vstd::bytes::spec_u64_from_le_bytes;
use vstd::bytes::spec_u64_to_le_bytes;
use vstd::bytes::u16_from_le_bytes;
use vstd::bytes::u16_to_le_bytes;
use vstd::bytes::u32_from_le_bytes;
use vstd::bytes::u32_to_le_bytes;
use vstd::bytes::u64_from_le_bytes;
use vstd::bytes::u64_to_le_bytes;
use vstd::prelude::*;
use vstd::slice::slice_index_get;
use vstd::slice::slice_subrange;

verus! {

/// The 16-bit little-endian value at byte offset `off` of `s`.
pub open spec fn le16_at(s: Seq<u8>, off: int) -> u16 {
    spec_u16_from_le_bytes(s.subrange(off, off + 2))
}

/// The 32-bit little-endian value at byte offset `off` of `s`.
pub open spec fn le32_at(s: Seq<u8>, off: int) -> u32 {
    spec_u32_from_le_bytes(s.subrange(off, off + 4))
}

/// The 64-bit little-endian value at byte offset `off` of `s`.
pub open spec fn le64_at(s: Seq<u8>, off: int) -> u64 {
    spec_u64_from_le_bytes(s.subrange(off, off + 8))
}

/// Read the byte at offset `off`.
pub fn read_u8_at(s: &[u8], off: usize) -> (r: u8)
    requires
        off < s@.len(),
    ensures
        r == s@[off as int],
{
    *slice_index_get(s, off)
}

/// Read the 16-bit little-endian field at offset `off`.
pub fn read_u16_at(s: &[u8], off: usize) -> (r: u16)
    requires
        off + 2 <= s@.len(),
    ensures
        r == le16_at(s@, off as int),
{
    // The binding puts the slice length's usize bound in scope, so the
    // offset arithmetic below is known not to overflow.
    let n: usize = s.len();
    u16_from_le_bytes(slice_subrange(s, off, off + 2))
}

/// Read the 32-bit little-endian field at offset `off`.
pub fn read_u32_at(s: &[u8], off: usize) -> (r: u32)
    requires
        off + 4 <= s@.len(),
    ensures
        r == le32_at(s@, off as int),
{
    let n: usize = s.len();
    u32_from_le_bytes(slice_subrange(s, off, off + 4))
}

/// Read the 64-bit little-endian field at offset `off`.
pub fn read_u64_at(s: &[u8], off: usize) -> (r: u64)
    requires
        off + 8 <= s@.len(),
    ensures
        r == le64_at(s@, off as int),
{
    let n: usize = s.len();
    u64_from_le_bytes(slice_subrange(s, off, off + 8))
}

/// Append one byte.
pub fn push_u8(v: &mut Vec<u8>, x: u8)
    ensures
        final(v)@ == old(v)@ + seq![x],
        final(v)@.len() == old(v)@.len() + 1,
        final(v)@.subrange(0, old(v)@.len() as int) == old(v)@,
        final(v)@[old(v)@.len() as int] == x,
{
    v.push(x);
    proof {
        assert(v@ =~= old(v)@ + seq![x]);
        assert(v@.subrange(0, old(v)@.len() as int) =~= old(v)@);
    }
}

/// Append a 16-bit field in little-endian order.
pub fn push_u16_le(v: &mut Vec<u8>, x: u16)
    ensures
        final(v)@ == old(v)@ + spec_u16_to_le_bytes(x),
        final(v)@.len() == old(v)@.len() + 2,
        final(v)@.subrange(0, old(v)@.len() as int) == old(v)@,
        le16_at(final(v)@, old(v)@.len() as int) == x,
{
    let mut b = u16_to_le_bytes(x);
    v.append(&mut b);
    proof {
        lemma_le_round_trip();
        assert(v@.subrange(0, old(v)@.len() as int) =~= old(v)@);
        assert(v@.subrange(old(v)@.len() as int, old(v)@.len() + 2int) =~= spec_u16_to_le_bytes(x));
    }
}

/// Append a 32-bit field in little-endian order.
pub fn push_u32_le(v: &mut Vec<u8>, x: u32)
    ensures
        final(v)@ == old(v)@ + spec_u32_to_le_bytes(x),
        final(v)@.len() == old(v)@.len() + 4,
        final(v)@.subrange(0, old(v)@.len() as int) == old(v)@,
        le32_at(final(v)@, old(v)@.len() as int) == x,
{
    let mut b = u32_to_le_bytes(x);
    v.append(&mut b);
    proof {
        lemma_le_round_trip();
        assert(v@.subrange(0, old(v)@.len() as int) =~= old(v)@);
        assert(v@.subrange(old(v)@.len() as int, old(v)@.len() + 4int) =~= spec_u32_to_le_bytes(x));
    }
}

/// Append a 64-bit field in little-endian order.
pub fn push_u64_le(v: &mut Vec<u8>, x: u64)
    ensures
        final(v)@ == old(v)@ + spec_u64_to_le_bytes(x),
        final(v)@.len() == old(v)@.len() + 8,
        final(v)@.subrange(0, old(v)@.len() as int) == old(v)@,
        le64_at(final(v)@, old(v)@.len() as int) == x,
{
    let mut b = u64_to_le_bytes(x);
    v.append(&mut b);
    proof {
        lemma_le_round_trip();
        assert(v@.subrange(0, old(v)@.len() as int) =~= old(v)@);
        assert(v@.subrange(old(v)@.len() as int, old(v)@.len() + 8int) =~= spec_u64_to_le_bytes(x));
    }
}

/// The little-endian byte sequences of the fixed widths have those widths,
/// and reading a written field gives back the written value.
pub proof fn lemma_le_round_trip()
    ensures
        forall|x: u16| (#[trigger] spec_u16_to_le_bytes(x)).len() == 2,
        forall|x: u32| (#[trigger] spec_u32_to_le_bytes(x)).len() == 4,
        forall|x: u64| (#[trigger] spec_u64_to_le_bytes(x)).len() == 8,
        forall|x: u16| spec_u16_from_le_bytes(#[trigger] spec_u16_to_le_bytes(x)) == x,
        forall|x: u32| spec_u32_from_le_bytes(#[trigger] spec_u32_to_le_bytes(x)) == x,
        forall|x: u64| spec_u64_from_le_bytes(#[trigger] spec_u64_to_le_bytes(x)) == x,
{
    lemma_auto_spec_u16_to_from_le_bytes();
    lemma_auto_spec_u32_to_from_le_bytes();
    lemma_auto_spec_u64_to_from_le_bytes();
    assert forall|x: u16| spec_u16_from_le_bytes(#[trigger] spec_u16_to_le_bytes(x)) == x by {
        assert(spec_u16_to_le_bytes(x).len() == 2);
    }
    assert forall|x: u32| spec_u32_from_le_bytes(#[trigger] spec_u32_to_le_bytes(x)) == x by {
        assert(spec_u32_to_le_bytes(x).len() == 4);
    }
    assert forall|x: u64| spec_u64_from_le_bytes(#[trigger] spec_u64_to_le_bytes(x)) == x by {
        assert(spec_u64_to_le_bytes(x).len() == 8);
    }
}

/// Extending a buffer on the right leaves every field within the original
/// length unchanged.
pub proof fn lemma_le_stable(s1: Seq<u8>, s2: Seq<u8>)
    requires
        s1.len() <= s2.len(),
        s2.subrange(0, s1.len() as int) == s1,
    ensures
        forall|i: int| 0 <= i < s1.len() ==> #[trigger] s2[i] == s1[i],
        forall|off: int|
            0 <= off && off + 2 <= s1.len() ==> #[trigger] le16_at(s2, off) == le16_at(s1, off),
        forall|off: int|
            0 <= off && off + 4 <= s1.len() ==> #[trigger] le32_at(s2, off) == le32_at(s1, off),
        forall|off: int|
            0 <= off && off + 8 <= s1.len() ==> #[trigger] le64_at(s2, off) == le64_at(s1, off),
{
    assert forall|i: int| 0 <= i < s1.len() implies #[trigger] s2[i] == s1[i] by {
        assert(s2.subrange(0, s1.len() as int)[i] == s2[i]);
    }
    assert forall|off: int|
        0 <= off && off + 2 <= s1.len() implies #[trigger] le16_at(s2, off) == le16_at(
        s1,
        off,
    ) by {
        assert(s2.subrange(off, off + 2) =~= s1.subrange(off, off + 2));
    }
    assert forall|off: int|
        0 <= off && off + 4 <= s1.len() implies #[trigger] le32_at(s2, off) == le32_at(
        s1,
        off,
    ) by {
        assert(s2.subrange(off, off + 4) =~= s1.subrange(off, off + 4));
    }
    assert forall|off: int|
        0 <= off && off + 8 <= s1.len() implies #[trigger] le64_at(s2, off) == le64_at(
        s1,
        off,
    ) by {
        assert(s2.subrange(off, off + 8) =~= s1.subrange(off, off + 8));
    }
}

} // verus!
