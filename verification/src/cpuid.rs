//! The self-describing feature-identification table and its negotiation.
//!
//! The table is one buffer: a header carrying the entry count, then that
//! many fixed-size entries. The right count is not known in advance; the
//! negotiation queries with a guess and reacts to the two recoverable
//! refusals: on "buffer too large for one transfer" it doubles the guess
//! and retries; on "too few entries" the facility wrote the required count
//! back into the header, and the retry adopts it. `cpuid_step` is that
//! decision, one call per query; the transport loops it.

use vstd::prelude::*;
use vstd::slice::slice_subrange;

use crate::bytes_le::le32_at;
use crate::bytes_le::lemma_le_stable;
use crate::bytes_le::push_u32_le;
use crate::bytes_le::read_u32_at;

verus! {

/// Error code with which the facility reports a buffer too large for one
/// transfer.
pub const E2BIG: i32 = 7;

/// Error code with which the facility reports a buffer with too few
/// entries, writing the required count back into the header.
pub const ENOMEM: i32 = 12;

/// Initial entry-count guess of the negotiation.
pub const CPUID_ENTRIES: u32 = 64;

/// Bytes of the table header: the entry count and one padding word.
pub const CPUID2_HEADER_BYTES: usize = 8;

/// Bytes of one feature entry.
pub const CPUID_ENTRY2_BYTES: usize = 40;

/// One feature-identification entry the guest's identification instruction
/// will observe.
#[derive(Clone, Copy, Debug, PartialEq, Eq)]
pub struct CpuidEntry2 {
    pub function: u32,
    pub index: u32,
    pub flags: u32,
    pub eax: u32,
    pub ebx: u32,
    pub ecx: u32,
    pub edx: u32,
    pub padding: [u32; 3],
}

/// `e` is the feature entry laid out at byte offset `base` of `s`.
pub open spec fn cpuid_entry2_matches(e: CpuidEntry2, s: Seq<u8>, base: int) -> bool {
    &&& e.function == le32_at(s, base)
    &&& e.index == le32_at(s, base + 4)
    &&& e.flags == le32_at(s, base + 8)
    &&& e.eax == le32_at(s, base + 12)
    &&& e.ebx == le32_at(s, base + 16)
    &&& e.ecx == le32_at(s, base + 20)
    &&& e.edx == le32_at(s, base + 24)
    &&& e.padding@ == seq![le32_at(s, base + 28), le32_at(s, base + 32), le32_at(s, base + 36)]
}

/// Every field of `e` is zero.
pub open spec fn cpuid_entry2_is_zero(e: CpuidEntry2) -> bool {
    &&& e.function == 0
    &&& e.index == 0
    &&& e.flags == 0
    &&& e.eax == 0
    &&& e.ebx == 0
    &&& e.ecx == 0
    &&& e.edx == 0
    &&& e.padding@ == seq![0u32, 0u32, 0u32]
}

impl Default for CpuidEntry2 {
    /// The all-zero feature entry.
    fn default() -> (r: CpuidEntry2)
        ensures
            cpuid_entry2_is_zero(r),
    {
        let r = CpuidEntry2 {
            function: 0,
            index: 0,
            flags: 0,
            eax: 0,
            ebx: 0,
            ecx: 0,
            edx: 0,
            padding: [0, 0, 0],
        };
        proof {
            assert(r.padding@ =~= seq![0u32, 0u32, 0u32]);
        }
        r
    }
}

/// Decode the feature entry at offset `base`.
fn read_entry_at(s: &[u8], base: usize) -> (r: CpuidEntry2)
    requires
        base + CPUID_ENTRY2_BYTES <= s@.len(),
    ensures
        cpuid_entry2_matches(r, s@, base as int),
{
    let n: usize = s.len();
    let r = CpuidEntry2 {
        function: read_u32_at(s, base),
        index: read_u32_at(s, base + 4),
        flags: read_u32_at(s, base + 8),
        eax: read_u32_at(s, base + 12),
        ebx: read_u32_at(s, base + 16),
        ecx: read_u32_at(s, base + 20),
        edx: read_u32_at(s, base + 24),
        padding: [read_u32_at(s, base + 28), read_u32_at(s, base + 32), read_u32_at(s, base + 36)],
    };
    proof {
        assert(r.padding@ =~= seq![
            le32_at(s@, base + 28),
            le32_at(s@, base + 32),
            le32_at(s@, base + 36),
        ]);
    }
    r
}

/// Append the 40-byte layout of a feature entry.
fn push_entry(v: &mut Vec<u8>, e: &CpuidEntry2)
    ensures
        final(v)@.len() == old(v)@.len() + CPUID_ENTRY2_BYTES,
        final(v)@.subrange(0, old(v)@.len() as int) == old(v)@,
        cpuid_entry2_matches(*e, final(v)@, old(v)@.len() as int),
{
    push_u32_le(v, e.function);
    let ghost s1 = v@;
    push_u32_le(v, e.index);
    proof { lemma_le_stable(s1, v@); }
    let ghost s2 = v@;
    push_u32_le(v, e.flags);
    proof { lemma_le_stable(s2, v@); }
    let ghost s3 = v@;
    push_u32_le(v, e.eax);
    proof { lemma_le_stable(s3, v@); }
    let ghost s4 = v@;
    push_u32_le(v, e.ebx);
    proof { lemma_le_stable(s4, v@); }
    let ghost s5 = v@;
    push_u32_le(v, e.ecx);
    proof { lemma_le_stable(s5, v@); }
    let ghost s6 = v@;
    push_u32_le(v, e.edx);
    proof { lemma_le_stable(s6, v@); }
    let ghost s7 = v@;
    push_u32_le(v, e.padding[0]);
    proof { lemma_le_stable(s7, v@); }
    let ghost s8 = v@;
    push_u32_le(v, e.padding[1]);
    proof { lemma_le_stable(s8, v@); }
    let ghost s9 = v@;
    push_u32_le(v, e.padding[2]);
    proof {
        lemma_le_stable(s9, v@);
        assert(e.padding@ =~= seq![
            le32_at(v@, old(v)@.len() + 28int),
            le32_at(v@, old(v)@.len() + 32int),
            le32_at(v@, old(v)@.len() + 36int),
        ]);
    }
}

/// The feature table: the advertised entry count and the allocated entries.
/// The count normally equals or undercounts the allocation; only the
/// facility's "too few entries" reply leaves a count above it.
#[derive(Clone, Debug, PartialEq, Eq)]
pub struct Cpuid2 {
    pub nent: u32,
    pub entries: Vec<CpuidEntry2>,
}

/// `c` is the feature table laid out in the buffer `s`: the header carries
/// the count and the allocation fills the rest of the buffer.
pub open spec fn cpuid2_matches(c: Cpuid2, s: Seq<u8>) -> bool {
    &&& c.nent == le32_at(s, 0)
    &&& s.len() == CPUID2_HEADER_BYTES + CPUID_ENTRY2_BYTES * c.entries@.len()
    &&& forall|i: int|
        0 <= i < c.entries@.len() ==> cpuid_entry2_matches(
            #[trigger] c.entries@[i],
            s,
            CPUID2_HEADER_BYTES + CPUID_ENTRY2_BYTES * i,
        )
}

impl Cpuid2 {
    /// The advertised count does not exceed the allocation.
    pub open spec fn wf(&self) -> bool {
        self.nent <= self.entries@.len()
    }

    /// The valid entries: the first `nent` of the allocation.
    pub fn valid_entries(&self) -> (r: &[CpuidEntry2])
        requires
            self.wf(),
        ensures
            r@ == self.entries@.subrange(0, self.nent as int),
    {
        slice_subrange(self.entries.as_slice(), 0, self.nent as usize)
    }

    /// Lay this table out as the transfer buffer: the count, a zero padding
    /// word, then every allocated entry.
    pub fn to_bytes(&self) -> (r: Vec<u8>)
        ensures
            cpuid2_matches(*self, r@),
            le32_at(r@, 4) == 0u32,
    {
        let mut v: Vec<u8> = Vec::new();
        push_u32_le(&mut v, self.nent);
        let ghost h1 = v@;
        push_u32_le(&mut v, 0u32);
        proof { lemma_le_stable(h1, v@); }
        let mut i: usize = 0;
        while i < self.entries.len()
            invariant
                i <= self.entries@.len(),
                v@.len() == CPUID2_HEADER_BYTES + CPUID_ENTRY2_BYTES * i,
                le32_at(v@, 0) == self.nent,
                le32_at(v@, 4) == 0u32,
                forall|j: int|
                    0 <= j < i ==> cpuid_entry2_matches(
                        #[trigger] self.entries@[j],
                        v@,
                        CPUID2_HEADER_BYTES + CPUID_ENTRY2_BYTES * j,
                    ),
            decreases self.entries@.len() - i,
        {
            let ghost pre = v@;
            push_entry(&mut v, &self.entries[i]);
            proof {
                lemma_le_stable(pre, v@);
                assert forall|j: int| 0 <= j < i + 1 implies cpuid_entry2_matches(
                    #[trigger] self.entries@[j],
                    v@,
                    CPUID2_HEADER_BYTES + CPUID_ENTRY2_BYTES * j,
                ) by {
                    if j < i {
                        assert(cpuid_entry2_matches(
                            self.entries@[j],
                            pre,
                            CPUID2_HEADER_BYTES + CPUID_ENTRY2_BYTES * j,
                        ));
                    }
                }
            }
            i = i + 1;
        }
        v
    }

    /// Decode a table out of a transfer buffer allocated for
    /// `nent_capacity` entries. The decoded count is whatever the header
    /// holds — after a "too few entries" reply it exceeds the capacity.
    pub fn from_bytes(s: &[u8], nent_capacity: usize) -> (r: Cpuid2)
        requires
            s@.len() == CPUID2_HEADER_BYTES + CPUID_ENTRY2_BYTES * nent_capacity,
        ensures
            cpuid2_matches(r, s@),
            r.entries@.len() == nent_capacity,
    {
        let n: usize = s.len();
        let nent = read_u32_at(s, 0);
        let mut entries: Vec<CpuidEntry2> = Vec::new();
        let mut i: usize = 0;
        while i < nent_capacity
            invariant
                i <= nent_capacity,
                n == s@.len(),
                s@.len() == CPUID2_HEADER_BYTES + CPUID_ENTRY2_BYTES * nent_capacity,
                entries@.len() == i,
                forall|j: int|
                    0 <= j < i ==> cpuid_entry2_matches(
                        #[trigger] entries@[j],
                        s@,
                        CPUID2_HEADER_BYTES + CPUID_ENTRY2_BYTES * j,
                    ),
            decreases nent_capacity - i,
        {
            let e = read_entry_at(s, CPUID2_HEADER_BYTES + CPUID_ENTRY2_BYTES * i);
            entries.push(e);
            i = i + 1;
        }
        Cpuid2 { nent, entries }
    }
}

/// A transfer buffer lays out at most one table: equal buffers decode to
/// the same count and the same entries.
pub proof fn lemma_cpuid2_round_trip(a: Cpuid2, b: Cpuid2, s: Seq<u8>)
    requires
        cpuid2_matches(a, s),
        cpuid2_matches(b, s),
    ensures
        a.nent == b.nent,
        a.entries@ == b.entries@,
{
    assert(a.entries@.len() == b.entries@.len());
    assert forall|i: int| 0 <= i < a.entries@.len() implies a.entries@[i] == b.entries@[i] by {
        let ea = a.entries@[i];
        let eb = b.entries@[i];
        assert(cpuid_entry2_matches(ea, s, CPUID2_HEADER_BYTES + CPUID_ENTRY2_BYTES * i));
        assert(cpuid_entry2_matches(eb, s, CPUID2_HEADER_BYTES + CPUID_ENTRY2_BYTES * i));
        assert(ea.padding =~= eb.padding);
    }
    assert(a.entries@ =~= b.entries@);
}

/// An owned feature table sized and allocated in one piece.
#[derive(Clone, Debug, PartialEq, Eq)]
pub struct CpuidHandle {
    pub cpuid: Cpuid2,
}

impl CpuidHandle {
    /// Allocate a zeroed table advertising and holding `nent` entries.
    pub fn new(nent: u32) -> (r: CpuidHandle)
        ensures
            r.cpuid.nent == nent,
            r.cpuid.entries@.len() == nent,
            forall|i: int| 0 <= i < nent ==> cpuid_entry2_is_zero(#[trigger] r.cpuid.entries@[i]),
            r.cpuid.wf(),
    {
        let count = nent as usize;
        let mut entries: Vec<CpuidEntry2> = Vec::new();
        let mut i: usize = 0;
        while i < count
            invariant
                i <= count,
                entries@.len() == i,
                forall|j: int| 0 <= j < i ==> cpuid_entry2_is_zero(#[trigger] entries@[j]),
            decreases count - i,
        {
            entries.push(CpuidEntry2::default());
            i = i + 1;
        }
        CpuidHandle { cpuid: Cpuid2 { nent, entries } }
    }
}

/// One decision of the negotiation, taken after each query.
#[derive(Clone, Copy, Debug, PartialEq, Eq)]
pub enum CpuidStep {
    /// The query succeeded; the buffer holds the table.
    Done,
    /// Allocate a buffer of this many entries and query again.
    Retry(u32),
    /// Surface this OS error; the negotiation is over.
    Fail(i32),
}

/// Decide how the negotiation goes on after a query on a buffer of `guess`
/// entries: success ends it; "too large for one transfer" doubles the
/// guess; "too few entries" adopts the count the facility wrote back into
/// the header (`reported_nent`); any other failure is surfaced verbatim.
/// The guess is bounded so that doubling stays representable.
pub fn cpuid_step(guess: u32, ret: i32, errno_val: i32, reported_nent: u32) -> (r: CpuidStep)
    requires
        guess <= 0x7fffffff,
    ensures
        ret == 0 ==> r == CpuidStep::Done,
        ret != 0 && errno_val == E2BIG ==> r == CpuidStep::Retry((2 * guess) as u32),
        ret != 0 && errno_val == ENOMEM ==> r == CpuidStep::Retry(reported_nent),
        ret != 0 && errno_val != E2BIG && errno_val != ENOMEM ==> r == CpuidStep::Fail(errno_val),
{
    if ret == 0 {
        CpuidStep::Done
    } else if errno_val == E2BIG {
        CpuidStep::Retry(guess * 2)
    } else if errno_val == ENOMEM {
        CpuidStep::Retry(reported_nent)
    } else {
        CpuidStep::Fail(errno_val)
    }
}

/// The negotiation makes progress on the "too large" path: the count
/// `cpuid_step` names there — twice the guess — strictly exceeds any
/// positive guess, so no failed size is ever queried again. The protocol
/// itself places no upper bound on the loop.
pub proof fn lemma_negotiation_progress(guess: u32)
    requires
        1 <= guess <= 0x7fffffff,
    ensures
        (2 * guess) as u32 > guess,
{
}

} // verus!
