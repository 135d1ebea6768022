//! Architectural state for the x86-64 register layouts: general-purpose and
//! special registers, their exact transfer-buffer layouts, and the remaining
//! per-architecture data declarations.
//!
//! The transfer buffers exchanged with the facility are fixed little-endian
//! layouts. Each register type has a `..._matches` predicate tying a value
//! to a buffer, an encoder and a decoder proved against that predicate, and
//! a lemma that one buffer matches at most one value — which is the register
//! round trip: reading back a written buffer yields the written registers.

use vstd::prelude::*;

use crate::bytes_le::le16_at;
use crate::bytes_le::le32_at;
use crate::bytes_le::le64_at;
use crate::bytes_le::lemma_le_stable;
use crate::bytes_le::push_u16_le;
use crate::bytes_le::push_u32_le;
use crate::bytes_le::push_u64_le;
use crate::bytes_le::push_u8;
use crate::bytes_le::read_u16_at;
use crate::bytes_le::read_u32_at;
use crate::bytes_le::read_u64_at;
use crate::bytes_le::read_u8_at;

verus! {

/// Size of the general-purpose register transfer buffer.
pub const REGS_BYTES: usize = 144;

/// Size of one segment descriptor within the special-register buffer.
pub const SEGMENT_BYTES: usize = 24;

/// Size of one descriptor-table record within the special-register buffer.
pub const DTABLE_BYTES: usize = 16;

/// Size of the special-register transfer buffer.
pub const SREGS_BYTES: usize = 312;

/// General-purpose register state.
#[derive(Clone, Copy, Debug, PartialEq, Eq)]
pub struct Regs {
    pub rax: u64,
    pub rbx: u64,
    pub rcx: u64,
    pub rdx: u64,
    pub rsi: u64,
    pub rdi: u64,
    pub rsp: u64,
    pub rbp: u64,
    pub r8: u64,
    pub r9: u64,
    pub r10: u64,
    pub r11: u64,
    pub r12: u64,
    pub r13: u64,
    pub r14: u64,
    pub r15: u64,
    pub rip: u64,
    pub rflags: u64,
}

/// `r` is the register set laid out in the 144-byte buffer `s`.
pub open spec fn regs_matches(r: Regs, s: Seq<u8>) -> bool {
    &&& r.rax == le64_at(s, 0)
    &&& r.rbx == le64_at(s, 8)
    &&& r.rcx == le64_at(s, 16)
    &&& r.rdx == le64_at(s, 24)
    &&& r.rsi == le64_at(s, 32)
    &&& r.rdi == le64_at(s, 40)
    &&& r.rsp == le64_at(s, 48)
    &&& r.rbp == le64_at(s, 56)
    &&& r.r8 == le64_at(s, 64)
    &&& r.r9 == le64_at(s, 72)
    &&& r.r10 == le64_at(s, 80)
    &&& r.r11 == le64_at(s, 88)
    &&& r.r12 == le64_at(s, 96)
    &&& r.r13 == le64_at(s, 104)
    &&& r.r14 == le64_at(s, 112)
    &&& r.r15 == le64_at(s, 120)
    &&& r.rip == le64_at(s, 128)
    &&& r.rflags == le64_at(s, 136)
}

impl Regs {
    /// The all-zero register set.
    pub open spec fn spec_default() -> Regs {
        Regs {
            rax: 0,
            rbx: 0,
            rcx: 0,
            rdx: 0,
            rsi: 0,
            rdi: 0,
            rsp: 0,
            rbp: 0,
            r8: 0,
            r9: 0,
            r10: 0,
            r11: 0,
            r12: 0,
            r13: 0,
            r14: 0,
            r15: 0,
            rip: 0,
            rflags: 0,
        }
    }

    /// Decode a register set out of a transfer buffer.
    pub fn from_bytes(s: &[u8]) -> (r: Regs)
        requires
            s@.len() == REGS_BYTES,
        ensures
            regs_matches(r, s@),
    {
        Regs {
            rax: read_u64_at(s, 0),
            rbx: read_u64_at(s, 8),
            rcx: read_u64_at(s, 16),
            rdx: read_u64_at(s, 24),
            rsi: read_u64_at(s, 32),
            rdi: read_u64_at(s, 40),
            rsp: read_u64_at(s, 48),
            rbp: read_u64_at(s, 56),
            r8: read_u64_at(s, 64),
            r9: read_u64_at(s, 72),
            r10: read_u64_at(s, 80),
            r11: read_u64_at(s, 88),
            r12: read_u64_at(s, 96),
            r13: read_u64_at(s, 104),
            r14: read_u64_at(s, 112),
            r15: read_u64_at(s, 120),
            rip: read_u64_at(s, 128),
            rflags: read_u64_at(s, 136),
        }
    }

    /// Lay this register set out as a transfer buffer.
    pub fn to_bytes(&self) -> (r: Vec<u8>)
        ensures
            r@.len() == REGS_BYTES,
            regs_matches(*self, r@),
    {
        let mut v: Vec<u8> = Vec::new();
        push_u64_le(&mut v, self.rax);
        let ghost s1 = v@;
        push_u64_le(&mut v, self.rbx);
        proof { lemma_le_stable(s1, v@); }
        let ghost s2 = v@;
        push_u64_le(&mut v, self.rcx);
        proof { lemma_le_stable(s2, v@); }
        let ghost s3 = v@;
        push_u64_le(&mut v, self.rdx);
        proof { lemma_le_stable(s3, v@); }
        let ghost s4 = v@;
        push_u64_le(&mut v, self.rsi);
        proof { lemma_le_stable(s4, v@); }
        let ghost s5 = v@;
        push_u64_le(&mut v, self.rdi);
        proof { lemma_le_stable(s5, v@); }
        let ghost s6 = v@;
        push_u64_le(&mut v, self.rsp);
        proof { lemma_le_stable(s6, v@); }
        let ghost s7 = v@;
        push_u64_le(&mut v, self.rbp);
        proof { lemma_le_stable(s7, v@); }
        let ghost s8 = v@;
        push_u64_le(&mut v, self.r8);
        proof { lemma_le_stable(s8, v@); }
        let ghost s9 = v@;
        push_u64_le(&mut v, self.r9);
        proof { lemma_le_stable(s9, v@); }
        let ghost s10 = v@;
        push_u64_le(&mut v, self.r10);
        proof { lemma_le_stable(s10, v@); }
        let ghost s11 = v@;
        push_u64_le(&mut v, self.r11);
        proof { lemma_le_stable(s11, v@); }
        let ghost s12 = v@;
        push_u64_le(&mut v, self.r12);
        proof { lemma_le_stable(s12, v@); }
        let ghost s13 = v@;
        push_u64_le(&mut v, self.r13);
        proof { lemma_le_stable(s13, v@); }
        let ghost s14 = v@;
        push_u64_le(&mut v, self.r14);
        proof { lemma_le_stable(s14, v@); }
        let ghost s15 = v@;
        push_u64_le(&mut v, self.r15);
        proof { lemma_le_stable(s15, v@); }
        let ghost s16 = v@;
        push_u64_le(&mut v, self.rip);
        proof { lemma_le_stable(s16, v@); }
        let ghost s17 = v@;
        push_u64_le(&mut v, self.rflags);
        proof { lemma_le_stable(s17, v@); }
        v
    }
}

impl Default for Regs {
    /// The all-zero register set.
    fn default() -> (r: Regs)
        ensures
            r == Regs::spec_default(),
    {
        Regs {
            rax: 0,
            rbx: 0,
            rcx: 0,
            rdx: 0,
            rsi: 0,
            rdi: 0,
            rsp: 0,
            rbp: 0,
            r8: 0,
            r9: 0,
            r10: 0,
            r11: 0,
            r12: 0,
            r13: 0,
            r14: 0,
            r15: 0,
            rip: 0,
            rflags: 0,
        }
    }
}

/// One transfer buffer lays out at most one register set: a buffer written
/// from a register set and then read back yields exactly that set.
pub proof fn lemma_regs_round_trip(a: Regs, b: Regs, s: Seq<u8>)
    requires
        regs_matches(a, s),
        regs_matches(b, s),
    ensures
        a == b,
{
}

/// A segment register descriptor.
#[derive(Clone, Copy, Debug, PartialEq, Eq)]
pub struct Segment {
    pub base: u64,
    pub limit: u32,
    pub selector: u16,
    pub _type: u8,
    pub present: u8,
    pub dpl: u8,
    pub db: u8,
    pub s: u8,
    pub l: u8,
    pub g: u8,
    pub avl: u8,
    pub unusable: u8,
    pub padding: u8,
}

/// `g` is the segment descriptor laid out at byte offset `base` of `s`.
pub open spec fn segment_matches_at(g: Segment, s: Seq<u8>, base: int) -> bool {
    &&& g.base == le64_at(s, base)
    &&& g.limit == le32_at(s, base + 8)
    &&& g.selector == le16_at(s, base + 12)
    &&& g._type == s[base + 14]
    &&& g.present == s[base + 15]
    &&& g.dpl == s[base + 16]
    &&& g.db == s[base + 17]
    &&& g.s == s[base + 18]
    &&& g.l == s[base + 19]
    &&& g.g == s[base + 20]
    &&& g.avl == s[base + 21]
    &&& g.unusable == s[base + 22]
    &&& g.padding == s[base + 23]
}

/// Decode the segment descriptor at offset `base`.
pub fn read_segment_at(s: &[u8], base: usize) -> (r: Segment)
    requires
        base + SEGMENT_BYTES <= s@.len(),
    ensures
        segment_matches_at(r, s@, base as int),
{
    let n: usize = s.len();
    Segment {
        base: read_u64_at(s, base),
        limit: read_u32_at(s, base + 8),
        selector: read_u16_at(s, base + 12),
        _type: read_u8_at(s, base + 14),
        present: read_u8_at(s, base + 15),
        dpl: read_u8_at(s, base + 16),
        db: read_u8_at(s, base + 17),
        s: read_u8_at(s, base + 18),
        l: read_u8_at(s, base + 19),
        g: read_u8_at(s, base + 20),
        avl: read_u8_at(s, base + 21),
        unusable: read_u8_at(s, base + 22),
        padding: read_u8_at(s, base + 23),
    }
}

/// Append the 24-byte layout of a segment descriptor.
pub fn push_segment(v: &mut Vec<u8>, g: &Segment)
    ensures
        final(v)@.len() == old(v)@.len() + SEGMENT_BYTES,
        final(v)@.subrange(0, old(v)@.len() as int) == old(v)@,
        segment_matches_at(*g, final(v)@, old(v)@.len() as int),
{
    push_u64_le(v, g.base);
    let ghost s1 = v@;
    push_u32_le(v, g.limit);
    proof { lemma_le_stable(s1, v@); }
    let ghost s2 = v@;
    push_u16_le(v, g.selector);
    proof { lemma_le_stable(s2, v@); }
    let ghost s3 = v@;
    push_u8(v, g._type);
    proof { lemma_le_stable(s3, v@); }
    let ghost s4 = v@;
    push_u8(v, g.present);
    proof { lemma_le_stable(s4, v@); }
    let ghost s5 = v@;
    push_u8(v, g.dpl);
    proof { lemma_le_stable(s5, v@); }
    let ghost s6 = v@;
    push_u8(v, g.db);
    proof { lemma_le_stable(s6, v@); }
    let ghost s7 = v@;
    push_u8(v, g.s);
    proof { lemma_le_stable(s7, v@); }
    let ghost s8 = v@;
    push_u8(v, g.l);
    proof { lemma_le_stable(s8, v@); }
    let ghost s9 = v@;
    push_u8(v, g.g);
    proof { lemma_le_stable(s9, v@); }
    let ghost s10 = v@;
    push_u8(v, g.avl);
    proof { lemma_le_stable(s10, v@); }
    let ghost s11 = v@;
    push_u8(v, g.unusable);
    proof { lemma_le_stable(s11, v@); }
    let ghost s12 = v@;
    push_u8(v, g.padding);
    proof { lemma_le_stable(s12, v@); }
}

impl Segment {
    /// The all-zero segment descriptor.
    pub open spec fn spec_default() -> Segment {
        Segment {
            base: 0,
            limit: 0,
            selector: 0,
            _type: 0,
            present: 0,
            dpl: 0,
            db: 0,
            s: 0,
            l: 0,
            g: 0,
            avl: 0,
            unusable: 0,
            padding: 0,
        }
    }
}

impl Default for Segment {
    /// The all-zero segment descriptor.
    fn default() -> (r: Segment)
        ensures
            r == Segment::spec_default(),
    {
        Segment {
            base: 0,
            limit: 0,
            selector: 0,
            _type: 0,
            present: 0,
            dpl: 0,
            db: 0,
            s: 0,
            l: 0,
            g: 0,
            avl: 0,
            unusable: 0,
            padding: 0,
        }
    }
}

/// A descriptor-table record.
#[derive(Clone, Copy, Debug, PartialEq, Eq)]
pub struct Dtable {
    pub base: u64,
    pub limit: u16,
    pub padding: [u16; 3],
}

/// `d` is the descriptor-table record laid out at byte offset `base` of `s`.
pub open spec fn dtable_matches_at(d: Dtable, s: Seq<u8>, base: int) -> bool {
    &&& d.base == le64_at(s, base)
    &&& d.limit == le16_at(s, base + 8)
    &&& d.padding@ == seq![le16_at(s, base + 10), le16_at(s, base + 12), le16_at(s, base + 14)]
}

/// Decode the descriptor-table record at offset `base`.
pub fn read_dtable_at(s: &[u8], base: usize) -> (r: Dtable)
    requires
        base + DTABLE_BYTES <= s@.len(),
    ensures
        dtable_matches_at(r, s@, base as int),
{
    let n: usize = s.len();
    let padding: [u16; 3] = [
        read_u16_at(s, base + 10),
        read_u16_at(s, base + 12),
        read_u16_at(s, base + 14),
    ];
    let r = Dtable { base: read_u64_at(s, base), limit: read_u16_at(s, base + 8), padding };
    proof {
        assert(r.padding@ =~= seq![
            le16_at(s@, base + 10),
            le16_at(s@, base + 12),
            le16_at(s@, base + 14),
        ]);
    }
    r
}

/// Append the 16-byte layout of a descriptor-table record.
pub fn push_dtable(v: &mut Vec<u8>, d: &Dtable)
    ensures
        final(v)@.len() == old(v)@.len() + DTABLE_BYTES,
        final(v)@.subrange(0, old(v)@.len() as int) == old(v)@,
        dtable_matches_at(*d, final(v)@, old(v)@.len() as int),
{
    push_u64_le(v, d.base);
    let ghost s1 = v@;
    push_u16_le(v, d.limit);
    proof { lemma_le_stable(s1, v@); }
    let ghost s2 = v@;
    push_u16_le(v, d.padding[0]);
    proof { lemma_le_stable(s2, v@); }
    let ghost s3 = v@;
    push_u16_le(v, d.padding[1]);
    proof { lemma_le_stable(s3, v@); }
    let ghost s4 = v@;
    push_u16_le(v, d.padding[2]);
    proof {
        lemma_le_stable(s4, v@);
        assert(d.padding@ =~= seq![
            le16_at(v@, old(v)@.len() + 10int),
            le16_at(v@, old(v)@.len() + 12int),
            le16_at(v@, old(v)@.len() + 14int),
        ]);
    }
}

impl Default for Dtable {
    /// The all-zero descriptor-table record.
    fn default() -> (r: Dtable)
        ensures
            r.base == 0u64,
            r.limit == 0u16,
            r.padding@ == seq![0u16, 0u16, 0u16],
    {
        let r = Dtable { base: 0, limit: 0, padding: [0, 0, 0] };
        proof {
            assert(r.padding@ =~= seq![0u16, 0u16, 0u16]);
        }
        r
    }
}

/// Special-register state: segments, descriptor tables, control registers,
/// and the pending-interrupt bitmap.
#[derive(Clone, Copy, Debug, PartialEq, Eq)]
pub struct Sregs {
    pub cs: Segment,
    pub ds: Segment,
    pub es: Segment,
    pub fs: Segment,
    pub gs: Segment,
    pub ss: Segment,
    pub tr: Segment,
    pub ldt: Segment,
    pub gdt: Dtable,
    pub idt: Dtable,
    pub cr0: u64,
    pub cr2: u64,
    pub cr3: u64,
    pub cr4: u64,
    pub cr8: u64,
    pub efer: u64,
    pub apic_base: u64,
    pub interrupt_bitmap: [u64; 4],
}

/// `r` is the special-register state laid out in the 312-byte buffer `s`.
pub open spec fn sregs_matches(r: Sregs, s: Seq<u8>) -> bool {
    &&& segment_matches_at(r.cs, s, 0)
    &&& segment_matches_at(r.ds, s, 24)
    &&& segment_matches_at(r.es, s, 48)
    &&& segment_matches_at(r.fs, s, 72)
    &&& segment_matches_at(r.gs, s, 96)
    &&& segment_matches_at(r.ss, s, 120)
    &&& segment_matches_at(r.tr, s, 144)
    &&& segment_matches_at(r.ldt, s, 168)
    &&& dtable_matches_at(r.gdt, s, 192)
    &&& dtable_matches_at(r.idt, s, 208)
    &&& r.cr0 == le64_at(s, 224)
    &&& r.cr2 == le64_at(s, 232)
    &&& r.cr3 == le64_at(s, 240)
    &&& r.cr4 == le64_at(s, 248)
    &&& r.cr8 == le64_at(s, 256)
    &&& r.efer == le64_at(s, 264)
    &&& r.apic_base == le64_at(s, 272)
    &&& r.interrupt_bitmap@ == seq![
        le64_at(s, 280),
        le64_at(s, 288),
        le64_at(s, 296),
        le64_at(s, 304),
    ]
}

impl Sregs {
    /// Decode a special-register state out of a transfer buffer.
    pub fn from_bytes(s: &[u8]) -> (r: Sregs)
        requires
            s@.len() == SREGS_BYTES,
        ensures
            sregs_matches(r, s@),
    {
        let interrupt_bitmap: [u64; 4] = [
            read_u64_at(s, 280),
            read_u64_at(s, 288),
            read_u64_at(s, 296),
            read_u64_at(s, 304),
        ];
        let r = Sregs {
            cs: read_segment_at(s, 0),
            ds: read_segment_at(s, 24),
            es: read_segment_at(s, 48),
            fs: read_segment_at(s, 72),
            gs: read_segment_at(s, 96),
            ss: read_segment_at(s, 120),
            tr: read_segment_at(s, 144),
            ldt: read_segment_at(s, 168),
            gdt: read_dtable_at(s, 192),
            idt: read_dtable_at(s, 208),
            cr0: read_u64_at(s, 224),
            cr2: read_u64_at(s, 232),
            cr3: read_u64_at(s, 240),
            cr4: read_u64_at(s, 248),
            cr8: read_u64_at(s, 256),
            efer: read_u64_at(s, 264),
            apic_base: read_u64_at(s, 272),
            interrupt_bitmap,
        };
        proof {
            assert(r.interrupt_bitmap@ =~= seq![
                le64_at(s@, 280),
                le64_at(s@, 288),
                le64_at(s@, 296),
                le64_at(s@, 304),
            ]);
        }
        r
    }

    /// Lay this special-register state out as a transfer buffer.
    pub fn to_bytes(&self) -> (r: Vec<u8>)
        ensures
            r@.len() == SREGS_BYTES,
            sregs_matches(*self, r@),
    {
        let mut v: Vec<u8> = Vec::new();
        push_segment(&mut v, &self.cs);
        let ghost s1 = v@;
        push_segment(&mut v, &self.ds);
        proof { lemma_le_stable(s1, v@); }
        let ghost s2 = v@;
        push_segment(&mut v, &self.es);
        proof { lemma_le_stable(s2, v@); }
        let ghost s3 = v@;
        push_segment(&mut v, &self.fs);
        proof { lemma_le_stable(s3, v@); }
        let ghost s4 = v@;
        push_segment(&mut v, &self.gs);
        proof { lemma_le_stable(s4, v@); }
        let ghost s5 = v@;
        push_segment(&mut v, &self.ss);
        proof { lemma_le_stable(s5, v@); }
        let ghost s6 = v@;
        push_segment(&mut v, &self.tr);
        proof { lemma_le_stable(s6, v@); }
        let ghost s7 = v@;
        push_segment(&mut v, &self.ldt);
        proof { lemma_le_stable(s7, v@); }
        let ghost s8 = v@;
        push_dtable(&mut v, &self.gdt);
        proof { lemma_le_stable(s8, v@); }
        let ghost s9 = v@;
        push_dtable(&mut v, &self.idt);
        proof { lemma_le_stable(s9, v@); }
        let ghost s10 = v@;
        push_u64_le(&mut v, self.cr0);
        proof { lemma_le_stable(s10, v@); }
        let ghost s11 = v@;
        push_u64_le(&mut v, self.cr2);
        proof { lemma_le_stable(s11, v@); }
        let ghost s12 = v@;
        push_u64_le(&mut v, self.cr3);
        proof { lemma_le_stable(s12, v@); }
        let ghost s13 = v@;
        push_u64_le(&mut v, self.cr4);
        proof { lemma_le_stable(s13, v@); }
        let ghost s14 = v@;
        push_u64_le(&mut v, self.cr8);
        proof { lemma_le_stable(s14, v@); }
        let ghost s15 = v@;
        push_u64_le(&mut v, self.efer);
        proof { lemma_le_stable(s15, v@); }
        let ghost s16 = v@;
        push_u64_le(&mut v, self.apic_base);
        proof { lemma_le_stable(s16, v@); }
        let ghost s17 = v@;
        push_u64_le(&mut v, self.interrupt_bitmap[0]);
        proof { lemma_le_stable(s17, v@); }
        let ghost s18 = v@;
        push_u64_le(&mut v, self.interrupt_bitmap[1]);
        proof { lemma_le_stable(s18, v@); }
        let ghost s19 = v@;
        push_u64_le(&mut v, self.interrupt_bitmap[2]);
        proof { lemma_le_stable(s19, v@); }
        let ghost s20 = v@;
        push_u64_le(&mut v, self.interrupt_bitmap[3]);
        proof {
            lemma_le_stable(s20, v@);
            assert(self.interrupt_bitmap@ =~= seq![
                le64_at(v@, 280),
                le64_at(v@, 288),
                le64_at(v@, 296),
                le64_at(v@, 304),
            ]);
        }
        v
    }
}

impl Default for Sregs {
    /// The all-zero special-register state.
    fn default() -> (r: Sregs)
        ensures
            r.cs == Segment::spec_default(),
            r.ds == Segment::spec_default(),
            r.es == Segment::spec_default(),
            r.fs == Segment::spec_default(),
            r.gs == Segment::spec_default(),
            r.ss == Segment::spec_default(),
            r.tr == Segment::spec_default(),
            r.ldt == Segment::spec_default(),
            r.gdt.base == 0u64 && r.gdt.limit == 0u16,
            r.idt.base == 0u64 && r.idt.limit == 0u16,
            r.cr0 == 0u64,
            r.cr2 == 0u64,
            r.cr3 == 0u64,
            r.cr4 == 0u64,
            r.cr8 == 0u64,
            r.efer == 0u64,
            r.apic_base == 0u64,
            r.interrupt_bitmap@ == seq![0u64, 0u64, 0u64, 0u64],
    {
        let r = Sregs {
            cs: Segment::default(),
            ds: Segment::default(),
            es: Segment::default(),
            fs: Segment::default(),
            gs: Segment::default(),
            ss: Segment::default(),
            tr: Segment::default(),
            ldt: Segment::default(),
            gdt: Dtable::default(),
            idt: Dtable::default(),
            cr0: 0,
            cr2: 0,
            cr3: 0,
            cr4: 0,
            cr8: 0,
            efer: 0,
            apic_base: 0,
            interrupt_bitmap: [0, 0, 0, 0],
        };
        proof {
            assert(r.interrupt_bitmap@ =~= seq![0u64, 0u64, 0u64, 0u64]);
        }
        r
    }
}

/// One transfer buffer lays out at most one special-register state: a buffer
/// written from a special-register state and then read back yields exactly
/// that state.
pub proof fn lemma_sregs_round_trip(a: Sregs, b: Sregs, s: Seq<u8>)
    requires
        sregs_matches(a, s),
        sregs_matches(b, s),
    ensures
        a == b,
{
    assert(a.gdt.padding =~= b.gdt.padding);
    assert(a.idt.padding =~= b.idt.padding);
    assert(a.interrupt_bitmap =~= b.interrupt_bitmap);
}


/// Programmable-interrupt-controller state (data declaration only).
#[derive(Clone, Copy, Debug, PartialEq, Eq, Default)]
pub struct PicState {
    pub last_irr: u8,
    pub irr: u8,
    pub imr: u8,
    pub isr: u8,
    pub priority_add: u8,
    pub irq_base: u8,
    pub read_reg_select: u8,
    pub poll: u8,
    pub special_mask: u8,
    pub init_state: u8,
    pub auto_eoi: u8,
    pub rotate_on_auto_eoi: u8,
    pub special_fully_nested_mode: u8,
    pub init4: u8,
    pub elcr: u8,
    pub elcr_mask: u8,
}

/// One I/O interrupt-controller redirection entry (data declaration only).
#[derive(Clone, Copy, Debug, PartialEq, Eq, Default)]
pub struct Union_Unnamed3 {
    pub bits: u64,
}

/// The unpacked fields of a redirection entry (data declaration only).
#[derive(Clone, Copy, Debug, PartialEq, Eq, Default)]
pub struct Struct_Unnamed4 {
    pub vector: u8,
    pub control: [u8; 8],
    pub reserved: [u8; 4],
    pub dest_id: u8,
}

/// I/O interrupt-controller state (data declaration only).
#[derive(Clone, Copy, Debug, PartialEq, Eq)]
pub struct IoapicState {
    pub base_address: u64,
    pub ioregsel: u32,
    pub id: u32,
    pub irr: u32,
    pub pad: u32,
    pub redirtbl: [Union_Unnamed3; 24],
}

/// Local interrupt-controller register page (data declaration only).
#[derive(Clone, Copy, Debug, PartialEq, Eq)]
pub struct LapicState {
    pub regs: [i8; 1024],
}

/// Floating-point unit state (data declaration only).
#[derive(Clone, Copy, Debug, PartialEq, Eq)]
pub struct Fpu {
    pub fpr: [[u8; 16]; 8],
    pub fcw: u16,
    pub fsw: u16,
    pub ftwx: u8,
    pub pad1: u8,
    pub last_opcode: u16,
    pub last_ip: u64,
    pub last_dp: u64,
    pub xmm: [[u8; 16]; 16],
    pub mxcsr: u32,
    pub pad2: u32,
}

/// One model-specific-register entry (data declaration only).
#[derive(Clone, Copy, Debug, PartialEq, Eq, Default)]
pub struct MsrEntry {
    pub index: u32,
    pub reserved: u32,
    pub data: u64,
}

/// A counted table of model-specific-register entries (data declaration only).
#[derive(Clone, Debug, PartialEq, Eq, Default)]
pub struct Msrs {
    pub nmsrs: u32,
    pub pad: u32,
    pub entries: Vec<MsrEntry>,
}

/// A counted list of model-specific-register indices (data declaration only).
#[derive(Clone, Debug, PartialEq, Eq, Default)]
pub struct MsrList {
    pub nmsrs: u32,
    pub indices: Vec<u32>,
}

/// One feature-identification entry of the older fixed form (data
/// declaration only).
#[derive(Clone, Copy, Debug, PartialEq, Eq, Default)]
pub struct CpuidEntry {
    pub function: u32,
    pub eax: u32,
    pub ebx: u32,
    pub ecx: u32,
    pub edx: u32,
    pub padding: u32,
}

/// A counted table of feature-identification entries of the older fixed
/// form (data declaration only).
#[derive(Clone, Debug, PartialEq, Eq, Default)]
pub struct Cpuid {
    pub nent: u32,
    pub padding: u32,
    pub entries: Vec<CpuidEntry>,
}

/// One channel of the programmable interval timer (data declaration only).
#[derive(Clone, Copy, Debug, PartialEq, Eq, Default)]
pub struct PitChannelState {
    pub count: u32,
    pub latched_count: u16,
    pub count_latched: u8,
    pub status_latched: u8,
    pub status: u8,
    pub read_state: u8,
    pub write_state: u8,
    pub write_latch: u8,
    pub rw_mode: u8,
    pub mode: u8,
    pub bcd: u8,
    pub gate: u8,
    pub count_load_time: i64,
}

/// Architecture-specific debug-trap details carried by a debug exit.
#[derive(Clone, Copy, Debug, PartialEq, Eq, Default)]
pub struct DebugExitArch {
    pub exception: u32,
    pub pad: u32,
    pub pc: u64,
    pub dr6: u64,
    pub dr7: u64,
}

/// Guest debug-register snapshot (data declaration only).
#[derive(Clone, Copy, Debug, PartialEq, Eq)]
pub struct GuestDebugArch {
    pub debugreg: [u64; 8],
}

/// Programmable-interval-timer state (data declaration only).
#[derive(Clone, Copy, Debug, PartialEq, Eq)]
pub struct PitState {
    pub channels: [PitChannelState; 3],
}

/// Programmable-interval-timer state with flags (data declaration only).
#[derive(Clone, Copy, Debug, PartialEq, Eq)]
pub struct PitState2 {
    pub channels: [PitChannelState; 3],
    pub flags: u32,
    pub reserved: [u32; 9],
}

/// Interrupt-reinjection control (data declaration only).
#[derive(Clone, Copy, Debug, PartialEq, Eq)]
pub struct ReinjectControl {
    pub pit_reinject: u8,
    pub reserved: [u8; 31],
}

/// Pending-exception state (data declaration only).
#[derive(Clone, Copy, Debug, PartialEq, Eq, Default)]
pub struct StructUnnamed5 {
    pub injected: u8,
    pub nr: u8,
    pub has_error_code: u8,
    pub pad: u8,
    pub error_code: u32,
}

/// Pending-interrupt state (data declaration only).
#[derive(Clone, Copy, Debug, PartialEq, Eq, Default)]
pub struct StructUnnamed6 {
    pub injected: u8,
    pub nr: u8,
    pub soft: u8,
    pub shadow: u8,
}

/// Pending non-maskable-interrupt state (data declaration only).
#[derive(Clone, Copy, Debug, PartialEq, Eq, Default)]
pub struct StructUnnamed7 {
    pub injected: u8,
    pub pending: u8,
    pub masked: u8,
    pub pad: u8,
}

/// Pending VCPU event state (data declaration only).
#[derive(Clone, Copy, Debug, PartialEq, Eq)]
pub struct VcpuEvents {
    pub exception: StructUnnamed5,
    pub interrupt: StructUnnamed6,
    pub nmi: StructUnnamed7,
    pub sipi_vector: u32,
    pub flags: u32,
    pub reserved: [u32; 10],
}

/// Debug-register state (data declaration only).
#[derive(Clone, Copy, Debug, PartialEq, Eq)]
pub struct Debugregs {
    pub db: [u64; 4],
    pub dr6: u64,
    pub dr7: u64,
    pub flags: u64,
    pub reserved: [u64; 9],
}

/// Extended-state save area (data declaration only).
#[derive(Clone, Copy, Debug, PartialEq, Eq)]
pub struct Xsave {
    pub region: [u32; 1024],
}

/// One extended control register (data declaration only).
#[derive(Clone, Copy, Debug, PartialEq, Eq, Default)]
pub struct Xcr {
    pub xcr: u32,
    pub reserved: u32,
    pub value: u64,
}

/// Extended-control-register state (data declaration only).
#[derive(Clone, Copy, Debug, PartialEq, Eq)]
pub struct Xcrs {
    pub nr_xcrs: u32,
    pub flags: u32,
    pub xcrs: [Xcr; 16],
    pub padding: [u64; 16],
}

/// The architecture's register-synchronization block; empty on x86-64.
#[derive(Clone, Copy, Debug, PartialEq, Eq, Default)]
pub struct SyncRegs {}

} // verus!
