//! The communication page and its decoding into a tagged exit event.
//!
//! After each successful run call the facility describes, in a per-VCPU
//! shared page, why control returned to the host: a fixed header holding a
//! discriminant, followed by a trailing region whose interpretation depends
//! on that discriminant alone. Decoding the page is the one reinterpretation
//! routine of the library: `Run::from_page_bytes` checks and decodes the
//! header and captures the trailing bytes; one accessor per discriminant
//! then yields the matching variant and refuses every other, so no caller
//! can read bytes under the wrong interpretation.

use vstd::prelude::*;
use vstd::slice::slice_subrange;
use vstd::slice::slice_to_vec;

use crate::bytes_le::le16_at;
use crate::bytes_le::le32_at;
use crate::bytes_le::le64_at;
use crate::bytes_le::read_u16_at;
use crate::bytes_le::read_u32_at;
use crate::bytes_le::read_u64_at;
use crate::bytes_le::read_u8_at;
use crate::x86_64::DebugExitArch;

verus! {

/// Size of the decoded communication-page structure: the 32-byte header,
/// the 256-byte exit union, the two dirty-register masks, and the 1024-byte
/// register-synchronization union.
pub const RUN_PAGE_BYTES: usize = 1328;

/// Size of the trailing exit union within the communication page.
pub const EXIT_PAYLOAD_BYTES: usize = 256;

/// Size of the register-synchronization union within the communication page.
pub const SYNC_UNION_BYTES: usize = 1024;

/// Why a run call returned control to the host.
#[derive(Clone, Copy, Debug, PartialEq, Eq, Hash)]
pub enum Exit {
    Unknown,
    Exception,
    Io,
    Hypercall,
    Debug,
    Hlt,
    Mmio,
    IrqWindowOpen,
    Shutdown,
    FailEntry,
    Intr,
    SetTpr,
    TprAccess,
    S390Sieic,
    S390Reset,
    Dcr,
    Nmi,
    InternalError,
    Osi,
    PaprHcall,
    S390Ucontrol,
    Watchdog,
    S390Tsch,
    Epr,
    SystemEvent,
}

impl Exit {
    /// The numeric discriminant under which the facility reports this exit.
    pub open spec fn spec_code(self) -> u32 {
        match self {
            Exit::Unknown => 0,
            Exit::Exception => 1,
            Exit::Io => 2,
            Exit::Hypercall => 3,
            Exit::Debug => 4,
            Exit::Hlt => 5,
            Exit::Mmio => 6,
            Exit::IrqWindowOpen => 7,
            Exit::Shutdown => 8,
            Exit::FailEntry => 9,
            Exit::Intr => 10,
            Exit::SetTpr => 11,
            Exit::TprAccess => 12,
            Exit::S390Sieic => 13,
            Exit::S390Reset => 14,
            Exit::Dcr => 15,
            Exit::Nmi => 16,
            Exit::InternalError => 17,
            Exit::Osi => 18,
            Exit::PaprHcall => 19,
            Exit::S390Ucontrol => 20,
            Exit::Watchdog => 21,
            Exit::S390Tsch => 22,
            Exit::Epr => 23,
            Exit::SystemEvent => 24,
        }
    }

    /// The exit reason a numeric discriminant stands for, if any.
    pub open spec fn spec_from_code(code: u32) -> Option<Exit> {
        if code == 0 {
            Some(Exit::Unknown)
        } else if code == 1 {
            Some(Exit::Exception)
        } else if code == 2 {
            Some(Exit::Io)
        } else if code == 3 {
            Some(Exit::Hypercall)
        } else if code == 4 {
            Some(Exit::Debug)
        } else if code == 5 {
            Some(Exit::Hlt)
        } else if code == 6 {
            Some(Exit::Mmio)
        } else if code == 7 {
            Some(Exit::IrqWindowOpen)
        } else if code == 8 {
            Some(Exit::Shutdown)
        } else if code == 9 {
            Some(Exit::FailEntry)
        } else if code == 10 {
            Some(Exit::Intr)
        } else if code == 11 {
            Some(Exit::SetTpr)
        } else if code == 12 {
            Some(Exit::TprAccess)
        } else if code == 13 {
            Some(Exit::S390Sieic)
        } else if code == 14 {
            Some(Exit::S390Reset)
        } else if code == 15 {
            Some(Exit::Dcr)
        } else if code == 16 {
            Some(Exit::Nmi)
        } else if code == 17 {
            Some(Exit::InternalError)
        } else if code == 18 {
            Some(Exit::Osi)
        } else if code == 19 {
            Some(Exit::PaprHcall)
        } else if code == 20 {
            Some(Exit::S390Ucontrol)
        } else if code == 21 {
            Some(Exit::Watchdog)
        } else if code == 22 {
            Some(Exit::S390Tsch)
        } else if code == 23 {
            Some(Exit::Epr)
        } else if code == 24 {
            Some(Exit::SystemEvent)
        } else {
            None
        }
    }

    /// The numeric discriminant of this exit reason; decoding it again gives
    /// back this reason.
    pub fn code(self) -> (r: u32)
        ensures
            r == self.spec_code(),
            Exit::spec_from_code(r) == Some(self),
    {
        match self {
            Exit::Unknown => 0,
            Exit::Exception => 1,
            Exit::Io => 2,
            Exit::Hypercall => 3,
            Exit::Debug => 4,
            Exit::Hlt => 5,
            Exit::Mmio => 6,
            Exit::IrqWindowOpen => 7,
            Exit::Shutdown => 8,
            Exit::FailEntry => 9,
            Exit::Intr => 10,
            Exit::SetTpr => 11,
            Exit::TprAccess => 12,
            Exit::S390Sieic => 13,
            Exit::S390Reset => 14,
            Exit::Dcr => 15,
            Exit::Nmi => 16,
            Exit::InternalError => 17,
            Exit::Osi => 18,
            Exit::PaprHcall => 19,
            Exit::S390Ucontrol => 20,
            Exit::Watchdog => 21,
            Exit::S390Tsch => 22,
            Exit::Epr => 23,
            Exit::SystemEvent => 24,
        }
    }

    /// Decode a numeric discriminant.
    pub fn from_code(code: u32) -> (r: Option<Exit>)
        ensures
            r == Exit::spec_from_code(code),
    {
        if code == 0 {
            Some(Exit::Unknown)
        } else if code == 1 {
            Some(Exit::Exception)
        } else if code == 2 {
            Some(Exit::Io)
        } else if code == 3 {
            Some(Exit::Hypercall)
        } else if code == 4 {
            Some(Exit::Debug)
        } else if code == 5 {
            Some(Exit::Hlt)
        } else if code == 6 {
            Some(Exit::Mmio)
        } else if code == 7 {
            Some(Exit::IrqWindowOpen)
        } else if code == 8 {
            Some(Exit::Shutdown)
        } else if code == 9 {
            Some(Exit::FailEntry)
        } else if code == 10 {
            Some(Exit::Intr)
        } else if code == 11 {
            Some(Exit::SetTpr)
        } else if code == 12 {
            Some(Exit::TprAccess)
        } else if code == 13 {
            Some(Exit::S390Sieic)
        } else if code == 14 {
            Some(Exit::S390Reset)
        } else if code == 15 {
            Some(Exit::Dcr)
        } else if code == 16 {
            Some(Exit::Nmi)
        } else if code == 17 {
            Some(Exit::InternalError)
        } else if code == 18 {
            Some(Exit::Osi)
        } else if code == 19 {
            Some(Exit::PaprHcall)
        } else if code == 20 {
            Some(Exit::S390Ucontrol)
        } else if code == 21 {
            Some(Exit::Watchdog)
        } else if code == 22 {
            Some(Exit::S390Tsch)
        } else if code == 23 {
            Some(Exit::Epr)
        } else if code == 24 {
            Some(Exit::SystemEvent)
        } else {
            None
        }
    }
}

/// Direction of a port-access exit.
#[derive(Clone, Copy, Debug, PartialEq, Eq, Hash)]
pub enum IoDirection {
    In,
    Out,
}

/// The direction a port-access direction byte stands for, if any.
pub open spec fn spec_io_direction(b: u8) -> Option<IoDirection> {
    if b == 0 {
        Some(IoDirection::In)
    } else if b == 1 {
        Some(IoDirection::Out)
    } else {
        None
    }
}

/// Payload of an `Exit::Unknown` exit: the raw hardware exit reason.
#[derive(Clone, Copy, Debug, PartialEq, Eq)]
pub struct Struct_Unnamed9 {
    pub hardware_exit_reason: u64,
}

/// `x` is the `Exit::Unknown` payload laid out at the start of `s`.
pub open spec fn hw_matches(x: Struct_Unnamed9, s: Seq<u8>) -> bool {
    x.hardware_exit_reason == le64_at(s, 0)
}

/// Payload of an `Exit::FailEntry` exit: the hardware entry-failure reason.
#[derive(Clone, Copy, Debug, PartialEq, Eq)]
pub struct Struct_Unnamed10 {
    pub hardware_entry_failure_reason: u64,
}

/// `x` is the `Exit::FailEntry` payload laid out at the start of `s`.
pub open spec fn fail_entry_matches(x: Struct_Unnamed10, s: Seq<u8>) -> bool {
    x.hardware_entry_failure_reason == le64_at(s, 0)
}

/// Payload of an `Exit::Exception` exit: vector and error code.
#[derive(Clone, Copy, Debug, PartialEq, Eq)]
pub struct Struct_Unnamed11 {
    pub exception: u32,
    pub error_code: u32,
}

/// `x` is the `Exit::Exception` payload laid out at the start of `s`.
pub open spec fn exception_matches(x: Struct_Unnamed11, s: Seq<u8>) -> bool {
    &&& x.exception == le32_at(s, 0)
    &&& x.error_code == le32_at(s, 4)
}

/// Payload of an `Exit::Io` exit: a guest port access awaiting emulation.
#[derive(Clone, Copy, Debug, PartialEq, Eq)]
pub struct ExitIo {
    pub direction: IoDirection,
    pub size: u8,
    pub port: u16,
    pub count: u32,
    pub data_offset: u64,
}

/// `x` is the `Exit::Io` payload laid out at the start of `s`.
pub open spec fn exit_io_matches(x: ExitIo, s: Seq<u8>) -> bool {
    &&& Some(x.direction) == spec_io_direction(s[0])
    &&& x.size == s[1]
    &&& x.port == le16_at(s, 2)
    &&& x.count == le32_at(s, 4)
    &&& x.data_offset == le64_at(s, 8)
}

/// Payload of an `Exit::Debug` exit: the architecture's debug-trap details.
#[derive(Clone, Copy, Debug, PartialEq, Eq)]
pub struct Struct_Unnamed13 {
    pub arch: DebugExitArch,
}

/// `x` is the `Exit::Debug` payload laid out at the start of `s`.
pub open spec fn debug_matches(x: Struct_Unnamed13, s: Seq<u8>) -> bool {
    &&& x.arch.exception == le32_at(s, 0)
    &&& x.arch.pad == le32_at(s, 4)
    &&& x.arch.pc == le64_at(s, 8)
    &&& x.arch.dr6 == le64_at(s, 16)
    &&& x.arch.dr7 == le64_at(s, 24)
}

/// Payload of an `Exit::Mmio` exit: a guest physical-memory access.
#[derive(Clone, Debug, PartialEq, Eq)]
pub struct Struct_Unnamed14 {
    pub phys_addr: u64,
    pub data: Vec<u8>,
    pub len: u32,
    pub is_write: u8,
}

/// `x` is the `Exit::Mmio` payload laid out at the start of `s`.
pub open spec fn mmio_matches(x: Struct_Unnamed14, s: Seq<u8>) -> bool {
    &&& x.phys_addr == le64_at(s, 0)
    &&& x.data@ == s.subrange(8, 16)
    &&& x.len == le32_at(s, 16)
    &&& x.is_write == s[20]
}

/// Payload of an `Exit::Hypercall` exit.
#[derive(Clone, Debug, PartialEq, Eq)]
pub struct Struct_Unnamed15 {
    pub nr: u64,
    pub args: Vec<u64>,
    pub ret: u64,
    pub longmode: u32,
    pub pad: u32,
}

/// `x` is the `Exit::Hypercall` payload laid out at the start of `s`.
pub open spec fn hypercall_matches(x: Struct_Unnamed15, s: Seq<u8>) -> bool {
    &&& x.nr == le64_at(s, 0)
    &&& x.args@.len() == 6
    &&& forall|j: int| 0 <= j < 6 ==> x.args@[j] == le64_at(s, 8 + 8 * j)
    &&& x.ret == le64_at(s, 56)
    &&& x.longmode == le32_at(s, 64)
    &&& x.pad == le32_at(s, 68)
}

/// Payload of an `Exit::TprAccess` exit.
#[derive(Clone, Copy, Debug, PartialEq, Eq)]
pub struct Struct_Unnamed16 {
    pub rip: u64,
    pub is_write: u32,
    pub pad: u32,
}

/// `x` is the `Exit::TprAccess` payload laid out at the start of `s`.
pub open spec fn tpr_access_matches(x: Struct_Unnamed16, s: Seq<u8>) -> bool {
    &&& x.rip == le64_at(s, 0)
    &&& x.is_write == le32_at(s, 8)
    &&& x.pad == le32_at(s, 12)
}

/// Payload of an `Exit::S390Sieic` exit.
#[derive(Clone, Copy, Debug, PartialEq, Eq)]
pub struct Struct_Unnamed17 {
    pub icptcode: u8,
    pub ipa: u16,
    pub ipb: u32,
}

/// `x` is the `Exit::S390Sieic` payload laid out at the start of `s`.
pub open spec fn s390_sieic_matches(x: Struct_Unnamed17, s: Seq<u8>) -> bool {
    &&& x.icptcode == s[0]
    &&& x.ipa == le16_at(s, 2)
    &&& x.ipb == le32_at(s, 4)
}

/// Payload of an `Exit::S390Ucontrol` exit.
#[derive(Clone, Copy, Debug, PartialEq, Eq)]
pub struct Struct_Unnamed18 {
    pub trans_exc_code: u64,
    pub pgm_code: u32,
}

/// `x` is the `Exit::S390Ucontrol` payload laid out at the start of `s`.
pub open spec fn s390_ucontrol_matches(x: Struct_Unnamed18, s: Seq<u8>) -> bool {
    &&& x.trans_exc_code == le64_at(s, 0)
    &&& x.pgm_code == le32_at(s, 8)
}

/// Payload of an `Exit::Dcr` exit.
#[derive(Clone, Copy, Debug, PartialEq, Eq)]
pub struct Struct_Unnamed19 {
    pub dcrn: u32,
    pub data: u32,
    pub is_write: u8,
}

/// `x` is the `Exit::Dcr` payload laid out at the start of `s`.
pub open spec fn dcr_matches(x: Struct_Unnamed19, s: Seq<u8>) -> bool {
    &&& x.dcrn == le32_at(s, 0)
    &&& x.data == le32_at(s, 4)
    &&& x.is_write == s[8]
}

/// Payload of an `Exit::InternalError` exit.
#[derive(Clone, Debug, PartialEq, Eq)]
pub struct Struct_Unnamed20 {
    pub suberror: u32,
    pub ndata: u32,
    pub data: Vec<u64>,
}

/// `x` is the `Exit::InternalError` payload laid out at the start of `s`.
pub open spec fn internal_matches(x: Struct_Unnamed20, s: Seq<u8>) -> bool {
    &&& x.suberror == le32_at(s, 0)
    &&& x.ndata == le32_at(s, 4)
    &&& x.data@.len() == 16
    &&& forall|j: int| 0 <= j < 16 ==> x.data@[j] == le64_at(s, 8 + 8 * j)
}

/// Payload of an `Exit::Osi` exit.
#[derive(Clone, Debug, PartialEq, Eq)]
pub struct Struct_Unnamed21 {
    pub gprs: Vec<u64>,
}

/// `x` is the `Exit::Osi` payload laid out at the start of `s`.
pub open spec fn osi_matches(x: Struct_Unnamed21, s: Seq<u8>) -> bool {
    &&& x.gprs@.len() == 32
    &&& forall|j: int| 0 <= j < 32 ==> x.gprs@[j] == le64_at(s, 8 * j)
}

/// Payload of an `Exit::PaprHcall` exit.
#[derive(Clone, Debug, PartialEq, Eq)]
pub struct Struct_Unnamed22 {
    pub nr: u64,
    pub ret: u64,
    pub args: Vec<u64>,
}

/// `x` is the `Exit::PaprHcall` payload laid out at the start of `s`.
pub open spec fn papr_hcall_matches(x: Struct_Unnamed22, s: Seq<u8>) -> bool {
    &&& x.nr == le64_at(s, 0)
    &&& x.ret == le64_at(s, 8)
    &&& x.args@.len() == 9
    &&& forall|j: int| 0 <= j < 9 ==> x.args@[j] == le64_at(s, 16 + 8 * j)
}

/// Payload of an `Exit::S390Tsch` exit.
#[derive(Clone, Copy, Debug, PartialEq, Eq)]
pub struct Struct_Unnamed23 {
    pub subchannel_id: u16,
    pub subchannel_nr: u16,
    pub io_int_parm: u32,
    pub io_int_word: u32,
    pub ipb: u32,
    pub dequeued: u8,
}

/// `x` is the `Exit::S390Tsch` payload laid out at the start of `s`.
pub open spec fn s390_tsch_matches(x: Struct_Unnamed23, s: Seq<u8>) -> bool {
    &&& x.subchannel_id == le16_at(s, 0)
    &&& x.subchannel_nr == le16_at(s, 2)
    &&& x.io_int_parm == le32_at(s, 4)
    &&& x.io_int_word == le32_at(s, 8)
    &&& x.ipb == le32_at(s, 12)
    &&& x.dequeued == s[16]
}

/// Payload of an `Exit::Epr` exit.
#[derive(Clone, Copy, Debug, PartialEq, Eq)]
pub struct Struct_Unnamed24 {
    pub epr: u32,
}

/// `x` is the `Exit::Epr` payload laid out at the start of `s`.
pub open spec fn epr_matches(x: Struct_Unnamed24, s: Seq<u8>) -> bool {
    x.epr == le32_at(s, 0)
}

/// Payload of an `Exit::SystemEvent` exit.
#[derive(Clone, Copy, Debug, PartialEq, Eq)]
pub struct Struct_Unnamed25 {
    pub _type: u32,
    pub flags: u64,
}

/// `x` is the `Exit::SystemEvent` payload laid out at the start of `s`.
pub open spec fn system_event_matches(x: Struct_Unnamed25, s: Seq<u8>) -> bool {
    &&& x._type == le32_at(s, 0)
    &&& x.flags == le64_at(s, 8)
}

/// The register-synchronization union of the communication page, kept as
/// raw bytes; on x86-64 no synchronized register block is defined in it.
#[derive(Clone, Debug, PartialEq, Eq)]
pub struct Union_Unnamed26 {
    pub bytes: Vec<u8>,
}

impl Union_Unnamed26 {
    /// The raw bytes of the register-synchronization union.
    pub open spec fn spec_bytes(&self) -> Seq<u8> {
        self.bytes@
    }
}

/// Why a run call returned, decoded from the communication page: the fixed
/// header, the raw exit-union bytes to be read only through the accessor of
/// the reported exit reason, and the register-synchronization bytes.
#[derive(Clone, Debug, PartialEq, Eq)]
pub struct Run {
    pub request_interrupt_window: u8,
    pub exit_reason: Exit,
    pub ready_for_interrupt_injection: u8,
    pub if_flag: u8,
    pub flags: u16,
    pub cr8: u64,
    pub apic_base: u64,
    pub exit_bytes: Vec<u8>,
    pub kvm_valid_regs: u64,
    pub kvm_dirty_regs: u64,
    pub s: Union_Unnamed26,
}

/// `run` is the decoding of the communication page `page`.
pub open spec fn run_matches(run: Run, page: Seq<u8>) -> bool {
    &&& run.request_interrupt_window == page[0]
    &&& Some(run.exit_reason) == Exit::spec_from_code(le32_at(page, 8))
    &&& run.ready_for_interrupt_injection == page[12]
    &&& run.if_flag == page[13]
    &&& run.flags == le16_at(page, 14)
    &&& run.cr8 == le64_at(page, 16)
    &&& run.apic_base == le64_at(page, 24)
    &&& run.spec_payload() == page.subrange(32, 288)
    &&& run.kvm_valid_regs == le64_at(page, 288)
    &&& run.kvm_dirty_regs == le64_at(page, 296)
    &&& run.s.spec_bytes() == page.subrange(304, 1328)
}

impl Run {
    /// The raw bytes of the trailing exit union.
    pub open spec fn spec_payload(&self) -> Seq<u8> {
        self.exit_bytes@
    }

    /// The decoded page holds the full exit union and synchronization union.
    pub open spec fn wf(&self) -> bool {
        &&& self.spec_payload().len() == EXIT_PAYLOAD_BYTES
        &&& self.s.spec_bytes().len() == SYNC_UNION_BYTES
    }

    /// Decode a communication page. Fails exactly when the page's
    /// discriminant is not a known exit reason; otherwise the result decodes
    /// the header and carries the trailing unions for the accessors.
    pub fn from_page_bytes(page: &[u8]) -> (r: Option<Run>)
        requires
            page@.len() >= RUN_PAGE_BYTES,
        ensures
            r is Some <==> Exit::spec_from_code(le32_at(page@, 8)) is Some,
            r is Some ==> r->0.wf() && run_matches(r->0, page@),
    {
        let n: usize = page.len();
        let code = read_u32_at(page, 8);
        match Exit::from_code(code) {
            None => None,
            Some(exit_reason) => {
                let payload = slice_to_vec(slice_subrange(page, 32, 288));
                let sync = slice_to_vec(slice_subrange(page, 304, 1328));
                Some(
                    Run {
                        request_interrupt_window: read_u8_at(page, 0),
                        exit_reason,
                        ready_for_interrupt_injection: read_u8_at(page, 12),
                        if_flag: read_u8_at(page, 13),
                        flags: read_u16_at(page, 14),
                        cr8: read_u64_at(page, 16),
                        apic_base: read_u64_at(page, 24),
                        exit_bytes: payload,
                        kvm_valid_regs: read_u64_at(page, 288),
                        kvm_dirty_regs: read_u64_at(page, 296),
                        s: Union_Unnamed26 { bytes: sync },
                    },
                )
            },
        }
    }

    /// The port-access payload, exactly when this exit is a port access
    /// whose direction byte is valid.
    pub fn io(&self) -> (r: Option<ExitIo>)
        requires
            self.wf(),
        ensures
            r is Some <==> (self.exit_reason == Exit::Io && spec_io_direction(
                self.spec_payload()[0],
            ) is Some),
            r is Some ==> exit_io_matches(r->0, self.spec_payload()),
    {
        match self.exit_reason {
            Exit::Io => {
                let p = self.exit_bytes.as_slice();
                let b = read_u8_at(p, 0);
                let direction = if b == 0 {
                    IoDirection::In
                } else if b == 1 {
                    IoDirection::Out
                } else {
                    return None;
                };
                Some(
                    ExitIo {
                        direction,
                        size: read_u8_at(p, 1),
                        port: read_u16_at(p, 2),
                        count: read_u32_at(p, 4),
                        data_offset: read_u64_at(p, 8),
                    },
                )
            },
            _ => None,
        }
    }
}


/// Read `count` consecutive 64-bit little-endian fields starting at `base`.
fn read_u64_seq(s: &[u8], base: usize, count: usize) -> (r: Vec<u64>)
    requires
        base + 8 * count <= s@.len(),
    ensures
        r@.len() == count,
        forall|j: int| 0 <= j < count ==> r@[j] == le64_at(s@, base + 8 * j),
{
    let n: usize = s.len();
    let mut r: Vec<u64> = Vec::new();
    let mut i: usize = 0;
    while i < count
        invariant
            i <= count,
            base + 8 * count <= n,
            n == s@.len(),
            r@.len() == i,
            forall|j: int| 0 <= j < i ==> r@[j] == le64_at(s@, base + 8 * j),
        decreases count - i,
    {
        let x = read_u64_at(s, base + 8 * i);
        r.push(x);
        i = i + 1;
    }
    r
}

impl Run {
    /// The raw-hardware payload, exactly when the exit reason is unknown.
    pub fn hw(&self) -> (r: Option<Struct_Unnamed9>)
        requires
            self.wf(),
        ensures
            r is Some <==> self.exit_reason == Exit::Unknown,
            r is Some ==> hw_matches(r->0, self.spec_payload()),
    {
        match self.exit_reason {
            Exit::Unknown => {
                let p = self.exit_bytes.as_slice();
                Some(Struct_Unnamed9 { hardware_exit_reason: read_u64_at(p, 0) })
            },
            _ => None,
        }
    }

    /// The entry-failure payload, exactly when entry to the guest failed.
    pub fn fail_entry(&self) -> (r: Option<Struct_Unnamed10>)
        requires
            self.wf(),
        ensures
            r is Some <==> self.exit_reason == Exit::FailEntry,
            r is Some ==> fail_entry_matches(r->0, self.spec_payload()),
    {
        match self.exit_reason {
            Exit::FailEntry => {
                let p = self.exit_bytes.as_slice();
                Some(Struct_Unnamed10 { hardware_entry_failure_reason: read_u64_at(p, 0) })
            },
            _ => None,
        }
    }

    /// The exception payload, exactly when the guest took an exception.
    pub fn ex(&self) -> (r: Option<Struct_Unnamed11>)
        requires
            self.wf(),
        ensures
            r is Some <==> self.exit_reason == Exit::Exception,
            r is Some ==> exception_matches(r->0, self.spec_payload()),
    {
        match self.exit_reason {
            Exit::Exception => {
                let p = self.exit_bytes.as_slice();
                Some(
                    Struct_Unnamed11 {
                        exception: read_u32_at(p, 0),
                        error_code: read_u32_at(p, 4),
                    },
                )
            },
            _ => None,
        }
    }

    /// The debug-trap payload, exactly when a debug trap returned control.
    pub fn debug(&self) -> (r: Option<Struct_Unnamed13>)
        requires
            self.wf(),
        ensures
            r is Some <==> self.exit_reason == Exit::Debug,
            r is Some ==> debug_matches(r->0, self.spec_payload()),
    {
        match self.exit_reason {
            Exit::Debug => {
                let p = self.exit_bytes.as_slice();
                Some(
                    Struct_Unnamed13 {
                        arch: DebugExitArch {
                            exception: read_u32_at(p, 0),
                            pad: read_u32_at(p, 4),
                            pc: read_u64_at(p, 8),
                            dr6: read_u64_at(p, 16),
                            dr7: read_u64_at(p, 24),
                        },
                    },
                )
            },
            _ => None,
        }
    }

    /// The physical-memory-access payload, exactly when the guest touched
    /// unmapped physical memory.
    pub fn mmio(&self) -> (r: Option<Struct_Unnamed14>)
        requires
            self.wf(),
        ensures
            r is Some <==> self.exit_reason == Exit::Mmio,
            r is Some ==> mmio_matches(r->0, self.spec_payload()),
    {
        match self.exit_reason {
            Exit::Mmio => {
                let p = self.exit_bytes.as_slice();
                Some(
                    Struct_Unnamed14 {
                        phys_addr: read_u64_at(p, 0),
                        data: slice_to_vec(slice_subrange(p, 8, 16)),
                        len: read_u32_at(p, 16),
                        is_write: read_u8_at(p, 20),
                    },
                )
            },
            _ => None,
        }
    }

    /// The hypercall payload, exactly when the guest issued a hypercall.
    pub fn hypercall(&self) -> (r: Option<Struct_Unnamed15>)
        requires
            self.wf(),
        ensures
            r is Some <==> self.exit_reason == Exit::Hypercall,
            r is Some ==> hypercall_matches(r->0, self.spec_payload()),
    {
        match self.exit_reason {
            Exit::Hypercall => {
                let p = self.exit_bytes.as_slice();
                Some(
                    Struct_Unnamed15 {
                        nr: read_u64_at(p, 0),
                        args: read_u64_seq(p, 8, 6),
                        ret: read_u64_at(p, 56),
                        longmode: read_u32_at(p, 64),
                        pad: read_u32_at(p, 68),
                    },
                )
            },
            _ => None,
        }
    }

    /// The task-priority-access payload, exactly when such an access
    /// returned control.
    pub fn tpr_access(&self) -> (r: Option<Struct_Unnamed16>)
        requires
            self.wf(),
        ensures
            r is Some <==> self.exit_reason == Exit::TprAccess,
            r is Some ==> tpr_access_matches(r->0, self.spec_payload()),
    {
        match self.exit_reason {
            Exit::TprAccess => {
                let p = self.exit_bytes.as_slice();
                Some(
                    Struct_Unnamed16 {
                        rip: read_u64_at(p, 0),
                        is_write: read_u32_at(p, 8),
                        pad: read_u32_at(p, 12),
                    },
                )
            },
            _ => None,
        }
    }

    /// The interception payload of the s390 architecture, exactly when that
    /// exit was reported.
    pub fn s390_sieic(&self) -> (r: Option<Struct_Unnamed17>)
        requires
            self.wf(),
        ensures
            r is Some <==> self.exit_reason == Exit::S390Sieic,
            r is Some ==> s390_sieic_matches(r->0, self.spec_payload()),
    {
        match self.exit_reason {
            Exit::S390Sieic => {
                let p = self.exit_bytes.as_slice();
                Some(
                    Struct_Unnamed17 {
                        icptcode: read_u8_at(p, 0),
                        ipa: read_u16_at(p, 2),
                        ipb: read_u32_at(p, 4),
                    },
                )
            },
            _ => None,
        }
    }

    /// The reset-request flags of the s390 architecture, exactly when that
    /// exit was reported.
    pub fn s390_reset_flags(&self) -> (r: Option<u64>)
        requires
            self.wf(),
        ensures
            r is Some <==> self.exit_reason == Exit::S390Reset,
            r is Some ==> r->0 == le64_at(self.spec_payload(), 0),
    {
        match self.exit_reason {
            Exit::S390Reset => {
                let p = self.exit_bytes.as_slice();
                Some(read_u64_at(p, 0))
            },
            _ => None,
        }
    }

    /// The user-controlled-fault payload of the s390 architecture, exactly
    /// when that exit was reported.
    pub fn s390_ucontrol(&self) -> (r: Option<Struct_Unnamed18>)
        requires
            self.wf(),
        ensures
            r is Some <==> self.exit_reason == Exit::S390Ucontrol,
            r is Some ==> s390_ucontrol_matches(r->0, self.spec_payload()),
    {
        match self.exit_reason {
            Exit::S390Ucontrol => {
                let p = self.exit_bytes.as_slice();
                Some(
                    Struct_Unnamed18 {
                        trans_exc_code: read_u64_at(p, 0),
                        pgm_code: read_u32_at(p, 8),
                    },
                )
            },
            _ => None,
        }
    }

    /// The device-control-register payload, exactly when that exit was
    /// reported.
    pub fn dcr(&self) -> (r: Option<Struct_Unnamed19>)
        requires
            self.wf(),
        ensures
            r is Some <==> self.exit_reason == Exit::Dcr,
            r is Some ==> dcr_matches(r->0, self.spec_payload()),
    {
        match self.exit_reason {
            Exit::Dcr => {
                let p = self.exit_bytes.as_slice();
                Some(
                    Struct_Unnamed19 {
                        dcrn: read_u32_at(p, 0),
                        data: read_u32_at(p, 4),
                        is_write: read_u8_at(p, 8),
                    },
                )
            },
            _ => None,
        }
    }

    /// The internal-error payload, exactly when the facility reported an
    /// internal error.
    pub fn internal(&self) -> (r: Option<Struct_Unnamed20>)
        requires
            self.wf(),
        ensures
            r is Some <==> self.exit_reason == Exit::InternalError,
            r is Some ==> internal_matches(r->0, self.spec_payload()),
    {
        match self.exit_reason {
            Exit::InternalError => {
                let p = self.exit_bytes.as_slice();
                Some(
                    Struct_Unnamed20 {
                        suberror: read_u32_at(p, 0),
                        ndata: read_u32_at(p, 4),
                        data: read_u64_seq(p, 8, 16),
                    },
                )
            },
            _ => None,
        }
    }

    /// The guest register snapshot of an OSI call, exactly when that exit
    /// was reported.
    pub fn osi(&self) -> (r: Option<Struct_Unnamed21>)
        requires
            self.wf(),
        ensures
            r is Some <==> self.exit_reason == Exit::Osi,
            r is Some ==> osi_matches(r->0, self.spec_payload()),
    {
        match self.exit_reason {
            Exit::Osi => {
                let p = self.exit_bytes.as_slice();
                Some(Struct_Unnamed21 { gprs: read_u64_seq(p, 0, 32) })
            },
            _ => None,
        }
    }

    /// The PAPR hypercall payload, exactly when that exit was reported.
    pub fn papr_hcall(&self) -> (r: Option<Struct_Unnamed22>)
        requires
            self.wf(),
        ensures
            r is Some <==> self.exit_reason == Exit::PaprHcall,
            r is Some ==> papr_hcall_matches(r->0, self.spec_payload()),
    {
        match self.exit_reason {
            Exit::PaprHcall => {
                let p = self.exit_bytes.as_slice();
                Some(
                    Struct_Unnamed22 {
                        nr: read_u64_at(p, 0),
                        ret: read_u64_at(p, 8),
                        args: read_u64_seq(p, 16, 9),
                    },
                )
            },
            _ => None,
        }
    }

    /// The subchannel payload of the s390 architecture, exactly when that
    /// exit was reported.
    pub fn s390_tsch(&self) -> (r: Option<Struct_Unnamed23>)
        requires
            self.wf(),
        ensures
            r is Some <==> self.exit_reason == Exit::S390Tsch,
            r is Some ==> s390_tsch_matches(r->0, self.spec_payload()),
    {
        match self.exit_reason {
            Exit::S390Tsch => {
                let p = self.exit_bytes.as_slice();
                Some(
                    Struct_Unnamed23 {
                        subchannel_id: read_u16_at(p, 0),
                        subchannel_nr: read_u16_at(p, 2),
                        io_int_parm: read_u32_at(p, 4),
                        io_int_word: read_u32_at(p, 8),
                        ipb: read_u32_at(p, 12),
                        dequeued: read_u8_at(p, 16),
                    },
                )
            },
            _ => None,
        }
    }

    /// The external-proxy payload, exactly when that exit was reported.
    pub fn epr(&self) -> (r: Option<Struct_Unnamed24>)
        requires
            self.wf(),
        ensures
            r is Some <==> self.exit_reason == Exit::Epr,
            r is Some ==> epr_matches(r->0, self.spec_payload()),
    {
        match self.exit_reason {
            Exit::Epr => {
                let p = self.exit_bytes.as_slice();
                Some(Struct_Unnamed24 { epr: read_u32_at(p, 0) })
            },
            _ => None,
        }
    }

    /// The system-event payload, exactly when a system event ended the run.
    pub fn system_event(&self) -> (r: Option<Struct_Unnamed25>)
        requires
            self.wf(),
        ensures
            r is Some <==> self.exit_reason == Exit::SystemEvent,
            r is Some ==> system_event_matches(r->0, self.spec_payload()),
    {
        match self.exit_reason {
            Exit::SystemEvent => {
                let p = self.exit_bytes.as_slice();
                Some(Struct_Unnamed25 { _type: read_u32_at(p, 0), flags: read_u64_at(p, 8) })
            },
            _ => None,
        }
    }
}

} // verus!
