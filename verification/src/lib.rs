//! A verified control-plane model for a kernel virtualization facility.
//!
//! The library covers the decision logic of the control plane: protocol
//! version acceptance, capability-derived VCPU bounds, memory-slot
//! bookkeeping, VCPU admission, the variable-length CPUID negotiation
//! protocol, byte-level layouts of the register-transfer buffers, and the
//! decoding of the per-VCPU communication page into a tagged exit event.
//!
//! The privileged control calls themselves (opening the device, issuing an
//! ioctl, mapping the communication page) are external collaborators: an
//! unverified transport performs them and hands their numeric results and
//! raw bytes to the functions here, which interpret them under contracts.

use vstd::prelude::*;

pub mod bytes_le;
pub mod cpuid;
pub mod exit;
pub mod sys;
pub mod vcpu;
pub mod vm;
pub mod x86_64;

pub use cpuid::{Cpuid2, CpuidEntry2, CpuidHandle, CpuidStep, CPUID_ENTRIES, E2BIG, ENOMEM};
pub use exit::{
    Exit, ExitIo, IoDirection, Run, Struct_Unnamed10, Struct_Unnamed11, Struct_Unnamed13,
    Struct_Unnamed14, Struct_Unnamed15, Struct_Unnamed16, Struct_Unnamed17, Struct_Unnamed18,
    Struct_Unnamed19, Struct_Unnamed20, Struct_Unnamed21, Struct_Unnamed22, Struct_Unnamed23,
    Struct_Unnamed24, Struct_Unnamed25, Struct_Unnamed9, Union_Unnamed26, RUN_PAGE_BYTES,
};
pub use sys::{Capability, System};
pub use vcpu::{control_result, Vcpu, VcpuTicket};
pub use vm::{UserspaceMemoryRegion, VirtualMachine, MEM_LOG_DIRTY_PAGES, MEM_READONLY};
pub use x86_64::{
    Cpuid, CpuidEntry, Debugregs, DebugExitArch, Dtable, Fpu, GuestDebugArch, IoapicState,
    LapicState, MsrEntry, MsrList, Msrs, PicState, PitChannelState, PitState, PitState2, Regs,
    ReinjectControl, Segment, Sregs, Struct_Unnamed4, StructUnnamed5, StructUnnamed6,
    StructUnnamed7, SyncRegs, Union_Unnamed3, VcpuEvents, Xcr, Xcrs, Xsave, REGS_BYTES,
    SREGS_BYTES,
};

verus! {

/// The single protocol version this library accepts from the device.
pub const API_VERSION: i32 = 12;

/// Error returned by the control-plane operations.
///
/// Mirrors the error taxonomy of the underlying facility: a protocol
/// mismatch at construction, VCPU exhaustion, an undistinguished memory
/// registration failure, and any other OS error surfaced verbatim.
#[derive(Clone, Copy, Debug, PartialEq, Eq)]
pub enum KvmError {
    /// The device reported a protocol version other than `API_VERSION`.
    NotFound,
    /// Creating one more VCPU would exceed the advertised maximum.
    AlreadyExists,
    /// A memory-slot registration failed; the OS error code is not preserved.
    Unknown,
    /// Any other failed control call, carrying the OS error code it set.
    Os(i32),
}

} // verus!
