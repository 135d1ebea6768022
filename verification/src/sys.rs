//! The device handle: protocol-version acceptance, capability identifiers,
//! and the VCPU-count bounds derived from capability queries.

use vstd::prelude::*;

use crate::exit::RUN_PAGE_BYTES;
use crate::KvmError;
use crate::API_VERSION;

verus! {

/// Capabilities of the virtualization facility, queried by integer identifier.
#[derive(Clone, Copy, Debug, PartialEq, Eq, Hash)]
pub enum Capability {
    Irqchip,
    Hlt,
    MmuShadowCacheControl,
    UserMemory,
    SetTssAddr,
    Vapic,
    ExtCpuid,
    ClockSource,
    NrVcpus,
    NrMemSlots,
    Pit,
    NopIoDelay,
    PvMmu,
    MpState,
    CoalescedMmio,
    SyncMmu,
    IoMmu,
    DestroyMemoryRegionWorks,
    UserNmi,
    MaxVcpus,
    CheckExtensionVm,
}

impl Capability {
    /// The identifier under which the facility knows this capability.
    pub open spec fn spec_code(self) -> i32 {
        match self {
            Capability::Irqchip => 0,
            Capability::Hlt => 1,
            Capability::MmuShadowCacheControl => 2,
            Capability::UserMemory => 3,
            Capability::SetTssAddr => 4,
            Capability::Vapic => 6,
            Capability::ExtCpuid => 7,
            Capability::ClockSource => 8,
            Capability::NrVcpus => 9,
            Capability::NrMemSlots => 10,
            Capability::Pit => 11,
            Capability::NopIoDelay => 12,
            Capability::PvMmu => 13,
            Capability::MpState => 14,
            Capability::CoalescedMmio => 15,
            Capability::SyncMmu => 16,
            Capability::IoMmu => 18,
            Capability::DestroyMemoryRegionWorks => 21,
            Capability::UserNmi => 22,
            Capability::MaxVcpus => 66,
            Capability::CheckExtensionVm => 105,
        }
    }

    /// The identifier to place in a capability query for this capability.
    pub fn code(self) -> (r: i32)
        ensures
            r == self.spec_code(),
    {
        match self {
            Capability::Irqchip => 0,
            Capability::Hlt => 1,
            Capability::MmuShadowCacheControl => 2,
            Capability::UserMemory => 3,
            Capability::SetTssAddr => 4,
            Capability::Vapic => 6,
            Capability::ExtCpuid => 7,
            Capability::ClockSource => 8,
            Capability::NrVcpus => 9,
            Capability::NrMemSlots => 10,
            Capability::Pit => 11,
            Capability::NopIoDelay => 12,
            Capability::PvMmu => 13,
            Capability::MpState => 14,
            Capability::CoalescedMmio => 15,
            Capability::SyncMmu => 16,
            Capability::IoMmu => 18,
            Capability::DestroyMemoryRegionWorks => 21,
            Capability::UserNmi => 22,
            Capability::MaxVcpus => 66,
            Capability::CheckExtensionVm => 105,
        }
    }
}

/// Handle to the virtualization device.
///
/// Construction checks that the device speaks the one supported protocol
/// version; the handle then never changes. The open device descriptor is
/// owned by the transport; this holds its numeric value for later calls.
#[derive(Clone, Copy, Debug)]
pub struct System {
    fd: i32,
}

/// The recommended VCPU count derived from a `Capability::NrVcpus` query
/// result: the reported magnitude, or 4 when the query is unsupported.
pub open spec fn spec_recommended_vcpus(nr_vcpus_cap: i32) -> u32 {
    if nr_vcpus_cap != 0 {
        nr_vcpus_cap as u32
    } else {
        4u32
    }
}

/// The maximum VCPU count derived from a `Capability::MaxVcpus` query
/// result, falling back to the recommended count when unsupported.
pub open spec fn spec_max_vcpus(max_vcpus_cap: i32, nr_vcpus_cap: i32) -> u32 {
    if max_vcpus_cap != 0 {
        max_vcpus_cap as u32
    } else {
        spec_recommended_vcpus(nr_vcpus_cap)
    }
}

impl System {
    /// The numeric value of the open device descriptor.
    pub closed spec fn spec_fd(self) -> i32 {
        self.fd
    }

    /// Accept an opened device whose reported protocol version matches the
    /// single supported version; reject every other report.
    pub fn initialize(fd: i32, reported_version: i32) -> (r: Result<System, KvmError>)
        ensures
            r is Ok <==> reported_version == API_VERSION,
            r is Ok ==> r->Ok_0.spec_fd() == fd,
            r is Err ==> r->Err_0 == KvmError::NotFound,
    {
        if reported_version == API_VERSION {
            Ok(System { fd })
        } else {
            Err(KvmError::NotFound)
        }
    }

    /// The descriptor on which the transport issues device-scoped calls.
    pub fn raw_fd(&self) -> (r: i32)
        ensures
            r == self.spec_fd(),
    {
        self.fd
    }

    /// Recommended number of VCPUs, given the result of a
    /// `Capability::NrVcpus` query on this device.
    pub fn recommended_vcpus(&self, nr_vcpus_cap: i32) -> (r: u32)
        ensures
            r == spec_recommended_vcpus(nr_vcpus_cap),
    {
        if nr_vcpus_cap != 0 {
            #[verifier::truncate] (nr_vcpus_cap as u32)
        } else {
            4
        }
    }

    /// Maximum number of VCPUs, given the results of `Capability::MaxVcpus`
    /// and `Capability::NrVcpus` queries on this device.
    pub fn max_vcpus(&self, max_vcpus_cap: i32, nr_vcpus_cap: i32) -> (r: u32)
        ensures
            r == spec_max_vcpus(max_vcpus_cap, nr_vcpus_cap),
    {
        if max_vcpus_cap != 0 {
            #[verifier::truncate] (max_vcpus_cap as u32)
        } else {
            self.recommended_vcpus(nr_vcpus_cap)
        }
    }

    /// Validate the communication-page size the device reports. A size that
    /// cannot hold the exit structure is an ABI mismatch the caller must
    /// treat as unrecoverable, so no handle-bearing result is offered.
    pub fn vcpu_mmap_size(&self, reported: i32) -> (r: Option<usize>)
        ensures
            r is Some <==> reported > 0 && reported >= RUN_PAGE_BYTES,
            r is Some ==> r->0 == reported as usize,
    {
        if reported > 0 && reported as usize >= RUN_PAGE_BYTES {
            Some(reported as usize)
        } else {
            None
        }
    }
}

/// The maximum VCPU count is at least the recommended count, provided the
/// device either leaves the maximum unsupported or reports a maximum no
/// smaller than the recommendation it gave. A device reporting a maximum
/// below its own recommendation (both queries supported, the first smaller)
/// falls outside this guarantee.
pub proof fn lemma_max_vcpus_at_least_recommended(max_vcpus_cap: i32, nr_vcpus_cap: i32)
    requires
        max_vcpus_cap == 0 || spec_recommended_vcpus(nr_vcpus_cap) <= max_vcpus_cap as u32,
    ensures
        spec_max_vcpus(max_vcpus_cap, nr_vcpus_cap) >= spec_recommended_vcpus(nr_vcpus_cap),
{
}

} // verus!
