//! The virtual machine: its memory-slot table and VCPU count, with the
//! invariant that slot indices are dense and never renumbered.

use vstd::prelude::*;

use crate::sys::System;
use crate::KvmError;

verus! {

/// Flag requesting dirty-page tracking for a memory slot.
pub const MEM_LOG_DIRTY_PAGES: u32 = 1;

/// Flag requesting a read-only mapping (capability-gated).
pub const MEM_READONLY: u32 = 2;

/// One memory-slot registration as handed to the facility: the slot index,
/// the flags, the guest physical base, the byte length, and the host
/// address of the backing memory. The caller must keep the backing memory
/// alive and unmoved for as long as the machine exists.
#[derive(Clone, Copy, Debug, PartialEq, Eq)]
pub struct UserspaceMemoryRegion {
    pub slot: u32,
    pub flags: u32,
    pub guest_phys_addr: u64,
    pub memory_size: u64,
    pub userspace_addr: u64,
}

/// A virtual machine: its resource handle, the registered memory slots in
/// slot order, the count of created VCPUs, and whether capability queries
/// may be put to the machine itself rather than the device.
#[derive(Clone, Debug)]
pub struct VirtualMachine {
    fd: i32,
    mem_slots: Vec<UserspaceMemoryRegion>,
    num_vcpus: u32,
    check_extension: bool,
}

impl VirtualMachine {
    /// The numeric value of the machine's resource handle.
    pub closed spec fn spec_fd(&self) -> i32 {
        self.fd
    }

    /// The registered memory slots, in order of registration.
    pub closed spec fn spec_mem_slots(&self) -> Seq<UserspaceMemoryRegion> {
        self.mem_slots@
    }

    /// How many VCPUs were created on this machine.
    pub closed spec fn spec_num_vcpus(&self) -> u32 {
        self.num_vcpus
    }

    /// Whether the machine answers capability queries itself.
    pub closed spec fn spec_check_extension(&self) -> bool {
        self.check_extension
    }

    /// Slot indices are dense: the region in position `i` of the table
    /// occupies slot `i`. Registration assigns the next index in order and
    /// no operation removes or renumbers a slot.
    pub open spec fn wf(&self) -> bool {
        forall|i: int|
            0 <= i < self.spec_mem_slots().len() ==> (#[trigger] self.spec_mem_slots()[i]).slot
                == i
    }

    /// Adopt a machine the facility created, or surface the creation
    /// failure. `create_vm_ret` is the handle the create call returned (its
    /// failure value is -1, with `os_err` the error code it set);
    /// `check_extension_vm_cap` is the result of querying whether the
    /// machine answers capability queries itself.
    pub fn create(create_vm_ret: i32, os_err: i32, check_extension_vm_cap: i32) -> (r: Result<
        VirtualMachine,
        KvmError,
    >)
        ensures
            r is Ok <==> create_vm_ret != -1,
            r is Err ==> r->Err_0 == KvmError::Os(os_err),
            r is Ok ==> {
                &&& r->Ok_0.spec_fd() == create_vm_ret
                &&& r->Ok_0.spec_mem_slots().len() == 0
                &&& r->Ok_0.spec_num_vcpus() == 0
                &&& r->Ok_0.spec_check_extension() == (check_extension_vm_cap != 0)
                &&& r->Ok_0.wf()
            },
    {
        if create_vm_ret == -1 {
            Err(KvmError::Os(os_err))
        } else {
            Ok(
                VirtualMachine {
                    fd: create_vm_ret,
                    mem_slots: Vec::new(),
                    num_vcpus: 0,
                    check_extension: check_extension_vm_cap != 0,
                },
            )
        }
    }

    /// The descriptor on which the transport issues machine-scoped calls.
    pub fn raw_fd(&self) -> (r: i32)
        ensures
            r == self.spec_fd(),
    {
        self.fd
    }

    /// How many VCPUs were created on this machine.
    pub fn num_vcpus(&self) -> (r: u32)
        ensures
            r == self.spec_num_vcpus(),
    {
        self.num_vcpus
    }

    /// How many memory slots are registered.
    pub fn mem_slot_count(&self) -> (r: usize)
        ensures
            r == self.spec_mem_slots().len(),
    {
        self.mem_slots.len()
    }

    /// The descriptor a capability query should be issued on: the machine's
    /// own when it answers such queries, else the device's.
    pub fn capability_query_fd(&self, sys: &System) -> (r: i32)
        ensures
            r == if self.spec_check_extension() {
                self.spec_fd()
            } else {
                sys.spec_fd()
            },
    {
        if self.check_extension {
            self.fd
        } else {
            sys.raw_fd()
        }
    }

    /// Lay out the registration of the next memory slot: the slot index is
    /// the current slot count; base, length, host address and flags are
    /// taken as given.
    pub fn build_memory_region(
        &self,
        phys_addr: u64,
        mem_len: u64,
        host_addr: u64,
        flags: u32,
    ) -> (r: UserspaceMemoryRegion)
        requires
            self.spec_mem_slots().len() < u32::MAX,
        ensures
            r.slot == self.spec_mem_slots().len(),
            r.flags == flags,
            r.guest_phys_addr == phys_addr,
            r.memory_size == mem_len,
            r.userspace_addr == host_addr,
    {
        UserspaceMemoryRegion {
            slot: self.mem_slots.len() as u32,
            flags,
            guest_phys_addr: phys_addr,
            memory_size: mem_len,
            userspace_addr: host_addr,
        }
    }

    /// Commit or refuse the registration the facility answered with `ret`.
    /// On success the region is appended — it occupies the slot index it
    /// named, which is returned. On failure the table is unchanged and the
    /// error is the undistinguished registration error, the OS code being
    /// discarded here as a recorded design choice.
    pub fn set_user_memory_region(&mut self, region: UserspaceMemoryRegion, ret: i32) -> (r:
        Result<u32, KvmError>)
        requires
            old(self).wf(),
            region.slot == old(self).spec_mem_slots().len(),
        ensures
            final(self).spec_fd() == old(self).spec_fd(),
            final(self).spec_num_vcpus() == old(self).spec_num_vcpus(),
            final(self).spec_check_extension() == old(self).spec_check_extension(),
            final(self).wf(),
            r is Ok <==> ret == 0,
            ret == 0 ==> r->Ok_0 == region.slot && final(self).spec_mem_slots() == old(
                self,
            ).spec_mem_slots().push(region),
            ret != 0 ==> r->Err_0 == KvmError::Unknown && final(self).spec_mem_slots() == old(
                self,
            ).spec_mem_slots(),
    {
        if ret == 0 {
            self.mem_slots.push(region);
            Ok(region.slot)
        } else {
            Err(KvmError::Unknown)
        }
    }

    /// Count one more created VCPU.
    pub(crate) fn bump_vcpus(&mut self)
        requires
            old(self).spec_num_vcpus() < u32::MAX,
        ensures
            final(self).spec_fd() == old(self).spec_fd(),
            final(self).spec_mem_slots() == old(self).spec_mem_slots(),
            final(self).spec_check_extension() == old(self).spec_check_extension(),
            final(self).spec_num_vcpus() == old(self).spec_num_vcpus() + 1,
    {
        self.num_vcpus = self.num_vcpus + 1;
    }
}

} // verus!
