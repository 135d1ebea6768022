//! The virtual CPU: admission against the machine's VCPU bounds, the
//! register-transfer buffers it exchanges, and the interpretation of each
//! control call's numeric result — including the run call, whose success is
//! decoded from the communication page into a tagged exit event.

use vstd::prelude::*;

use crate::bytes_le::le32_at;
use crate::cpuid::cpuid2_matches;
use crate::cpuid::CpuidHandle;
use crate::exit::run_matches;
use crate::exit::Exit;
use crate::exit::Run;
use crate::exit::RUN_PAGE_BYTES;
use crate::vm::VirtualMachine;
use crate::x86_64::regs_matches;
use crate::x86_64::sregs_matches;
use crate::x86_64::Regs;
use crate::x86_64::Sregs;
use crate::x86_64::REGS_BYTES;
use crate::x86_64::SREGS_BYTES;
use crate::KvmError;

verus! {

/// Interpret the numeric result of a control call that returns nothing:
/// zero is success, anything else surfaces the OS error code it set.
pub fn control_result(ret: i32, os_err: i32) -> (r: Result<(), KvmError>)
    ensures
        r is Ok <==> ret == 0,
        r is Err ==> r->Err_0 == KvmError::Os(os_err),
{
    if ret == 0 {
        Ok(())
    } else {
        Err(KvmError::Os(os_err))
    }
}

/// Leave to create one VCPU: the index to create it under, and whether the
/// recommended count is being exceeded — a warning, never an error.
#[derive(Clone, Copy, Debug, PartialEq, Eq)]
pub struct VcpuTicket {
    pub index: u32,
    pub over_recommended: bool,
}

/// A virtual CPU: its resource handle and its index within the machine.
/// The communication page mapped over the handle is held by the transport;
/// its bytes come back through `run`.
#[derive(Clone, Copy, Debug)]
pub struct Vcpu {
    fd: i32,
    index: u32,
}

impl Vcpu {
    /// The numeric value of the VCPU's resource handle.
    pub closed spec fn spec_fd(&self) -> i32 {
        self.fd
    }

    /// The index the VCPU was created under.
    pub closed spec fn spec_index(&self) -> u32 {
        self.index
    }

    /// Admit one more VCPU on `vm`, or refuse it. At the maximum the
    /// creation fails with the exhaustion error and the machine — its VCPU
    /// count in particular — is untouched. Below the maximum the count goes
    /// up by one and the ticket carries the new VCPU's index and whether
    /// the recommended count is exceeded. The count goes up even if the
    /// transport then fails to finish the creation, as the facility has no
    /// way to hand an index back.
    pub fn create(vm: &mut VirtualMachine, max_vcpus: u32, recommended_vcpus: u32) -> (r: Result<
        VcpuTicket,
        KvmError,
    >)
        ensures
            r is Ok <==> old(vm).spec_num_vcpus() < max_vcpus,
            old(vm).spec_num_vcpus() >= max_vcpus ==> r->Err_0 == KvmError::AlreadyExists
                && *final(vm) == *old(vm),
            old(vm).spec_num_vcpus() < max_vcpus ==> {
                &&& r->Ok_0 == (VcpuTicket {
                    index: old(vm).spec_num_vcpus(),
                    over_recommended: old(vm).spec_num_vcpus() >= recommended_vcpus,
                })
                &&& final(vm).spec_num_vcpus() == old(vm).spec_num_vcpus() + 1
                &&& final(vm).spec_fd() == old(vm).spec_fd()
                &&& final(vm).spec_mem_slots() == old(vm).spec_mem_slots()
                &&& final(vm).spec_check_extension() == old(vm).spec_check_extension()
            },
    {
        let n = vm.num_vcpus();
        if n >= max_vcpus {
            return Err(KvmError::AlreadyExists);
        }
        let over_recommended = n >= recommended_vcpus;
        vm.bump_vcpus();
        Ok(VcpuTicket { index: n, over_recommended })
    }

    /// Bind the resource the facility created for a ticket.
    pub fn attach(ticket: VcpuTicket, vcpu_fd: i32) -> (r: Vcpu)
        ensures
            r.spec_fd() == vcpu_fd,
            r.spec_index() == ticket.index,
    {
        Vcpu { fd: vcpu_fd, index: ticket.index }
    }

    /// The descriptor on which the transport issues VCPU-scoped calls.
    pub fn raw_fd(&self) -> (r: i32)
        ensures
            r == self.spec_fd(),
    {
        self.fd
    }

    /// The index the VCPU was created under.
    pub fn index(&self) -> (r: u32)
        ensures
            r == self.spec_index(),
    {
        self.index
    }

    /// Interpret a run call: a failed call surfaces the OS error; a
    /// successful one decodes the communication page into the exit event,
    /// failing only on a discriminant no exit reason stands for.
    pub fn run(&self, ret: i32, os_err: i32, page: &[u8]) -> (r: Result<Run, KvmError>)
        requires
            page@.len() >= RUN_PAGE_BYTES,
        ensures
            ret != 0 ==> r is Err && r->Err_0 == KvmError::Os(os_err),
            ret == 0 ==> (r is Ok <==> Exit::spec_from_code(le32_at(page@, 8)) is Some),
            ret == 0 && r is Ok ==> r->Ok_0.wf() && run_matches(r->Ok_0, page@),
            ret == 0 && r is Err ==> r->Err_0 == KvmError::Unknown,
    {
        if ret != 0 {
            return Err(KvmError::Os(os_err));
        }
        match Run::from_page_bytes(page) {
            Some(run) => Ok(run),
            None => Err(KvmError::Unknown),
        }
    }

    /// Interpret a get-registers call: on success decode the transfer
    /// buffer the facility filled, else surface the OS error.
    pub fn get_regs(&self, ret: i32, os_err: i32, buf: &[u8]) -> (r: Result<Regs, KvmError>)
        requires
            buf@.len() == REGS_BYTES,
        ensures
            r is Ok <==> ret == 0,
            ret == 0 ==> regs_matches(r->Ok_0, buf@),
            ret != 0 ==> r->Err_0 == KvmError::Os(os_err),
    {
        if ret == 0 {
            Ok(Regs::from_bytes(buf))
        } else {
            Err(KvmError::Os(os_err))
        }
    }

    /// Lay out the buffer a set-registers call transfers; the buffer reads
    /// back as exactly `regs`.
    pub fn set_regs(&self, regs: &Regs) -> (buf: Vec<u8>)
        ensures
            buf@.len() == REGS_BYTES,
            regs_matches(*regs, buf@),
    {
        regs.to_bytes()
    }

    /// Interpret a get-special-registers call: on success decode the
    /// transfer buffer the facility filled, else surface the OS error.
    pub fn get_sregs(&self, ret: i32, os_err: i32, buf: &[u8]) -> (r: Result<Sregs, KvmError>)
        requires
            buf@.len() == SREGS_BYTES,
        ensures
            r is Ok <==> ret == 0,
            ret == 0 ==> sregs_matches(r->Ok_0, buf@),
            ret != 0 ==> r->Err_0 == KvmError::Os(os_err),
    {
        if ret == 0 {
            Ok(Sregs::from_bytes(buf))
        } else {
            Err(KvmError::Os(os_err))
        }
    }

    /// Lay out the buffer a set-special-registers call transfers; the
    /// buffer reads back as exactly `sregs`.
    pub fn set_sregs(&self, sregs: &Sregs) -> (buf: Vec<u8>)
        ensures
            buf@.len() == SREGS_BYTES,
            sregs_matches(*sregs, buf@),
    {
        sregs.to_bytes()
    }

    /// Lay out the buffer a set-feature-table call transfers; the buffer
    /// reads back as exactly the handle's table.
    pub fn set_cpuid2(&self, cpuid: &CpuidHandle) -> (buf: Vec<u8>)
        ensures
            cpuid2_matches(cpuid.cpuid, buf@),
    {
        cpuid.cpuid.to_bytes()
    }
}

} // verus!
