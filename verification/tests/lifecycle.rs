//! Device, machine and VCPU lifecycle: version acceptance, capability
//! codes, VCPU bounds, memory-slot registration and VCPU admission.

use kvm::Capability;
use kvm::KvmError;
use kvm::System;
use kvm::Vcpu;
use kvm::VirtualMachine;
use kvm::MEM_LOG_DIRTY_PAGES;

#[test]
fn initialize_accepts_supported_version() {
    let sys = System::initialize(3, 12).unwrap();
    assert_eq!(sys.raw_fd(), 3);
}

#[test]
fn initialize_rejects_other_versions() {
    assert_eq!(System::initialize(3, 11).unwrap_err(), KvmError::NotFound);
    assert_eq!(System::initialize(3, 13).unwrap_err(), KvmError::NotFound);
    assert_eq!(System::initialize(3, 0).unwrap_err(), KvmError::NotFound);
}

#[test]
fn capability_codes_match_the_protocol() {
    assert_eq!(Capability::Irqchip.code(), 0);
    assert_eq!(Capability::UserMemory.code(), 3);
    assert_eq!(Capability::SetTssAddr.code(), 4);
    assert_eq!(Capability::Vapic.code(), 6);
    assert_eq!(Capability::ExtCpuid.code(), 7);
    assert_eq!(Capability::NrVcpus.code(), 9);
    assert_eq!(Capability::IoMmu.code(), 18);
    assert_eq!(Capability::DestroyMemoryRegionWorks.code(), 21);
    assert_eq!(Capability::UserNmi.code(), 22);
    assert_eq!(Capability::MaxVcpus.code(), 66);
    assert_eq!(Capability::CheckExtensionVm.code(), 105);
}

#[test]
fn recommended_vcpus_falls_back_to_four() {
    let sys = System::initialize(3, 12).unwrap();
    assert_eq!(sys.recommended_vcpus(0), 4);
    assert_eq!(sys.recommended_vcpus(8), 8);
}

#[test]
fn max_vcpus_falls_back_to_recommended() {
    let sys = System::initialize(3, 12).unwrap();
    assert_eq!(sys.max_vcpus(0, 0), 4);
    assert_eq!(sys.max_vcpus(0, 8), 8);
    assert_eq!(sys.max_vcpus(160, 8), 160);
}

// Checks the bound `lemma_max_vcpus_at_least_recommended` states, on the
// query answers a well-behaved device gives.
#[test]
fn max_is_at_least_recommended_on_conforming_reports() {
    let sys = System::initialize(3, 12).unwrap();
    let cases: [(i32, i32); 4] = [(0, 0), (0, 8), (8, 8), (160, 8)];
    for (max_cap, nr_cap) in cases {
        assert!(sys.max_vcpus(max_cap, nr_cap) >= sys.recommended_vcpus(nr_cap));
    }
}

#[test]
fn vcpu_mmap_size_requires_room_for_the_exit_structure() {
    let sys = System::initialize(3, 12).unwrap();
    assert_eq!(sys.vcpu_mmap_size(12288), Some(12288));
    assert_eq!(sys.vcpu_mmap_size(1328), Some(1328));
    assert_eq!(sys.vcpu_mmap_size(1327), None);
    assert_eq!(sys.vcpu_mmap_size(0), None);
    assert_eq!(sys.vcpu_mmap_size(-1), None);
}

#[test]
fn create_vm_surfaces_the_os_error() {
    let err = VirtualMachine::create(-1, 9, 0).unwrap_err();
    assert_eq!(err, KvmError::Os(9));
}

#[test]
fn create_vm_starts_empty() {
    let vm = VirtualMachine::create(5, 0, 1).unwrap();
    assert_eq!(vm.raw_fd(), 5);
    assert_eq!(vm.num_vcpus(), 0);
    assert_eq!(vm.mem_slot_count(), 0);
}

#[test]
fn capability_queries_delegate_when_supported() {
    let sys = System::initialize(3, 12).unwrap();
    let vm = VirtualMachine::create(5, 0, 1).unwrap();
    assert_eq!(vm.capability_query_fd(&sys), 5);
    let vm2 = VirtualMachine::create(6, 0, 0).unwrap();
    assert_eq!(vm2.capability_query_fd(&sys), 3);
}

// Memory registration assigns dense slot indices: the first region gets
// slot 0, the second slot 1.
#[test]
fn memory_registration_assigns_sequential_slots() {
    let mut vm = VirtualMachine::create(5, 0, 1).unwrap();

    let r0 = vm.build_memory_region(0, 0x10000, 0x7f00_0000_0000, 0);
    assert_eq!(r0.slot, 0);
    assert_eq!(r0.guest_phys_addr, 0);
    assert_eq!(r0.memory_size, 0x10000);
    assert_eq!(r0.userspace_addr, 0x7f00_0000_0000);
    assert_eq!(vm.set_user_memory_region(r0, 0).unwrap(), 0);
    assert_eq!(vm.mem_slot_count(), 1);

    let r1 = vm.build_memory_region(0x200000, 0x1000, 0x7f00_1000_0000, MEM_LOG_DIRTY_PAGES);
    assert_eq!(r1.slot, 1);
    assert_eq!(r1.flags, MEM_LOG_DIRTY_PAGES);
    assert_eq!(vm.set_user_memory_region(r1, 0).unwrap(), 1);
    assert_eq!(vm.mem_slot_count(), 2);
}

#[test]
fn failed_memory_registration_leaves_the_table_unchanged() {
    let mut vm = VirtualMachine::create(5, 0, 1).unwrap();
    let r0 = vm.build_memory_region(0, 0x1000, 0x7f00_0000_0000, 0);
    assert_eq!(vm.set_user_memory_region(r0, -1).unwrap_err(), KvmError::Unknown);
    assert_eq!(vm.mem_slot_count(), 0);
}

// Creating VCPUs up to the maximum succeeds; the next creation fails with
// the exhaustion error and leaves the counter untouched.
#[test]
fn vcpu_creation_stops_at_the_maximum() {
    let mut vm = VirtualMachine::create(5, 0, 1).unwrap();
    let max = 2;
    let recommended = 1;

    let t0 = Vcpu::create(&mut vm, max, recommended).unwrap();
    assert_eq!(t0.index, 0);
    assert!(!t0.over_recommended);
    assert_eq!(vm.num_vcpus(), 1);

    let t1 = Vcpu::create(&mut vm, max, recommended).unwrap();
    assert_eq!(t1.index, 1);
    assert!(t1.over_recommended);
    assert_eq!(vm.num_vcpus(), 2);

    let err = Vcpu::create(&mut vm, max, recommended).unwrap_err();
    assert_eq!(err, KvmError::AlreadyExists);
    assert_eq!(vm.num_vcpus(), 2);
}

#[test]
fn attach_binds_the_created_resource() {
    let mut vm = VirtualMachine::create(5, 0, 1).unwrap();
    let ticket = Vcpu::create(&mut vm, 4, 4).unwrap();
    let vcpu = Vcpu::attach(ticket, 7);
    assert_eq!(vcpu.raw_fd(), 7);
    assert_eq!(vcpu.index(), 0);
}

#[test]
fn control_result_maps_zero_to_success() {
    assert!(kvm::control_result(0, 0).is_ok());
    assert_eq!(kvm::control_result(-1, 5).unwrap_err(), KvmError::Os(5));
}
