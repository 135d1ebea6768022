//! Register transfer buffers: exact layouts and the set-then-get round trip.

use kvm::KvmError;
use kvm::Regs;
use kvm::Sregs;
use kvm::Vcpu;
use kvm::VcpuTicket;
use kvm::REGS_BYTES;
use kvm::SREGS_BYTES;

fn a_vcpu() -> Vcpu {
    Vcpu::attach(VcpuTicket { index: 0, over_recommended: false }, 7)
}

// Register round trip: every value written via the set-registers buffer is
// read back unchanged by the get-registers decoding.
#[test]
fn regs_round_trip_through_transfer_buffer() {
    let vcpu = a_vcpu();
    let mut regs = Regs::default();
    regs.rax = 0x1;
    regs.rbx = 0x1122_3344_5566_7788;
    regs.rsp = 0xffff_ffff_ffff_fff0;
    regs.rip = 0x100000;
    regs.rflags = 0x2;
    regs.r15 = u64::MAX;

    let buf = vcpu.set_regs(&regs);
    assert_eq!(buf.len(), REGS_BYTES);
    let back = vcpu.get_regs(0, 0, &buf).unwrap();
    assert_eq!(back, regs);
    assert_eq!(back.rax, 0x1);
}

#[test]
fn regs_buffer_layout_is_little_endian() {
    let vcpu = a_vcpu();
    let mut regs = Regs::default();
    regs.rax = 0x0102_0304_0506_0708;
    regs.rbx = 0x1;
    let buf = vcpu.set_regs(&regs);
    assert_eq!(&buf[0..8], &[8, 7, 6, 5, 4, 3, 2, 1]);
    assert_eq!(&buf[8..16], &[1, 0, 0, 0, 0, 0, 0, 0]);
    // rip sits at offset 128, rflags at 136.
    let mut regs2 = Regs::default();
    regs2.rip = 0x100000;
    let buf2 = vcpu.set_regs(&regs2);
    assert_eq!(&buf2[128..132], &[0, 0, 16, 0]);
}

#[test]
fn get_regs_surfaces_the_os_error() {
    let vcpu = a_vcpu();
    let buf = vec![0u8; REGS_BYTES];
    assert_eq!(vcpu.get_regs(-1, 22, &buf).unwrap_err(), KvmError::Os(22));
    assert_eq!(vcpu.get_regs(0, 0, &buf).unwrap(), Regs::default());
}

// Special-register round trip: a control-register value written via the
// set buffer is read back unchanged, as is every segment field.
#[test]
fn sregs_round_trip_through_transfer_buffer() {
    let vcpu = a_vcpu();
    let mut sregs = Sregs::default();
    sregs.cr0 = 0x1;
    sregs.cr3 = 0x4000;
    sregs.efer = 0x500;
    sregs.apic_base = 0xfee0_0000;
    sregs.cs.base = 0;
    sregs.cs.limit = 0xffff_ffff;
    sregs.cs.selector = 0x8;
    sregs.cs._type = 0xb;
    sregs.cs.present = 1;
    sregs.cs.s = 1;
    sregs.cs.g = 1;
    sregs.ldt.base = 0x7000;
    sregs.gdt.base = 0x5000;
    sregs.gdt.limit = 0x27;
    sregs.interrupt_bitmap = [1, 2, 3, 4];

    let buf = vcpu.set_sregs(&sregs);
    assert_eq!(buf.len(), SREGS_BYTES);
    let back = vcpu.get_sregs(0, 0, &buf).unwrap();
    assert_eq!(back, sregs);
    assert_eq!(back.cr0, 0x1);
    assert_eq!(back.cs.limit, 0xffff_ffff);
    assert_eq!(back.interrupt_bitmap, [1, 2, 3, 4]);
}

#[test]
fn sregs_buffer_layout_places_cr0_after_the_tables() {
    let vcpu = a_vcpu();
    let mut sregs = Sregs::default();
    sregs.cr0 = 0x8000_0001;
    let buf = vcpu.set_sregs(&sregs);
    // cs occupies 0..24; cr0 sits at offset 224.
    assert_eq!(&buf[224..232], &[1, 0, 0, 128, 0, 0, 0, 0]);
}

#[test]
fn get_sregs_surfaces_the_os_error() {
    let vcpu = a_vcpu();
    let buf = vec![0u8; SREGS_BYTES];
    assert_eq!(vcpu.get_sregs(-1, 9, &buf).unwrap_err(), KvmError::Os(9));
}

// The flat code segment of the end-to-end scenario: paging disabled, a
// flat code segment, the instruction pointer at the code's physical
// address — all of it surviving the transfer encoding unchanged.
#[test]
fn flat_real_mode_setup_survives_the_buffers() {
    let vcpu = a_vcpu();

    let mut sregs = Sregs::default();
    sregs.cr0 = 0; // paging disabled
    sregs.cs.base = 0;
    sregs.cs.limit = 0xffff_ffff;
    sregs.cs.selector = 0x8;
    let sback = vcpu.get_sregs(0, 0, &vcpu.set_sregs(&sregs)).unwrap();
    assert_eq!(sback.cr0 & 0x8000_0001, 0);
    assert_eq!(sback.cs.base, 0);
    assert_eq!(sback.cs.limit, 0xffff_ffff);

    let mut regs = Regs::default();
    regs.rip = 0x100000;
    regs.rflags = 0x2;
    let rback = vcpu.get_regs(0, 0, &vcpu.set_regs(&regs)).unwrap();
    assert_eq!(rback.rip, 0x100000);
    assert_eq!(rback.rflags, 0x2);
}
