//! Decoding the communication page into a tagged exit event, and the
//! discriminated accessors that refuse every variant but the reported one.

use kvm::Exit;
use kvm::IoDirection;
use kvm::KvmError;
use kvm::Run;
use kvm::Vcpu;
use kvm::VcpuTicket;
use kvm::RUN_PAGE_BYTES;

fn put_u16(page: &mut [u8], off: usize, x: u16) {
    page[off..off + 2].copy_from_slice(&x.to_le_bytes());
}

fn put_u32(page: &mut [u8], off: usize, x: u32) {
    page[off..off + 4].copy_from_slice(&x.to_le_bytes());
}

fn put_u64(page: &mut [u8], off: usize, x: u64) {
    page[off..off + 8].copy_from_slice(&x.to_le_bytes());
}

fn empty_page() -> Vec<u8> {
    vec![0u8; RUN_PAGE_BYTES]
}

#[test]
fn exit_codes_round_trip() {
    let all = [
        Exit::Unknown,
        Exit::Exception,
        Exit::Io,
        Exit::Hypercall,
        Exit::Debug,
        Exit::Hlt,
        Exit::Mmio,
        Exit::IrqWindowOpen,
        Exit::Shutdown,
        Exit::FailEntry,
        Exit::Intr,
        Exit::SetTpr,
        Exit::TprAccess,
        Exit::S390Sieic,
        Exit::S390Reset,
        Exit::Dcr,
        Exit::Nmi,
        Exit::InternalError,
        Exit::Osi,
        Exit::PaprHcall,
        Exit::S390Ucontrol,
        Exit::Watchdog,
        Exit::S390Tsch,
        Exit::Epr,
        Exit::SystemEvent,
    ];
    for (i, e) in all.iter().enumerate() {
        assert_eq!(e.code(), i as u32);
        assert_eq!(Exit::from_code(i as u32), Some(*e));
    }
    assert_eq!(Exit::from_code(25), None);
    assert_eq!(Exit::from_code(u32::MAX), None);
}

#[test]
fn header_fields_decode() {
    let mut page = empty_page();
    page[0] = 1; // request_interrupt_window
    put_u32(&mut page, 8, 5); // Hlt
    page[12] = 1; // ready_for_interrupt_injection
    page[13] = 1; // if_flag
    put_u16(&mut page, 14, 0x1234);
    put_u64(&mut page, 16, 0xf); // cr8
    put_u64(&mut page, 24, 0xfee0_0000); // apic_base
    put_u64(&mut page, 288, 0x1); // kvm_valid_regs
    put_u64(&mut page, 296, 0x2); // kvm_dirty_regs

    let run = Run::from_page_bytes(&page).unwrap();
    assert_eq!(run.request_interrupt_window, 1);
    assert_eq!(run.exit_reason, Exit::Hlt);
    assert_eq!(run.ready_for_interrupt_injection, 1);
    assert_eq!(run.if_flag, 1);
    assert_eq!(run.flags, 0x1234);
    assert_eq!(run.cr8, 0xf);
    assert_eq!(run.apic_base, 0xfee0_0000);
    assert_eq!(run.kvm_valid_regs, 0x1);
    assert_eq!(run.kvm_dirty_regs, 0x2);
    assert_eq!(run.s.bytes.len(), 1024);
}

#[test]
fn unknown_discriminant_is_refused() {
    let mut page = empty_page();
    put_u32(&mut page, 8, 25);
    assert!(Run::from_page_bytes(&page).is_none());
}

// The canonical port-read exit: an 8-bit input from port 1, one repetition,
// as the facility reports it after the two-byte input instruction runs.
#[test]
fn io_exit_decodes_port_read() {
    let mut page = empty_page();
    put_u32(&mut page, 8, 2); // Io
    // payload at 32: direction=in, size=1, port=1, count=1, data offset
    page[32] = 0;
    page[33] = 1;
    put_u16(&mut page, 34, 1);
    put_u32(&mut page, 36, 1);
    put_u64(&mut page, 40, 4096);

    let run = Run::from_page_bytes(&page).unwrap();
    assert_eq!(run.exit_reason, Exit::Io);
    let io = run.io().unwrap();
    assert_eq!(io.direction, IoDirection::In);
    assert_eq!(io.size, 1);
    assert_eq!(io.port, 1);
    assert_eq!(io.count, 1);
    assert_eq!(io.data_offset, 4096);

    // Every other accessor refuses this exit.
    assert!(run.hw().is_none());
    assert!(run.mmio().is_none());
    assert!(run.hypercall().is_none());
    assert!(run.fail_entry().is_none());
    assert!(run.ex().is_none());
    assert!(run.debug().is_none());
    assert!(run.tpr_access().is_none());
    assert!(run.internal().is_none());
    assert!(run.system_event().is_none());
}

#[test]
fn io_exit_with_bad_direction_byte_is_refused() {
    let mut page = empty_page();
    put_u32(&mut page, 8, 2);
    page[32] = 2;
    let run = Run::from_page_bytes(&page).unwrap();
    assert!(run.io().is_none());
}

#[test]
fn out_direction_decodes() {
    let mut page = empty_page();
    put_u32(&mut page, 8, 2);
    page[32] = 1;
    let run = Run::from_page_bytes(&page).unwrap();
    assert_eq!(run.io().unwrap().direction, IoDirection::Out);
}

#[test]
fn mmio_exit_decodes() {
    let mut page = empty_page();
    put_u32(&mut page, 8, 6); // Mmio
    put_u64(&mut page, 32, 0xdead_b000);
    page[40..48].copy_from_slice(&[1, 2, 3, 4, 5, 6, 7, 8]);
    put_u32(&mut page, 48, 4);
    page[52] = 1;

    let run = Run::from_page_bytes(&page).unwrap();
    let mmio = run.mmio().unwrap();
    assert_eq!(mmio.phys_addr, 0xdead_b000);
    assert_eq!(mmio.data, vec![1, 2, 3, 4, 5, 6, 7, 8]);
    assert_eq!(mmio.len, 4);
    assert_eq!(mmio.is_write, 1);
    assert!(run.io().is_none());
}

#[test]
fn hypercall_exit_decodes() {
    let mut page = empty_page();
    put_u32(&mut page, 8, 3); // Hypercall
    put_u64(&mut page, 32, 11); // nr
    for i in 0..6 {
        put_u64(&mut page, 40 + 8 * i, 100 + i as u64);
    }
    put_u64(&mut page, 88, 7); // ret
    put_u32(&mut page, 96, 1); // longmode

    let run = Run::from_page_bytes(&page).unwrap();
    let hc = run.hypercall().unwrap();
    assert_eq!(hc.nr, 11);
    assert_eq!(hc.args, vec![100, 101, 102, 103, 104, 105]);
    assert_eq!(hc.ret, 7);
    assert_eq!(hc.longmode, 1);
}

#[test]
fn exception_and_fail_entry_and_hw_decode() {
    let mut page = empty_page();
    put_u32(&mut page, 8, 1); // Exception
    put_u32(&mut page, 32, 14);
    put_u32(&mut page, 36, 2);
    let run = Run::from_page_bytes(&page).unwrap();
    let ex = run.ex().unwrap();
    assert_eq!(ex.exception, 14);
    assert_eq!(ex.error_code, 2);

    put_u32(&mut page, 8, 9); // FailEntry
    put_u64(&mut page, 32, 0x21);
    let run = Run::from_page_bytes(&page).unwrap();
    assert_eq!(run.fail_entry().unwrap().hardware_entry_failure_reason, 0x21);

    put_u32(&mut page, 8, 0); // Unknown
    let run = Run::from_page_bytes(&page).unwrap();
    assert_eq!(run.hw().unwrap().hardware_exit_reason, 0x21);
}

#[test]
fn debug_exit_decodes() {
    let mut page = empty_page();
    put_u32(&mut page, 8, 4); // Debug
    put_u32(&mut page, 32, 3); // exception vector
    put_u64(&mut page, 40, 0x100000); // pc
    put_u64(&mut page, 48, 0xffff0ff0); // dr6
    put_u64(&mut page, 56, 0x400); // dr7
    let run = Run::from_page_bytes(&page).unwrap();
    let dbg = run.debug().unwrap();
    assert_eq!(dbg.arch.exception, 3);
    assert_eq!(dbg.arch.pc, 0x100000);
    assert_eq!(dbg.arch.dr6, 0xffff0ff0);
    assert_eq!(dbg.arch.dr7, 0x400);
}

#[test]
fn internal_error_decodes_all_data_words() {
    let mut page = empty_page();
    put_u32(&mut page, 8, 17); // InternalError
    put_u32(&mut page, 32, 1); // suberror
    put_u32(&mut page, 36, 16); // ndata
    for i in 0..16 {
        put_u64(&mut page, 40 + 8 * i, i as u64);
    }
    let run = Run::from_page_bytes(&page).unwrap();
    let internal = run.internal().unwrap();
    assert_eq!(internal.suberror, 1);
    assert_eq!(internal.ndata, 16);
    assert_eq!(internal.data, (0..16).collect::<Vec<u64>>());
}

#[test]
fn system_event_and_tpr_access_decode() {
    let mut page = empty_page();
    put_u32(&mut page, 8, 24); // SystemEvent
    put_u32(&mut page, 32, 2); // event type
    put_u64(&mut page, 40, 5); // flags
    let run = Run::from_page_bytes(&page).unwrap();
    let ev = run.system_event().unwrap();
    assert_eq!(ev._type, 2);
    assert_eq!(ev.flags, 5);

    put_u32(&mut page, 8, 12); // TprAccess
    put_u64(&mut page, 32, 0x1000);
    put_u32(&mut page, 40, 1);
    let run = Run::from_page_bytes(&page).unwrap();
    let tpr = run.tpr_access().unwrap();
    assert_eq!(tpr.rip, 0x1000);
    assert_eq!(tpr.is_write, 1);
}

#[test]
fn run_surfaces_the_os_error() {
    let vcpu = Vcpu::attach(VcpuTicket { index: 0, over_recommended: false }, 7);
    let page = empty_page();
    assert_eq!(vcpu.run(-1, 4, &page).unwrap_err(), KvmError::Os(4));
}

#[test]
fn run_decodes_a_successful_exit() {
    let vcpu = Vcpu::attach(VcpuTicket { index: 0, over_recommended: false }, 7);
    let mut page = empty_page();
    put_u32(&mut page, 8, 5); // Hlt
    let run = vcpu.run(0, 0, &page).unwrap();
    assert_eq!(run.exit_reason, Exit::Hlt);
}

#[test]
fn run_refuses_an_unknown_discriminant() {
    let vcpu = Vcpu::attach(VcpuTicket { index: 0, over_recommended: false }, 7);
    let mut page = empty_page();
    put_u32(&mut page, 8, 999);
    assert_eq!(vcpu.run(0, 0, &page).unwrap_err(), KvmError::Unknown);
}
