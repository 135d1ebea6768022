//! The feature-identification table: allocation, the buffer layout, and the
//! size negotiation's decisions.

use kvm::cpuid::cpuid_step;
use kvm::cpuid::CPUID2_HEADER_BYTES;
use kvm::cpuid::CPUID_ENTRY2_BYTES;
use kvm::Cpuid2;
use kvm::CpuidEntry2;
use kvm::CpuidHandle;
use kvm::CpuidStep;
use kvm::Vcpu;
use kvm::VcpuTicket;
use kvm::CPUID_ENTRIES;
use kvm::E2BIG;
use kvm::ENOMEM;

fn entry(function: u32, eax: u32) -> CpuidEntry2 {
    let mut e = CpuidEntry2::default();
    e.function = function;
    e.eax = eax;
    e
}

#[test]
fn new_handle_is_zeroed_and_sized() {
    let h = CpuidHandle::new(4);
    assert_eq!(h.cpuid.nent, 4);
    assert_eq!(h.cpuid.entries.len(), 4);
    for e in &h.cpuid.entries {
        assert_eq!(*e, CpuidEntry2::default());
    }
    assert_eq!(h.cpuid.valid_entries().len(), 4);
}

#[test]
fn table_round_trips_through_the_buffer() {
    let table = Cpuid2 { nent: 2, entries: vec![entry(0, 0xd), entry(1, 0x663), entry(2, 0)] };
    let buf = table.to_bytes();
    assert_eq!(buf.len(), CPUID2_HEADER_BYTES + 3 * CPUID_ENTRY2_BYTES);
    assert_eq!(&buf[0..4], &[2, 0, 0, 0]); // nent, little-endian
    assert_eq!(&buf[8..12], &[0, 0, 0, 0]); // first entry's function
    assert_eq!(&buf[20..24], &[0xd, 0, 0, 0]); // first entry's eax at 8+12

    let back = Cpuid2::from_bytes(&buf, 3);
    assert_eq!(back.nent, 2);
    assert_eq!(back.entries, table.entries);
    assert_eq!(back.valid_entries(), &table.entries[0..2]);
}

#[test]
fn set_cpuid2_lays_out_the_handle() {
    let vcpu = Vcpu::attach(VcpuTicket { index: 0, over_recommended: false }, 7);
    let mut h = CpuidHandle::new(2);
    h.cpuid.entries[0] = entry(0, 0xd);
    let buf = vcpu.set_cpuid2(&h);
    assert_eq!(buf.len(), CPUID2_HEADER_BYTES + 2 * CPUID_ENTRY2_BYTES);
    assert_eq!(&buf[0..4], &[2, 0, 0, 0]);
    assert_eq!(&buf[20..24], &[0xd, 0, 0, 0]);
}

// First guess sufficient: the first query succeeds and the negotiation is
// over with the buffer's own count.
#[test]
fn negotiation_ends_on_first_success() {
    assert_eq!(cpuid_step(CPUID_ENTRIES, 0, 0, 0), CpuidStep::Done);
}

// First guess too small, reported by the "buffer too large for one
// transfer" error: the guess doubles.
#[test]
fn negotiation_doubles_on_e2big() {
    assert_eq!(cpuid_step(64, -1, E2BIG, 0), CpuidStep::Retry(128));
    assert_eq!(cpuid_step(128, -1, E2BIG, 0), CpuidStep::Retry(256));
}

// First guess too small, reported by the "too few entries" error: the
// count the facility wrote back is adopted.
#[test]
fn negotiation_adopts_the_reported_count_on_enomem() {
    assert_eq!(cpuid_step(64, -1, ENOMEM, 80), CpuidStep::Retry(80));
}

#[test]
fn negotiation_surfaces_other_errors() {
    assert_eq!(cpuid_step(64, -1, 22, 0), CpuidStep::Fail(22));
}

// A negotiation as the facility would drive it when it has 80 entries to
// report: the count written back is adopted, the retried query succeeds,
// and the returned table's count is the facility's report.
#[test]
fn negotiation_converges_to_the_kernel_report() {
    let wanted: u32 = 80;
    let mut guess = CPUID_ENTRIES;
    let mut rounds = 0;
    let table = loop {
        rounds += 1;
        assert!(rounds <= 3);
        let h = CpuidHandle::new(guess);
        let mut buf = h.cpuid.to_bytes();
        // What the facility does to the buffer for this capacity:
        let (ret, err) = if guess < wanted {
            buf[0..4].copy_from_slice(&wanted.to_le_bytes());
            (-1, ENOMEM)
        } else {
            buf[0..4].copy_from_slice(&wanted.to_le_bytes());
            (0, 0)
        };
        let reported = u32::from_le_bytes([buf[0], buf[1], buf[2], buf[3]]);
        match cpuid_step(guess, ret, err, reported) {
            CpuidStep::Done => break Cpuid2::from_bytes(&buf, guess as usize),
            CpuidStep::Retry(next) => guess = next,
            CpuidStep::Fail(code) => panic!("unexpected failure {code}"),
        }
    };
    assert_eq!(table.nent, wanted);
    assert_eq!(table.entries.len(), wanted as usize);
    assert!(table.nent as usize <= table.entries.len());
}
