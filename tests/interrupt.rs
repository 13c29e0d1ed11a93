use riscv::interrupt::{disable, enable, free};
use riscv::register::{Csr, HostCsr, Mstatus, StatusRegister, MIE};

fn read_mie<R: StatusRegister>(csr: &R) -> bool {
    csr.read().mie()
}

#[test]
fn enabled_section_disables_body_and_restores() {
    let mut csr = Csr::new(MIE);
    let r = free(&mut csr, |_cs, c| {
        assert!(!read_mie(c));
        42
    });
    assert_eq!(r, 42);
    assert!(read_mie(&csr));
}

#[test]
fn disabled_section_stays_disabled() {
    let mut csr = Csr::new(0);
    let r = free(&mut csr, |_cs, c| {
        assert!(!read_mie(c));
        7
    });
    assert_eq!(r, 7);
    assert!(!read_mie(&csr));
}

#[test]
fn nested_sections_restore_outer_state() {
    let mut csr = Csr::new(MIE);
    let r = free(&mut csr, |_, outer| {
        let inner = free(outer, |_, c| {
            assert!(!read_mie(c));
            "inner"
        });
        assert!(!read_mie(outer));
        inner
    });
    assert_eq!(r, "inner");
    assert!(read_mie(&csr));
}

#[test]
fn repeated_sections_keep_counter_and_state() {
    let mut csr = Csr::new(MIE);
    let mut counter = 0u32;
    for _ in 0..3 {
        free(&mut csr, |_, _| {
            counter += 1;
        });
    }
    assert_eq!(counter, 3);
    assert!(read_mie(&csr));
}

#[test]
fn host_section_leaves_simulated_register() {
    let mut csr = HostCsr::new(MIE);
    let mut runs = 0u32;
    free(&mut csr, |_, _| {
        runs += 1;
    });
    assert_eq!(runs, 1);
    assert!(read_mie(&csr));
    assert_eq!(csr.read().bits(), MIE);
}

#[test]
fn body_reads_mie_cleared_whatever_the_entry_state() {
    let mut on = Csr::new(MIE);
    assert!(!free(&mut on, |_, c| read_mie(c)));
    let mut off = Csr::new(0);
    assert!(!free(&mut off, |_, c| read_mie(c)));
}

#[test]
fn section_returns_body_value_unchanged() {
    let mut csr = Csr::new(MIE | 0x1800);
    let v = free(&mut csr, |_, _| vec![1u8, 2, 3]);
    assert_eq!(v, vec![1u8, 2, 3]);
    assert_eq!(csr.read().bits(), MIE | 0x1800);
}

#[test]
fn other_bits_survive_a_section() {
    let mut csr = Csr::new(0x1800 | 0x80);
    free(&mut csr, |_, c| {
        assert_eq!(c.read().bits(), 0x1880);
    });
    assert_eq!(csr.read().bits(), 0x1880);
}

#[test]
fn disable_clears_only_mie() {
    let mut csr = Csr::new(0xffff_ffff);
    disable(&mut csr);
    assert_eq!(csr.read().bits(), 0xffff_fff7);
    disable(&mut csr);
    assert_eq!(csr.read().bits(), 0xffff_fff7);
}

#[test]
fn enable_sets_only_mie() {
    let mut csr = Csr::new(0x1800);
    enable(&mut csr);
    assert_eq!(csr.read().bits(), 0x1808);
    assert!(read_mie(&csr));
}

#[test]
fn host_disable_and_enable_are_no_ops() {
    let mut on = HostCsr::new(MIE);
    disable(&mut on);
    assert_eq!(on.read().bits(), MIE);
    let mut off = HostCsr::new(0);
    enable(&mut off);
    assert_eq!(off.read().bits(), 0);
}

#[test]
fn host_section_body_sees_entry_state() {
    let mut csr = HostCsr::new(0);
    assert!(!free(&mut csr, |_, c| read_mie(c)));
    let mut csr = HostCsr::new(MIE);
    assert!(free(&mut csr, |_, c| read_mie(c)));
}

#[test]
fn mstatus_mie_reads_bit_three() {
    assert!(Mstatus::from_bits(0x8).mie());
    assert!(!Mstatus::from_bits(0x7).mie());
    assert!(!Mstatus::from_bits(0).mie());
    assert_eq!(Mstatus::from_bits(0x1888).bits(), 0x1888);
}
