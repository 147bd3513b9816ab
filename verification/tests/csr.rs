use rv32_core::csr::{Cause, Csr, MISA};
use rv32_core::state::CoreState;

#[test]
fn get_csr_resolves_every_address_of_the_core() {
    assert_eq!(Csr::get_csr(0xF11), Some(Csr::MVendorId));
    assert_eq!(Csr::get_csr(0xF12), Some(Csr::MArchId));
    assert_eq!(Csr::get_csr(0xF13), Some(Csr::MImpId));
    assert_eq!(Csr::get_csr(0xF14), Some(Csr::MHartId));
    assert_eq!(Csr::get_csr(0xF15), Some(Csr::MConfigPtr));
    assert_eq!(Csr::get_csr(0x300), Some(Csr::MStatus));
    assert_eq!(Csr::get_csr(0x301), Some(Csr::MIsa));
    assert_eq!(Csr::get_csr(0x304), Some(Csr::MIe));
    assert_eq!(Csr::get_csr(0x305), Some(Csr::MTvec));
    assert_eq!(Csr::get_csr(0x340), Some(Csr::MScratch));
    assert_eq!(Csr::get_csr(0x341), Some(Csr::MEpc));
    assert_eq!(Csr::get_csr(0x342), Some(Csr::MCause));
    assert_eq!(Csr::get_csr(0x343), Some(Csr::MTVal));
    assert_eq!(Csr::get_csr(0x344), Some(Csr::MIp));
}

#[test]
fn get_csr_knows_no_other_address() {
    let known = [
        0xF11, 0xF12, 0xF13, 0xF14, 0xF15, 0x300, 0x301, 0x304, 0x305, 0x340, 0x341, 0x342,
        0x343, 0x344,
    ];
    let mut found = 0;
    for address in 0..=u16::MAX {
        match Csr::get_csr(address) {
            Some(_) => {
                assert!(known.contains(&address));
                found += 1;
            }
            None => assert!(!known.contains(&address)),
        }
    }
    assert_eq!(found, 14);
}

#[test]
fn cause_values_are_the_architectural_ones() {
    assert_eq!(CoreState::get_cause_value(&Cause::InstructionAddressMisaligned), 0);
    assert_eq!(CoreState::get_cause_value(&Cause::InstructionAccessFault), 1);
    assert_eq!(CoreState::get_cause_value(&Cause::IllegalInstruction), 2);
    assert_eq!(CoreState::get_cause_value(&Cause::Breakpoint), 3);
    assert_eq!(CoreState::get_cause_value(&Cause::LoadAddressMisaligned), 4);
    assert_eq!(CoreState::get_cause_value(&Cause::LoadAccessFault), 5);
    assert_eq!(CoreState::get_cause_value(&Cause::StoreAmoAddressMisaligned), 6);
    assert_eq!(CoreState::get_cause_value(&Cause::StoreAmoAccessFault), 7);
    assert_eq!(CoreState::get_cause_value(&Cause::EnvironmentCall), 11);
    assert_eq!(CoreState::get_cause_value(&Cause::SoftwareCheck), 18);
    assert_eq!(CoreState::get_cause_value(&Cause::HardwareError), 19);
}

#[test]
fn a_new_machine_reads_zero_but_for_the_constants() {
    let state = CoreState::new(0x80);
    assert_eq!(state.pc(), 0x80);
    for index in 0..32 {
        assert_eq!(state.reg(index), 0);
    }
    assert_eq!(state.get_csr_value(&Csr::MIsa), 0x4000_1100);
    assert_eq!(MISA, (1 << 30) | (1 << 8) | (1 << 12));
    assert_eq!(state.get_csr_value(&Csr::MStatus), 3 << 11);
    for csr in [
        Csr::MVendorId,
        Csr::MArchId,
        Csr::MImpId,
        Csr::MHartId,
        Csr::MConfigPtr,
        Csr::MIe,
        Csr::MIp,
        Csr::MTvec,
        Csr::MScratch,
        Csr::MEpc,
        Csr::MCause,
        Csr::MTVal,
    ] {
        assert_eq!(state.get_csr_value(&csr), 0);
    }
}

#[test]
fn plain_registers_keep_what_is_written() {
    let mut state = CoreState::new(0);
    state.set_csr_value(&Csr::MTvec, 0x1111_1111);
    state.set_csr_value(&Csr::MScratch, 0x2222_2222);
    state.set_csr_value(&Csr::MEpc, 0x3333_3333);
    state.set_csr_value(&Csr::MTVal, 0xFFFF_FFFF);
    assert_eq!(state.get_csr_value(&Csr::MTvec), 0x1111_1111);
    assert_eq!(state.get_csr_value(&Csr::MScratch), 0x2222_2222);
    assert_eq!(state.get_csr_value(&Csr::MEpc), 0x3333_3333);
    assert_eq!(state.get_csr_value(&Csr::MTVal), 0xFFFF_FFFF);
    assert_eq!(state.get_csr_value(&Csr::MStatus), 0x1800);
    assert_eq!(state.pc(), 0);
}

#[test]
fn mstatus_holds_two_flags() {
    let mut state = CoreState::new(0);
    state.set_csr_value(&Csr::MStatus, 0x8);
    assert_eq!(state.get_csr_value(&Csr::MStatus), 0x1808);
    state.set_csr_value(&Csr::MStatus, 0x80);
    assert_eq!(state.get_csr_value(&Csr::MStatus), 0x1880);
    state.set_csr_value(&Csr::MStatus, 0xFFFF_FFFF);
    assert_eq!(state.get_csr_value(&Csr::MStatus), 0x1888);
    state.set_csr_value(&Csr::MStatus, 0xFFFF_FF77);
    assert_eq!(state.get_csr_value(&Csr::MStatus), 0x1800);
}

#[test]
fn writes_to_read_only_registers_are_discarded() {
    let mut state = CoreState::new(0);
    for csr in [
        Csr::MIsa,
        Csr::MVendorId,
        Csr::MArchId,
        Csr::MImpId,
        Csr::MHartId,
        Csr::MConfigPtr,
        Csr::MIe,
        Csr::MIp,
        Csr::MCause,
    ] {
        let before = state.get_csr_value(&csr);
        state.set_csr_value(&csr, 0xFFFF_FFFF);
        assert_eq!(state.get_csr_value(&csr), before);
    }
    assert_eq!(state.get_csr_value(&Csr::MStatus), 0x1800);
}

#[test]
fn trap_records_where_and_why() {
    let mut state = CoreState::new(0x44);
    state.set_csr_value(&Csr::MTvec, 0x700);
    state.set_csr_value(&Csr::MStatus, 0x88);
    state.trap(Cause::HardwareError, 0xABCD);
    assert_eq!(state.pc(), 0x700);
    assert_eq!(state.get_csr_value(&Csr::MEpc), 0x44);
    assert_eq!(state.get_csr_value(&Csr::MCause), 19);
    assert_eq!(state.get_csr_value(&Csr::MTVal), 0xABCD);
    assert_eq!(state.get_csr_value(&Csr::MTvec), 0x700);
    assert_eq!(state.get_csr_value(&Csr::MStatus), 0x1888);
    state.trap(Cause::SoftwareCheck, 1);
    assert_eq!(state.get_csr_value(&Csr::MEpc), 0x700);
    assert_eq!(state.get_csr_value(&Csr::MCause), 18);
}

#[test]
fn reset_clears_the_program_counter_and_the_flags() {
    let mut state = CoreState::new(0x40);
    assert_eq!(state.load_bytes(0x40, &0x0050_0093u32.to_le_bytes()), Ok(()));
    state.execute();
    state.set_csr_value(&Csr::MStatus, 0x88);
    state.set_csr_value(&Csr::MTvec, 0x10);
    state.set_csr_value(&Csr::MScratch, 0x20);
    state.set_csr_value(&Csr::MEpc, 0x30);
    state.set_csr_value(&Csr::MTVal, 0x50);
    state.reset();
    assert_eq!(state.pc(), 0);
    assert_eq!(state.get_csr_value(&Csr::MStatus), 0x1800);
    assert_eq!(state.reg(1), 5);
    assert_eq!(state.memory(0x40, 4), Some(vec![0x93, 0x00, 0x50, 0x00]));
    assert_eq!(state.get_csr_value(&Csr::MTvec), 0x10);
    assert_eq!(state.get_csr_value(&Csr::MScratch), 0x20);
    assert_eq!(state.get_csr_value(&Csr::MEpc), 0x30);
    assert_eq!(state.get_csr_value(&Csr::MTVal), 0x50);
}

#[test]
fn read_and_write_by_address() {
    let mut state = CoreState::new(0);
    assert_eq!(state.read_csr(0x301), Some(0x4000_1100));
    assert_eq!(state.read_csr(0x300), Some(0x1800));
    assert_eq!(state.read_csr(0x340), Some(0));
    assert!(state.write_csr(0x340, 0xABCD_EF01));
    assert_eq!(state.read_csr(0x340), Some(0xABCD_EF01));
    assert!(state.write_csr(0x300, 0x8));
    assert_eq!(state.read_csr(0x300), Some(0x1808));
    assert!(state.write_csr(0xF14, 7));
    assert_eq!(state.read_csr(0xF14), Some(0));
}

#[test]
fn unmapped_addresses_read_as_absent() {
    let mut state = CoreState::new(0);
    for address in [0x000, 0x302, 0x303, 0x345, 0x7C0, 0xC00, 0xF10, 0xF16, 0xFFF, 0x1300] {
        assert_eq!(state.read_csr(address), None);
        assert!(!state.write_csr(address, 0xFFFF_FFFF));
    }
    assert_eq!(state.read_csr(0x300), Some(0x1800));
    assert_eq!(state.read_csr(0x305), Some(0));
}
