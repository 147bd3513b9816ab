use rv32_core::memory::{MemoryFault, OutOfMemory, Width};
use rv32_core::state::{CoreState, MEMORY_SIZE};

#[test]
fn memory_has_4096_bytes() {
    assert_eq!(MEMORY_SIZE, 4096);
    let state = CoreState::new(0);
    assert_eq!(state.memory(0, MEMORY_SIZE), Some(vec![0; MEMORY_SIZE]));
}

#[test]
fn width_sizes() {
    assert_eq!(Width::Byte.size(), 1);
    assert_eq!(Width::Half.size(), 2);
    assert_eq!(Width::Word.size(), 4);
}

#[test]
fn read_is_little_endian() {
    let mut state = CoreState::new(0);
    assert_eq!(state.load_bytes(0x10, &[0x78, 0x56, 0x34, 0x12, 0xFF, 0x80]), Ok(()));
    assert_eq!(state.read(0x10, Width::Word), Ok(0x1234_5678));
    assert_eq!(state.read(0x10, Width::Half), Ok(0x5678));
    assert_eq!(state.read(0x12, Width::Half), Ok(0x1234));
    assert_eq!(state.read(0x11, Width::Byte), Ok(0x56));
    assert_eq!(state.read(0x14, Width::Half), Ok(0x80FF));
    assert_eq!(state.read(0x14, Width::Byte), Ok(0xFF));
    assert_eq!(state.read(0x14, Width::Word), Ok(0x0000_80FF));
}

#[test]
fn write_is_little_endian_and_keeps_the_low_bytes() {
    let mut state = CoreState::new(0);
    assert_eq!(state.write(0x20, Width::Word, 0xA1B2_C3D4), Ok(()));
    assert_eq!(state.memory(0x20, 4), Some(vec![0xD4, 0xC3, 0xB2, 0xA1]));
    assert_eq!(state.write(0x24, Width::Half, 0xA1B2_C3D4), Ok(()));
    assert_eq!(state.memory(0x24, 4), Some(vec![0xD4, 0xC3, 0, 0]));
    assert_eq!(state.write(0x29, Width::Byte, 0xA1B2_C3D4), Ok(()));
    assert_eq!(state.memory(0x28, 4), Some(vec![0, 0xD4, 0, 0]));
    assert_eq!(state.read(0x20, Width::Word), Ok(0xA1B2_C3D4));
    assert_eq!(state.read(0x24, Width::Half), Ok(0xC3D4));
    assert_eq!(state.read(0x29, Width::Byte), Ok(0xD4));
}

#[test]
fn misaligned_accesses_fail() {
    let mut state = CoreState::new(0);
    for address in [1, 2, 3, 0x101, 0xFFFF_FFFE] {
        assert_eq!(state.read(address, Width::Word), Err(MemoryFault::Misaligned));
        assert_eq!(state.write(address, Width::Word, 7), Err(MemoryFault::Misaligned));
    }
    assert_eq!(state.read(1, Width::Half), Err(MemoryFault::Misaligned));
    assert_eq!(state.write(0xFFFF_FFFF, Width::Half, 7), Err(MemoryFault::Misaligned));
    assert_eq!(state.read(1, Width::Byte), Ok(0));
    assert_eq!(state.memory(0, 8), Some(vec![0; 8]));
}

#[test]
fn accesses_outside_memory_fail() {
    let mut state = CoreState::new(0);
    let top = MEMORY_SIZE as u32;
    assert_eq!(state.read(top, Width::Byte), Err(MemoryFault::OutOfRange));
    assert_eq!(state.read(top, Width::Half), Err(MemoryFault::OutOfRange));
    assert_eq!(state.read(top, Width::Word), Err(MemoryFault::OutOfRange));
    assert_eq!(state.read(0xFFFF_FFFC, Width::Word), Err(MemoryFault::OutOfRange));
    assert_eq!(state.read(0xFFFF_FFFF, Width::Byte), Err(MemoryFault::OutOfRange));
    assert_eq!(state.write(top, Width::Byte, 1), Err(MemoryFault::OutOfRange));
    assert_eq!(state.write(0x8000_0000, Width::Word, 1), Err(MemoryFault::OutOfRange));
    assert_eq!(state.read(top - 1, Width::Byte), Ok(0));
    assert_eq!(state.read(top - 2, Width::Half), Ok(0));
    assert_eq!(state.read(top - 4, Width::Word), Ok(0));
    assert_eq!(state.write(top - 4, Width::Word, 0xFFFF_FFFF), Ok(()));
    assert_eq!(state.memory(MEMORY_SIZE - 4, 4), Some(vec![0xFF; 4]));
}

#[test]
fn load_bytes_copies_at_the_offset() {
    let mut state = CoreState::new(0);
    assert_eq!(state.load_bytes(3, &[1, 2, 3]), Ok(()));
    assert_eq!(state.memory(0, 8), Some(vec![0, 0, 0, 1, 2, 3, 0, 0]));
    assert_eq!(state.load_bytes(4, &[9]), Ok(()));
    assert_eq!(state.memory(0, 8), Some(vec![0, 0, 0, 1, 9, 3, 0, 0]));
    assert_eq!(state.load_bytes(MEMORY_SIZE - 2, &[7, 8]), Ok(()));
    assert_eq!(state.memory(MEMORY_SIZE - 2, 2), Some(vec![7, 8]));
    assert_eq!(state.load_bytes(MEMORY_SIZE, &[]), Ok(()));
    assert_eq!(state.load_bytes(0, &[]), Ok(()));
}

#[test]
fn load_bytes_refuses_what_does_not_fit() {
    let mut state = CoreState::new(0);
    assert_eq!(state.load_bytes(MEMORY_SIZE - 1, &[1, 2]), Err(OutOfMemory));
    assert_eq!(state.memory(MEMORY_SIZE - 1, 1), Some(vec![0]));
    assert_eq!(state.load_bytes(MEMORY_SIZE + 1, &[]), Err(OutOfMemory));
    assert_eq!(state.load_bytes(usize::MAX, &[1]), Err(OutOfMemory));
    assert_eq!(state.load_bytes(0, &vec![1; MEMORY_SIZE + 1]), Err(OutOfMemory));
    assert_eq!(state.memory(0, MEMORY_SIZE), Some(vec![0; MEMORY_SIZE]));
}

#[test]
fn memory_ranges() {
    let mut state = CoreState::new(0);
    assert_eq!(state.load_bytes(0x100, &[1, 2, 3, 4]), Ok(()));
    assert_eq!(state.memory(0x101, 2), Some(vec![2, 3]));
    assert_eq!(state.memory(0x101, 0), Some(vec![]));
    assert_eq!(state.memory(MEMORY_SIZE, 0), Some(vec![]));
    assert_eq!(state.memory(MEMORY_SIZE, 1), None);
    assert_eq!(state.memory(MEMORY_SIZE + 1, 0), None);
    assert_eq!(state.memory(0, MEMORY_SIZE + 1), None);
    assert_eq!(state.memory(usize::MAX, 2), None);
    assert_eq!(state.memory(2, usize::MAX), None);
}
