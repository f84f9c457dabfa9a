use mos6510_core::Memory;

#[test]
fn memory_starts_zeroed() {
    let m = Memory::new();
    assert_eq!(m.read(0x0000), 0);
    assert_eq!(m.read(0x1234), 0);
    assert_eq!(m.read(0xFFFF), 0);
}

#[test]
fn memory_round_trip() {
    let mut m = Memory::new();
    let mut a: u32 = 0;
    while a < 0x10000 {
        let v = (a % 251) as u8;
        m.write(a as u16, v);
        assert_eq!(m.read(a as u16), v);
        a += 257;
    }
    m.write(0x0000, 0xAB);
    assert_eq!(m.read(0x0000), 0xAB);
    m.write(0xFFFF, 0xCD);
    assert_eq!(m.read(0xFFFF), 0xCD);
    // Overwriting is total.
    m.write(0xFFFF, 0x01);
    assert_eq!(m.read(0xFFFF), 0x01);
}

#[test]
fn reset_vector_is_little_endian() {
    let mut m = Memory::new();
    m.write(0xFFFC, 0xE2);
    m.write(0xFFFD, 0xFC);
    assert_eq!(m.get_reset_vector(), 0xFCE2);
}

#[test]
fn interrupt_vector_is_little_endian() {
    let mut m = Memory::new();
    m.write(0xFFFE, 0x48);
    m.write(0xFFFF, 0xFF);
    assert_eq!(m.get_interrupt_vector(), 0xFF48);
}
