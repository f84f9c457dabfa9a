use mos6510_core::Memory;
use mos6510_core::cpu::Cpu;
use mos6510_core::opcode::decode;

/// Builds a CPU whose reset vector points at `start`, with `program` laid
/// out from `start` and `extra` bytes poked elsewhere, already reset.
fn cpu_with(start: u16, program: &[u8], extra: &[(u16, u8)]) -> Cpu {
    let mut m = Memory::new();
    m.write(0xFFFC, (start & 0xFF) as u8);
    m.write(0xFFFD, (start >> 8) as u8);
    for (i, b) in program.iter().enumerate() {
        m.write(start.wrapping_add(i as u16), *b);
    }
    for &(a, v) in extra {
        m.write(a, v);
    }
    let mut cpu = Cpu::new(m);
    cpu.reset();
    cpu
}

#[test]
fn reset_loads_vector_and_sets_interrupt_disable() {
    let cpu = cpu_with(0x1234, &[], &[]);
    let s = cpu.snapshot();
    assert_eq!(s.pc, 0x1234);
    assert!(s.flags.i);
    assert_eq!(s.sp, 0xFD);
    assert!(!s.halted);
    assert_eq!(s.a, 0);
    assert_eq!(s.x, 0);
    assert_eq!(s.y, 0);
}

#[test]
fn c64_reset_routine() {
    // Reset vector 0xE2, 0xFC; at 0xFCE2: LDX #$FF; SEI; TXS; CLD.
    let mut cpu = cpu_with(0xFCE2, &[0xA2, 0xFF, 0x78, 0x9A, 0xD8], &[]);
    cpu.step();
    cpu.step();
    cpu.step();
    cpu.step();
    let s = cpu.snapshot();
    assert_eq!(s.x, 0xFF);
    assert!(s.flags.i);
    assert_eq!(s.sp, 0xFF);
    assert!(!s.flags.d);
    assert_eq!(s.pc, 0xFCE7);
}

#[test]
fn zero_page_indexed_wraps_in_page_zero() {
    // LDX #$02; LDA $FF,X -> effective address 0x01, not 0x0101.
    let mut cpu = cpu_with(0x0600, &[0xA2, 0x02, 0xB5, 0xFF], &[(0x0001, 42), (0x0101, 99)]);
    cpu.step();
    cpu.step();
    assert_eq!(cpu.snapshot().a, 42);
}

#[test]
fn indirect_jump_page_wrap_bug() {
    // JMP ($10FF): low byte from 0x10FF, high byte from 0x1000, not 0x1100.
    let mut cpu = cpu_with(
        0x0600,
        &[0x6C, 0xFF, 0x10],
        &[(0x10FF, 0x34), (0x1000, 0x12), (0x1100, 0x99)],
    );
    let cycles = cpu.step();
    assert_eq!(cpu.snapshot().pc, 0x1234);
    assert_eq!(cycles, 5);
}

#[test]
fn halt_suspends_and_resume_continues_exactly() {
    // LDA #$07; LDA #$09.
    let mut cpu = cpu_with(0x0600, &[0xA9, 0x07, 0xA9, 0x09], &[]);
    cpu.step();
    let before = cpu.snapshot();
    assert_eq!(before.a, 0x07);
    cpu.halt_resume();
    assert_eq!(cpu.step(), 0);
    assert_eq!(cpu.step(), 0);
    assert_eq!(cpu.step(), 0);
    let during = cpu.snapshot();
    assert_eq!(during.a, before.a);
    assert_eq!(during.x, before.x);
    assert_eq!(during.y, before.y);
    assert_eq!(during.pc, before.pc);
    assert_eq!(during.sp, before.sp);
    assert_eq!(during.flags, before.flags);
    assert!(during.halted);
    cpu.halt_resume();
    assert!(!cpu.snapshot().halted);
    assert_eq!(cpu.snapshot().pc, before.pc);
    cpu.step();
    assert_eq!(cpu.snapshot().a, 0x09);
    assert_eq!(cpu.snapshot().pc, 0x0604);
}

#[test]
fn load_flags_for_all_byte_values() {
    for v in 0..=255u8 {
        // LDA #v; LDX #v; LDY #v.
        let mut cpu = cpu_with(0x0600, &[0xA9, v, 0xA2, v, 0xA0, v], &[]);
        cpu.step();
        let s = cpu.snapshot();
        assert_eq!(s.a, v);
        assert_eq!(s.flags.z, v == 0);
        assert_eq!(s.flags.n, v >= 0x80);
        cpu.step();
        let s = cpu.snapshot();
        assert_eq!(s.x, v);
        assert_eq!(s.flags.z, v == 0);
        assert_eq!(s.flags.n, v >= 0x80);
        cpu.step();
        let s = cpu.snapshot();
        assert_eq!(s.y, v);
        assert_eq!(s.flags.z, v == 0);
        assert_eq!(s.flags.n, v >= 0x80);
    }
}

#[test]
fn page_crossing_load_costs_one_extra_cycle() {
    // LDX #$01; LDA $20FF,X crosses into page 0x21: 5 cycles.
    let mut crossing = cpu_with(0x0600, &[0xA2, 0x01, 0xBD, 0xFF, 0x20], &[(0x2100, 7)]);
    crossing.step();
    assert_eq!(crossing.step(), 5);
    assert_eq!(crossing.snapshot().a, 7);

    // LDX #$01; LDA $2000,X stays in page 0x20: 4 cycles.
    let mut same_page = cpu_with(0x0600, &[0xA2, 0x01, 0xBD, 0x00, 0x20], &[(0x2001, 8)]);
    same_page.step();
    assert_eq!(same_page.step(), 4);
    assert_eq!(same_page.snapshot().a, 8);
}

#[test]
fn undocumented_opcode_halts_at_zero_cycles() {
    let mut documented: u32 = 0;
    for op in 0..=255u8 {
        if decode(op).is_some() {
            documented += 1;
        } else {
            let mut cpu = cpu_with(0x0600, &[op], &[]);
            let before = cpu.snapshot();
            assert_eq!(cpu.step(), 0);
            let s = cpu.snapshot();
            assert!(s.halted);
            assert_eq!(s.pc, 0x0601);
            assert_eq!(s.a, before.a);
            assert_eq!(s.x, before.x);
            assert_eq!(s.sp, before.sp);
            assert_eq!(s.flags, before.flags);
            // Halted stays halted until resumed or reset.
            assert_eq!(cpu.step(), 0);
            assert_eq!(cpu.snapshot().pc, 0x0601);
        }
    }
    assert_eq!(documented, 151);
}

#[test]
fn step_before_reset_starts_at_default_program_counter() {
    let mut m = Memory::new();
    m.write(0x0000, 0xA9); // LDA #$55 at the default program counter 0.
    m.write(0x0001, 0x55);
    let mut cpu = Cpu::new(m);
    cpu.step();
    let s = cpu.snapshot();
    assert_eq!(s.a, 0x55);
    assert_eq!(s.pc, 0x0002);
}

#[test]
fn maskable_interrupt_respects_interrupt_disable() {
    // SEI leaves Interrupt-Disable set after reset; CLI clears it.
    let mut cpu = cpu_with(0x0600, &[0x58], &[(0xFFFE, 0x00), (0xFFFF, 0x80)]);
    cpu.interrupt();
    assert_eq!(cpu.snapshot().pc, 0x0600); // suppressed while disabled
    cpu.step(); // CLI
    cpu.interrupt();
    let s = cpu.snapshot();
    assert_eq!(s.pc, 0x8000);
    assert!(s.flags.i);
    assert_eq!(s.sp, 0xFA);
    // Pushed: return address 0x0601 then the status byte with bit 5 set
    // and bit 4 clear (hardware interrupt).
    assert_eq!(cpu.memory().read(0x01FD), 0x06);
    assert_eq!(cpu.memory().read(0x01FC), 0x01);
    let pushed = cpu.memory().read(0x01FB);
    assert_eq!(pushed & 0x20, 0x20);
    assert_eq!(pushed & 0x10, 0x00);
}

#[test]
fn non_maskable_interrupt_bypasses_interrupt_disable() {
    let mut cpu = cpu_with(0x0600, &[], &[(0xFFFE, 0x00), (0xFFFF, 0x90)]);
    assert!(cpu.snapshot().flags.i);
    cpu.non_maskable_interrupt();
    assert_eq!(cpu.snapshot().pc, 0x9000);
    assert_eq!(cpu.snapshot().sp, 0xFA);
}

#[test]
fn interrupts_are_noops_while_halted() {
    let mut cpu = cpu_with(0x0600, &[0x58], &[(0xFFFE, 0x00), (0xFFFF, 0x80)]);
    cpu.step(); // CLI
    cpu.halt_resume();
    cpu.interrupt();
    cpu.non_maskable_interrupt();
    assert_eq!(cpu.snapshot().pc, 0x0601);
    assert_eq!(cpu.snapshot().sp, 0xFD);
}

#[test]
fn brk_pushes_and_enters_interrupt_vector() {
    let mut cpu = cpu_with(0x0600, &[0x00], &[(0xFFFE, 0x48), (0xFFFF, 0xFF)]);
    let cycles = cpu.step();
    assert_eq!(cycles, 7);
    let s = cpu.snapshot();
    assert_eq!(s.pc, 0xFF48);
    assert!(s.flags.i);
    // BRK pushes the address after its padding byte: 0x0602.
    assert_eq!(cpu.memory().read(0x01FD), 0x06);
    assert_eq!(cpu.memory().read(0x01FC), 0x02);
    // The pushed status byte has the unused bit and the break bit set.
    let pushed = cpu.memory().read(0x01FB);
    assert_eq!(pushed & 0x30, 0x30);
}

#[test]
fn rti_restores_flags_and_program_counter() {
    // BRK jumps to 0xFF48 where RTI returns; carry set beforehand via SEC.
    let mut cpu = cpu_with(
        0x0600,
        &[0x38, 0x00],
        &[(0xFFFE, 0x48), (0xFFFF, 0xFF), (0xFF48, 0x40)],
    );
    cpu.step(); // SEC
    cpu.step(); // BRK
    let cycles = cpu.step(); // RTI
    assert_eq!(cycles, 6);
    let s = cpu.snapshot();
    assert_eq!(s.pc, 0x0603);
    assert!(s.flags.c);
    assert_eq!(s.sp, 0xFD);
}
