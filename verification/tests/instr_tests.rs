use mos6510_core::Memory;
use mos6510_core::cpu::Cpu;

fn cpu_with(start: u16, program: &[u8], extra: &[(u16, u8)]) -> Cpu {
    let mut m = Memory::new();
    m.write(0xFFFC, (start & 0xFF) as u8);
    m.write(0xFFFD, (start >> 8) as u8);
    for (i, b) in program.iter().enumerate() {
        m.write(start.wrapping_add(i as u16), *b);
    }
    for &(a, v) in extra {
        m.write(a, v);
    }
    let mut cpu = Cpu::new(m);
    cpu.reset();
    cpu
}

fn run(cpu: &mut Cpu, steps: u32) {
    for _ in 0..steps {
        cpu.step();
    }
}

#[test]
fn adc_basic_and_carry_chain() {
    // LDA #$01; ADC #$01 -> 2, no carry.
    let mut cpu = cpu_with(0x0600, &[0xA9, 0x01, 0x69, 0x01], &[]);
    run(&mut cpu, 2);
    let s = cpu.snapshot();
    assert_eq!(s.a, 0x02);
    assert!(!s.flags.c);
    assert!(!s.flags.z);
    assert!(!s.flags.v);

    // SEC; LDA #$01; ADC #$01 -> 3 with carry-in consumed.
    let mut cpu = cpu_with(0x0600, &[0x38, 0xA9, 0x01, 0x69, 0x01], &[]);
    run(&mut cpu, 3);
    assert_eq!(cpu.snapshot().a, 0x03);
    assert!(!cpu.snapshot().flags.c);
}

#[test]
fn adc_sets_carry_zero_and_overflow() {
    // LDA #$FF; ADC #$01 -> 0x00, carry out, zero, no signed overflow.
    let mut cpu = cpu_with(0x0600, &[0xA9, 0xFF, 0x69, 0x01], &[]);
    run(&mut cpu, 2);
    let s = cpu.snapshot();
    assert_eq!(s.a, 0x00);
    assert!(s.flags.c);
    assert!(s.flags.z);
    assert!(!s.flags.v);

    // LDA #$7F; ADC #$01 -> 0x80: signed overflow, negative.
    let mut cpu = cpu_with(0x0600, &[0xA9, 0x7F, 0x69, 0x01], &[]);
    run(&mut cpu, 2);
    let s = cpu.snapshot();
    assert_eq!(s.a, 0x80);
    assert!(s.flags.v);
    assert!(s.flags.n);
    assert!(!s.flags.c);
}

#[test]
fn sbc_subtracts_with_borrow_semantics() {
    // SEC; LDA #$10; SBC #$05 -> 0x0B, carry still set (no borrow).
    let mut cpu = cpu_with(0x0600, &[0x38, 0xA9, 0x10, 0xE9, 0x05], &[]);
    run(&mut cpu, 3);
    let s = cpu.snapshot();
    assert_eq!(s.a, 0x0B);
    assert!(s.flags.c);

    // CLC; LDA #$05; SBC #$10 -> 0xF4 with borrow taken, carry clear.
    let mut cpu = cpu_with(0x0600, &[0x18, 0xA9, 0x05, 0xE9, 0x10], &[]);
    run(&mut cpu, 3);
    let s = cpu.snapshot();
    assert_eq!(s.a, 0xF4);
    assert!(!s.flags.c);
    assert!(s.flags.n);

    // SEC; LDA #$80; SBC #$01 -> 0x7F: signed overflow, positive result.
    let mut cpu = cpu_with(0x0600, &[0x38, 0xA9, 0x80, 0xE9, 0x01], &[]);
    run(&mut cpu, 3);
    let s = cpu.snapshot();
    assert_eq!(s.a, 0x7F);
    assert!(s.flags.v);
    assert!(!s.flags.n);
    assert!(s.flags.c);
}

#[test]
fn compare_sets_carry_zero_negative() {
    // LDA #$40; CMP #$40 -> equal: zero and carry.
    let mut cpu = cpu_with(0x0600, &[0xA9, 0x40, 0xC9, 0x40], &[]);
    run(&mut cpu, 2);
    let s = cpu.snapshot();
    assert!(s.flags.z);
    assert!(s.flags.c);
    assert!(!s.flags.n);
    assert_eq!(s.a, 0x40); // compare leaves the register alone

    // LDX #$10; CPX #$20 -> below: no carry, negative from 0xF0.
    let mut cpu = cpu_with(0x0600, &[0xA2, 0x10, 0xE0, 0x20], &[]);
    run(&mut cpu, 2);
    let s = cpu.snapshot();
    assert!(!s.flags.c);
    assert!(!s.flags.z);
    assert!(s.flags.n);

    // LDY #$30; CPY #$20 -> above: carry, not zero.
    let mut cpu = cpu_with(0x0600, &[0xA0, 0x30, 0xC0, 0x20], &[]);
    run(&mut cpu, 2);
    assert!(cpu.snapshot().flags.c);
    assert!(!cpu.snapshot().flags.z);
}

#[test]
fn logic_ops_and_bit_test() {
    // LDA #$F0; AND #$3C -> 0x30; ORA #$03 -> 0x33; EOR #$FF -> 0xCC.
    let mut cpu = cpu_with(0x0600, &[0xA9, 0xF0, 0x29, 0x3C, 0x09, 0x03, 0x49, 0xFF], &[]);
    run(&mut cpu, 2);
    assert_eq!(cpu.snapshot().a, 0x30);
    run(&mut cpu, 1);
    assert_eq!(cpu.snapshot().a, 0x33);
    run(&mut cpu, 1);
    assert_eq!(cpu.snapshot().a, 0xCC);
    assert!(cpu.snapshot().flags.n);

    // LDA #$01; BIT $10 where $10 holds 0xC0: zero (no common bit),
    // negative from bit 7, overflow from bit 6.
    let mut cpu = cpu_with(0x0600, &[0xA9, 0x01, 0x24, 0x10], &[(0x0010, 0xC0)]);
    run(&mut cpu, 2);
    let s = cpu.snapshot();
    assert!(s.flags.z);
    assert!(s.flags.n);
    assert!(s.flags.v);
    assert_eq!(s.a, 0x01);
}

#[test]
fn shifts_and_rotates() {
    // LDA #$81; ASL A -> 0x02, carry out of bit 7.
    let mut cpu = cpu_with(0x0600, &[0xA9, 0x81, 0x0A], &[]);
    run(&mut cpu, 2);
    assert_eq!(cpu.snapshot().a, 0x02);
    assert!(cpu.snapshot().flags.c);

    // LDA #$01; LSR A -> 0x00, carry out of bit 0, zero.
    let mut cpu = cpu_with(0x0600, &[0xA9, 0x01, 0x4A], &[]);
    run(&mut cpu, 2);
    assert_eq!(cpu.snapshot().a, 0x00);
    assert!(cpu.snapshot().flags.c);
    assert!(cpu.snapshot().flags.z);

    // SEC; LDA #$80; ROL A -> 0x01 (carry rotated in), carry out.
    let mut cpu = cpu_with(0x0600, &[0x38, 0xA9, 0x80, 0x2A], &[]);
    run(&mut cpu, 3);
    assert_eq!(cpu.snapshot().a, 0x01);
    assert!(cpu.snapshot().flags.c);

    // SEC; LDA #$02; ROR A -> 0x81 (carry into bit 7), no carry out.
    let mut cpu = cpu_with(0x0600, &[0x38, 0xA9, 0x02, 0x6A], &[]);
    run(&mut cpu, 3);
    assert_eq!(cpu.snapshot().a, 0x81);
    assert!(!cpu.snapshot().flags.c);
    assert!(cpu.snapshot().flags.n);

    // ASL $10 on memory: 0x40 -> 0x80, negative, no carry.
    let mut cpu = cpu_with(0x0600, &[0x06, 0x10], &[(0x0010, 0x40)]);
    run(&mut cpu, 1);
    assert_eq!(cpu.memory().read(0x0010), 0x80);
    assert!(cpu.snapshot().flags.n);
    assert!(!cpu.snapshot().flags.c);
}

#[test]
fn inc_dec_wrap_and_flags() {
    // INC $10 with 0xFF wraps to 0x00 and sets zero.
    let mut cpu = cpu_with(0x0600, &[0xE6, 0x10], &[(0x0010, 0xFF)]);
    run(&mut cpu, 1);
    assert_eq!(cpu.memory().read(0x0010), 0x00);
    assert!(cpu.snapshot().flags.z);

    // DEC $10 with 0x00 wraps to 0xFF and sets negative.
    let mut cpu = cpu_with(0x0600, &[0xC6, 0x10], &[]);
    run(&mut cpu, 1);
    assert_eq!(cpu.memory().read(0x0010), 0xFF);
    assert!(cpu.snapshot().flags.n);

    // INX from 0xFF wraps to zero; DEY from 0x00 wraps to 0xFF.
    let mut cpu = cpu_with(0x0600, &[0xA2, 0xFF, 0xE8, 0x88], &[]);
    run(&mut cpu, 2);
    assert_eq!(cpu.snapshot().x, 0x00);
    assert!(cpu.snapshot().flags.z);
    run(&mut cpu, 1);
    assert_eq!(cpu.snapshot().y, 0xFF);
    assert!(cpu.snapshot().flags.n);
}

#[test]
fn stores_write_memory_without_flags() {
    // LDA #$5A; STA $1234; STX $10; STY $11.
    let mut cpu = cpu_with(
        0x0600,
        &[0xA9, 0x5A, 0x8D, 0x34, 0x12, 0xA2, 0x01, 0x86, 0x10, 0xA0, 0x02, 0x84, 0x11],
        &[],
    );
    run(&mut cpu, 2);
    assert_eq!(cpu.memory().read(0x1234), 0x5A);
    run(&mut cpu, 2);
    assert_eq!(cpu.memory().read(0x0010), 0x01);
    run(&mut cpu, 2);
    assert_eq!(cpu.memory().read(0x0011), 0x02);
    // Store costs no page-crossing penalty: STA $20FF,X with X=1 is 5.
    let mut cpu = cpu_with(0x0600, &[0xA2, 0x01, 0x9D, 0xFF, 0x20], &[]);
    run(&mut cpu, 1);
    assert_eq!(cpu.step(), 5);
    assert_eq!(cpu.memory().read(0x2100), 0x00);
}

#[test]
fn indirect_addressing_modes() {
    // LDX #$04; LDA ($20,X): pointer at 0x24/0x25 -> 0x3000.
    let mut cpu = cpu_with(
        0x0600,
        &[0xA2, 0x04, 0xA1, 0x20],
        &[(0x0024, 0x00), (0x0025, 0x30), (0x3000, 0x77)],
    );
    run(&mut cpu, 2);
    assert_eq!(cpu.snapshot().a, 0x77);

    // LDY #$10; LDA ($20),Y: pointer 0x3000 + 0x10 -> 0x3010.
    let mut cpu = cpu_with(
        0x0600,
        &[0xA0, 0x10, 0xB1, 0x20],
        &[(0x0020, 0x00), (0x0021, 0x30), (0x3010, 0x66)],
    );
    run(&mut cpu, 2);
    assert_eq!(cpu.snapshot().a, 0x66);

    // Pre-indexed pointer wraps within page zero: LDX #$01; LDA ($FF,X)
    // reads the pointer from 0x00/0x01.
    let mut cpu = cpu_with(
        0x0600,
        &[0xA2, 0x01, 0xA1, 0xFF],
        &[(0x0000, 0x00), (0x0001, 0x40), (0x4000, 0x55)],
    );
    run(&mut cpu, 2);
    assert_eq!(cpu.snapshot().a, 0x55);
}

#[test]
fn branches_taken_cycles_and_targets() {
    // BEQ not taken after LDA #$01: 2 cycles, fall through.
    let mut cpu = cpu_with(0x0600, &[0xA9, 0x01, 0xF0, 0x10], &[]);
    run(&mut cpu, 1);
    assert_eq!(cpu.step(), 2);
    assert_eq!(cpu.snapshot().pc, 0x0604);

    // BEQ taken after LDA #$00, same page: 3 cycles, target 0x0614.
    let mut cpu = cpu_with(0x0600, &[0xA9, 0x00, 0xF0, 0x10], &[]);
    run(&mut cpu, 1);
    assert_eq!(cpu.step(), 3);
    assert_eq!(cpu.snapshot().pc, 0x0614);

    // Backward branch: BNE with offset 0xFA (-6) from 0x0606 -> 0x0600.
    let mut cpu = cpu_with(0x0600, &[0xA9, 0x01, 0xA9, 0x01, 0xD0, 0xFA], &[]);
    run(&mut cpu, 2);
    cpu.step();
    assert_eq!(cpu.snapshot().pc, 0x0600);

    // Branch crossing a page: BNE at 0x06FD with offset 0x70 lands at
    // 0x076F in the next page: 4 cycles.
    let mut cpu = cpu_with(0x06FD, &[0xD0, 0x70], &[]);
    // Z is clear after reset, so the branch is taken.
    assert_eq!(cpu.step(), 4);
    assert_eq!(cpu.snapshot().pc, 0x076F);
}

#[test]
fn jsr_rts_round_trip() {
    // JSR $1234 at 0x0600; at 0x1234 LDA #$21 then RTS back to 0x0603.
    let mut cpu = cpu_with(
        0x0600,
        &[0x20, 0x34, 0x12],
        &[(0x1234, 0xA9), (0x1235, 0x21), (0x1236, 0x60)],
    );
    assert_eq!(cpu.step(), 6);
    assert_eq!(cpu.snapshot().pc, 0x1234);
    assert_eq!(cpu.snapshot().sp, 0xFB);
    // The pushed return address is the last byte of the JSR: 0x0602.
    assert_eq!(cpu.memory().read(0x01FD), 0x06);
    assert_eq!(cpu.memory().read(0x01FC), 0x02);
    run(&mut cpu, 1);
    assert_eq!(cpu.step(), 6); // RTS
    assert_eq!(cpu.snapshot().pc, 0x0603);
    assert_eq!(cpu.snapshot().sp, 0xFD);
    assert_eq!(cpu.snapshot().a, 0x21);
}

#[test]
fn stack_push_pull_and_status_byte() {
    // LDA #$42; PHA; LDA #$00; PLA restores 0x42 and its flags.
    let mut cpu = cpu_with(0x0600, &[0xA9, 0x42, 0x48, 0xA9, 0x00, 0x68], &[]);
    run(&mut cpu, 2);
    assert_eq!(cpu.snapshot().sp, 0xFC);
    assert_eq!(cpu.memory().read(0x01FD), 0x42);
    run(&mut cpu, 1);
    assert!(cpu.snapshot().flags.z);
    run(&mut cpu, 1);
    assert_eq!(cpu.snapshot().a, 0x42);
    assert!(!cpu.snapshot().flags.z);
    assert_eq!(cpu.snapshot().sp, 0xFD);

    // SEC; PHP pushes the packed status with the unused bit (0x20) and the
    // break bit (0x10) set; CLC; PLP restores carry.
    let mut cpu = cpu_with(0x0600, &[0x38, 0x08, 0x18, 0x28], &[]);
    run(&mut cpu, 2);
    let pushed = cpu.memory().read(0x01FD);
    assert_eq!(pushed & 0x20, 0x20);
    assert_eq!(pushed & 0x10, 0x10);
    assert_eq!(pushed & 0x01, 0x01); // carry
    assert_eq!(pushed & 0x04, 0x04); // interrupt-disable from reset
    run(&mut cpu, 1);
    assert!(!cpu.snapshot().flags.c);
    run(&mut cpu, 1);
    assert!(cpu.snapshot().flags.c);
}

#[test]
fn transfers_and_flags() {
    // LDA #$80; TAX; TAY; TXS (no flags); TSX (flags).
    let mut cpu = cpu_with(0x0600, &[0xA9, 0x80, 0xAA, 0xA8, 0x9A, 0xBA, 0x8A, 0x98], &[]);
    run(&mut cpu, 2);
    assert_eq!(cpu.snapshot().x, 0x80);
    assert!(cpu.snapshot().flags.n);
    run(&mut cpu, 1);
    assert_eq!(cpu.snapshot().y, 0x80);
    run(&mut cpu, 1);
    assert_eq!(cpu.snapshot().sp, 0x80);
    run(&mut cpu, 1);
    assert_eq!(cpu.snapshot().x, 0x80);
    run(&mut cpu, 2);
    assert_eq!(cpu.snapshot().a, 0x80);
}

#[test]
fn flag_set_and_clear_ops() {
    let mut cpu = cpu_with(0x0600, &[0x38, 0xF8, 0x18, 0xD8, 0x58, 0xB8], &[]);
    run(&mut cpu, 2);
    assert!(cpu.snapshot().flags.c);
    assert!(cpu.snapshot().flags.d);
    run(&mut cpu, 2);
    assert!(!cpu.snapshot().flags.c);
    assert!(!cpu.snapshot().flags.d);
    run(&mut cpu, 1);
    assert!(!cpu.snapshot().flags.i);
    run(&mut cpu, 1);
    assert!(!cpu.snapshot().flags.v);
}

#[test]
fn absolute_jump() {
    let mut cpu = cpu_with(0x0600, &[0x4C, 0x00, 0x07], &[]);
    assert_eq!(cpu.step(), 3);
    assert_eq!(cpu.snapshot().pc, 0x0700);
}
