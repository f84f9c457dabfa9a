//! The CPU core: architectural registers and status flags, the
//! addressing-mode resolver, and the fetch-decode-execute engine with reset,
//! interrupt entry, and emulator-level pause/resume.
//!
//! The whole machine is modeled by the ghost state [`CpuView`]; one
//! instruction's effect is the mathematical function [`step_spec`], and the
//! executable engine is proved to realize it exactly.

use vstd::prelude::*;

use crate::memory::Memory;
use crate::memory::MEMORY_SIZE;
use crate::memory::word;
use crate::opcode::AddressingMode;
use crate::opcode::Instr;
use crate::opcode::Operation;
use crate::opcode::decode;
use crate::opcode::decode_spec;

verus! {

/// The status register as named booleans. The unused bit of the packed
/// representation is always 1 when the byte form is produced (see
/// [`status_byte`]); the Break flag is not a stored hardware bit, so the
/// packed form carries 1 for a software interrupt or an explicit push and 0
/// for a hardware interrupt, and pulling a status byte stores its bit 4 here.
#[derive(Clone, Copy, Debug, PartialEq, Eq, Structural)]
pub struct Flags {
    /// Negative: bit 7 of the last flag-affecting result.
    pub n: bool,
    /// Overflow: signed overflow of the last arithmetic result.
    pub v: bool,
    /// Break: bit 4 of the last pulled status byte.
    pub b: bool,
    /// Decimal mode (stored and pushed only; arithmetic here is binary).
    pub d: bool,
    /// Interrupt disable.
    pub i: bool,
    /// Zero: the last flag-affecting result was 0.
    pub z: bool,
    /// Carry.
    pub c: bool,
}

/// All seven flags cleared.
pub open spec fn flags_clear() -> Flags {
    Flags { n: false, v: false, b: false, d: false, i: false, z: false, c: false }
}

/// The complete architectural state of the machine: registers, flags, the
/// emulator-level pause flag, and the 64 KiB memory contents.
pub ghost struct CpuView {
    /// Accumulator.
    pub a: u8,
    /// Index register X.
    pub x: u8,
    /// Index register Y.
    pub y: u8,
    /// Program counter: address of the next byte to fetch.
    pub pc: u16,
    /// Stack pointer: offset into the stack page 0x0100-0x01FF.
    pub sp: u8,
    /// Status flags.
    pub flags: Flags,
    /// Emulator-level pause: while set, stepping is a no-op.
    pub halted: bool,
    /// Memory contents, one byte per 16-bit address.
    pub mem: Seq<u8>,
}

impl CpuView {
    /// A machine state always carries exactly one byte per address.
    pub open spec fn wf(self) -> bool {
        self.mem.len() == MEMORY_SIZE
    }
}

/// 16-bit wrap-around addition.
pub open spec fn add16(a: u16, b: u16) -> u16 {
    ((a + b) % 0x10000) as u16
}

/// 8-bit wrap-around of an arbitrary non-negative amount.
pub open spec fn wrap8(n: int) -> u8 {
    (n % 256) as u8
}

/// The page of an address: its high byte.
pub open spec fn page(a: u16) -> u16 {
    a / 256
}

/// Where an instruction's operand lives once the addressing mode is
/// resolved.
#[derive(Clone, Copy, Debug, PartialEq, Eq, Structural)]
pub enum Operand {
    /// No operand bytes; the operation itself says what it touches.
    Implied,
    /// The operand is the accumulator.
    Accumulator,
    /// The operand is this literal byte.
    Immediate(u8),
    /// The operand is the byte stored at this address.
    Address(u16),
}

/// The outcome of addressing-mode resolution: the operand, the program
/// counter advanced past the operand bytes, and whether a page boundary was
/// crossed (for cycle-penalty accounting).
#[derive(Clone, Copy, Debug, PartialEq, Eq, Structural)]
pub struct Resolved {
    pub operand: Operand,
    pub pc: u16,
    pub crossed: bool,
}

/// The branch target: the program counter after the branch instruction plus
/// the signed one-byte offset, with full 16-bit wrap.
pub open spec fn branch_target(pc: u16, off: u8) -> u16 {
    if off < 0x80 {
        ((pc + off) % 0x10000) as u16
    } else {
        ((pc + off - 0x100) % 0x10000) as u16
    }
}

/// Addressing-mode resolution as a mathematical function of the registers
/// and memory. `pc` points at the first operand byte; the returned `pc` is
/// advanced past however many operand bytes the mode consumes.
pub open spec fn resolve_spec(mode: AddressingMode, pc: u16, x: u8, y: u8, mem: Seq<u8>) -> Resolved {
    match mode {
        AddressingMode::Implied => Resolved { operand: Operand::Implied, pc, crossed: false },
        AddressingMode::Accumulator => Resolved { operand: Operand::Accumulator, pc, crossed: false },
        AddressingMode::Immediate => Resolved {
            operand: Operand::Immediate(mem[pc as int]),
            pc: add16(pc, 1),
            crossed: false,
        },
        AddressingMode::ZeroPage => Resolved {
            operand: Operand::Address(mem[pc as int] as u16),
            pc: add16(pc, 1),
            crossed: false,
        },
        AddressingMode::ZeroPageX => Resolved {
            operand: Operand::Address(wrap8(mem[pc as int] + x) as u16),
            pc: add16(pc, 1),
            crossed: false,
        },
        AddressingMode::ZeroPageY => Resolved {
            operand: Operand::Address(wrap8(mem[pc as int] + y) as u16),
            pc: add16(pc, 1),
            crossed: false,
        },
        AddressingMode::Absolute => Resolved {
            operand: Operand::Address(word(mem[pc as int], mem[add16(pc, 1) as int])),
            pc: add16(pc, 2),
            crossed: false,
        },
        AddressingMode::AbsoluteX => {
            let base = word(mem[pc as int], mem[add16(pc, 1) as int]);
            let ea = add16(base, x as u16);
            Resolved { operand: Operand::Address(ea), pc: add16(pc, 2), crossed: page(base) != page(ea) }
        },
        AddressingMode::AbsoluteY => {
            let base = word(mem[pc as int], mem[add16(pc, 1) as int]);
            let ea = add16(base, y as u16);
            Resolved { operand: Operand::Address(ea), pc: add16(pc, 2), crossed: page(base) != page(ea) }
        },
        AddressingMode::IndirectX => {
            let ptr = wrap8(mem[pc as int] + x);
            let lo = mem[ptr as int];
            let hi = mem[wrap8(ptr + 1) as int];
            Resolved { operand: Operand::Address(word(lo, hi)), pc: add16(pc, 1), crossed: false }
        },
        AddressingMode::IndirectY => {
            let zp = mem[pc as int];
            let base = word(mem[zp as int], mem[wrap8(zp + 1) as int]);
            let ea = add16(base, y as u16);
            Resolved { operand: Operand::Address(ea), pc: add16(pc, 1), crossed: page(base) != page(ea) }
        },
        AddressingMode::Relative => {
            let pc2 = add16(pc, 1);
            let target = branch_target(pc2, mem[pc as int]);
            Resolved { operand: Operand::Address(target), pc: pc2, crossed: page(pc2) != page(target) }
        },
        AddressingMode::Indirect => {
            let ptr = word(mem[pc as int], mem[add16(pc, 1) as int]);
            // The documented hardware bug: when the pointer's low byte is
            // 0xFF, the high byte comes from the start of the same page.
            let hi_at = if ptr % 256 == 0xFF { (ptr - 0xFF) as u16 } else { (ptr + 1) as u16 };
            Resolved {
                operand: Operand::Address(word(mem[ptr as int], mem[hi_at as int])),
                pc: add16(pc, 2),
                crossed: false,
            }
        },
    }
}

/// A read-only snapshot of the registers and flags, for diagnostics.
#[derive(Clone, Copy, Debug, PartialEq, Eq, Structural)]
pub struct CpuSnapshot {
    pub a: u8,
    pub x: u8,
    pub y: u8,
    pub pc: u16,
    pub sp: u8,
    pub flags: Flags,
    pub halted: bool,
}

/// The CPU core. It exclusively owns the memory it was bound to at
/// construction; every architectural effect of an instruction is visible
/// through the ghost state [`CpuView`].
pub struct Cpu {
    a: u8,
    x: u8,
    y: u8,
    pc: u16,
    sp: u8,
    flags: Flags,
    halted: bool,
    mem: Memory,
}

impl View for Cpu {
    type V = CpuView;

    closed spec fn view(&self) -> CpuView {
        CpuView {
            a: self.a,
            x: self.x,
            y: self.y,
            pc: self.pc,
            sp: self.sp,
            flags: self.flags,
            halted: self.halted,
            mem: self.mem@,
        }
    }
}

/// The state established by [`Cpu::reset`]: general registers zeroed (a
/// documented implementation choice), stack pointer at its documented
/// post-reset value 0xFD, only the Interrupt-Disable flag set, the program
/// counter loaded from the reset vector, and the machine running.
pub open spec fn reset_spec(s: CpuView) -> CpuView {
    CpuView {
        a: 0,
        x: 0,
        y: 0,
        pc: word(s.mem[0xFFFC], s.mem[0xFFFD]),
        sp: 0xFD,
        flags: Flags { i: true, ..flags_clear() },
        halted: false,
        mem: s.mem,
    }
}

/// The effect of [`Cpu::halt_resume`]: the pause flag toggles and nothing
/// else changes.
pub open spec fn halt_resume_spec(s: CpuView) -> CpuView {
    CpuView { halted: !s.halted, ..s }
}

impl Cpu {
    /// The bound memory always holds one byte per 16-bit address.
    pub open spec fn wf(&self) -> bool {
        self@.wf()
    }

    /// Binds a CPU to a memory instance. The result is not yet a runnable
    /// program state: registers and flags start cleared and the program
    /// counter at 0; call [`Cpu::reset`] first.
    pub fn new(memory: Memory) -> (cpu: Cpu)
        requires
            memory.wf(),
        ensures
            cpu.wf(),
            cpu@ == (CpuView {
                a: 0,
                x: 0,
                y: 0,
                pc: 0,
                sp: 0xFD,
                flags: flags_clear(),
                halted: false,
                mem: memory@,
            }),
    {
        Cpu {
            a: 0,
            x: 0,
            y: 0,
            pc: 0,
            sp: 0xFD,
            flags: Flags { n: false, v: false, b: false, d: false, i: false, z: false, c: false },
            halted: false,
            mem: memory,
        }
    }

    /// Reinitializes the architectural state per [`reset_spec`]: in
    /// particular, the program counter is loaded little-endian from
    /// 0xFFFC/0xFFFD and Interrupt-Disable is set. Idempotent; callable at
    /// any time; always returns the machine to Running.
    pub fn reset(&mut self)
        requires
            old(self).wf(),
        ensures
            final(self).wf(),
            final(self)@ == reset_spec(old(self)@),
            final(self)@.pc == word(old(self)@.mem[0xFFFC], old(self)@.mem[0xFFFD]),
            final(self)@.flags.i,
    {
        self.a = 0;
        self.x = 0;
        self.y = 0;
        self.sp = 0xFD;
        self.flags = Flags { n: false, v: false, b: false, d: false, i: true, z: false, c: false };
        self.pc = self.mem.get_reset_vector();
        self.halted = false;
    }

    /// Toggles between Running and Halted without touching any register,
    /// flag, or memory byte.
    pub fn halt_resume(&mut self)
        requires
            old(self).wf(),
        ensures
            final(self).wf(),
            final(self)@ == halt_resume_spec(old(self)@),
    {
        self.halted = !self.halted;
    }

    /// A read-only snapshot of registers and flags, for diagnostics.
    pub fn snapshot(&self) -> (snap: CpuSnapshot)
        ensures
            snap == (CpuSnapshot {
                a: self@.a,
                x: self@.x,
                y: self@.y,
                pc: self@.pc,
                sp: self@.sp,
                flags: self@.flags,
                halted: self@.halted,
            }),
    {
        CpuSnapshot {
            a: self.a,
            x: self.x,
            y: self.y,
            pc: self.pc,
            sp: self.sp,
            flags: self.flags,
            halted: self.halted,
        }
    }

    /// Borrows the bound memory, for inspection by the caller.
    pub fn memory(&self) -> (m: &Memory)
        ensures
            m@ == self@.mem,
    {
        &self.mem
    }

    /// Fetches the byte at the program counter and advances it by one with
    /// 16-bit wrap.
    fn fetch(&mut self) -> (b: u8)
        requires
            old(self).wf(),
        ensures
            final(self).wf(),
            b == old(self)@.mem[old(self)@.pc as int],
            final(self)@ == (CpuView { pc: add16(old(self)@.pc, 1), ..old(self)@ }),
    {
        let b: u8 = self.mem.read(self.pc);
        self.pc = ((self.pc as u32 + 1) % 0x10000) as u16;
        b
    }

    /// Resolves an addressing mode: consumes the operand bytes, advancing
    /// the program counter, and reports the operand and whether a page
    /// boundary was crossed.
    #[verifier::rlimit(100)]
    #[verifier::spinoff_prover]
    fn resolve(&mut self, mode: AddressingMode) -> (r: (Operand, bool))
        requires
            old(self).wf(),
        ensures
            final(self).wf(),
            ({
                let rr = resolve_spec(mode, old(self)@.pc, old(self)@.x, old(self)@.y, old(self)@.mem);
                r.0 == rr.operand && r.1 == rr.crossed
                    && final(self)@ == (CpuView { pc: rr.pc, ..old(self)@ })
            }),
    {
        match mode {
            AddressingMode::Implied => (Operand::Implied, false),
            AddressingMode::Accumulator => (Operand::Accumulator, false),
            AddressingMode::Immediate => {
                let b: u8 = self.fetch();
                (Operand::Immediate(b), false)
            },
            AddressingMode::ZeroPage => {
                let b: u8 = self.fetch();
                (Operand::Address(b as u16), false)
            },
            AddressingMode::ZeroPageX => {
                let b: u8 = self.fetch();
                (Operand::Address((b as u16 + self.x as u16) % 256), false)
            },
            AddressingMode::ZeroPageY => {
                let b: u8 = self.fetch();
                (Operand::Address((b as u16 + self.y as u16) % 256), false)
            },
            AddressingMode::Absolute => {
                let lo: u8 = self.fetch();
                let hi: u8 = self.fetch();
                (Operand::Address((hi as u16) * 256 + (lo as u16)), false)
            },
            AddressingMode::AbsoluteX => {
                let lo: u8 = self.fetch();
                let hi: u8 = self.fetch();
                let base: u16 = (hi as u16) * 256 + (lo as u16);
                let ea: u16 = ((base as u32 + self.x as u32) % 0x10000) as u16;
                (Operand::Address(ea), base / 256 != ea / 256)
            },
            AddressingMode::AbsoluteY => {
                let lo: u8 = self.fetch();
                let hi: u8 = self.fetch();
                let base: u16 = (hi as u16) * 256 + (lo as u16);
                let ea: u16 = ((base as u32 + self.y as u32) % 0x10000) as u16;
                (Operand::Address(ea), base / 256 != ea / 256)
            },
            AddressingMode::IndirectX => {
                let b: u8 = self.fetch();
                let ptr: u16 = (b as u16 + self.x as u16) % 256;
                let lo: u8 = self.mem.read(ptr);
                let hi: u8 = self.mem.read((ptr + 1) % 256);
                (Operand::Address((hi as u16) * 256 + (lo as u16)), false)
            },
            AddressingMode::IndirectY => {
                let zp: u8 = self.fetch();
                let lo: u8 = self.mem.read(zp as u16);
                let hi: u8 = self.mem.read((zp as u16 + 1) % 256);
                let base: u16 = (hi as u16) * 256 + (lo as u16);
                let ea: u16 = ((base as u32 + self.y as u32) % 0x10000) as u16;
                (Operand::Address(ea), base / 256 != ea / 256)
            },
            AddressingMode::Relative => {
                let off: u8 = self.fetch();
                let target: u16 = if off < 0x80 {
                    ((self.pc as u32 + off as u32) % 0x10000) as u16
                } else {
                    ((self.pc as u32 + off as u32 + 0xFF00) % 0x10000) as u16
                };
                proof {
                    if off >= 0x80 {
                        vstd::arithmetic::div_mod::lemma_mod_add_multiples_vanish(
                            self@.pc + off - 0x100,
                            0x10000,
                        );
                    }
                }
                (Operand::Address(target), self.pc / 256 != target / 256)
            },
            AddressingMode::Indirect => {
                let lo_p: u8 = self.fetch();
                let hi_p: u8 = self.fetch();
                let ptr: u16 = (hi_p as u16) * 256 + (lo_p as u16);
                let lo: u8 = self.mem.read(ptr);
                let hi_at: u16 = if ptr % 256 == 0xFF { ptr - 0xFF } else { ptr + 1 };
                let hi: u8 = self.mem.read(hi_at);
                (Operand::Address((hi as u16) * 256 + (lo as u16)), false)
            },
        }
    }
}

/// The value an operand denotes when read.
pub open spec fn operand_value(s: CpuView, operand: Operand) -> u8 {
    match operand {
        Operand::Implied => 0,
        Operand::Accumulator => s.a,
        Operand::Immediate(v) => v,
        Operand::Address(a) => s.mem[a as int],
    }
}

/// The address an operand names; 0 for the forms that name none.
pub open spec fn operand_address(operand: Operand) -> u16 {
    match operand {
        Operand::Address(a) => a,
        _ => 0,
    }
}

/// Writing a result back to an operand: the accumulator or a memory byte.
pub open spec fn store_result(s: CpuView, operand: Operand, v: u8) -> CpuView {
    match operand {
        Operand::Accumulator => CpuView { a: v, ..s },
        Operand::Address(a) => CpuView { mem: s.mem.update(a as int, v), ..s },
        _ => s,
    }
}

/// Zero and Negative recomputed from a result byte: Zero iff the result is
/// 0, Negative iff its bit 7 is set.
pub open spec fn set_zn(f: Flags, v: u8) -> Flags {
    Flags { z: v == 0, n: v >= 0x80, ..f }
}

/// 1 for true, 0 for false.
pub open spec fn b2i(b: bool) -> int {
    if b { 1 } else { 0 }
}

/// The packed status byte: N V 1 B D I Z C from bit 7 down; the unused bit
/// is always 1, and bit 4 carries `brk` (1 for a software interrupt or an
/// explicit push, 0 for a hardware interrupt).
pub open spec fn status_byte(f: Flags, brk: bool) -> u8 {
    (b2i(f.n) * 128 + b2i(f.v) * 64 + 32 + b2i(brk) * 16 + b2i(f.d) * 8 + b2i(f.i) * 4
        + b2i(f.z) * 2 + b2i(f.c)) as u8
}

/// Flags restored from a pulled status byte; bit 4 lands in the Break flag
/// and the unused bit is dropped.
pub open spec fn unpack_status(p: u8) -> Flags {
    Flags {
        n: p / 128 % 2 == 1,
        v: p / 64 % 2 == 1,
        b: p / 16 % 2 == 1,
        d: p / 8 % 2 == 1,
        i: p / 4 % 2 == 1,
        z: p / 2 % 2 == 1,
        c: p % 2 == 1,
    }
}

/// Pushing a byte: store at 0x0100 + SP, then decrement SP with wrap within
/// the stack page.
pub open spec fn push_spec(s: CpuView, v: u8) -> CpuView {
    CpuView { mem: s.mem.update(0x100 + s.sp as int, v), sp: wrap8(s.sp - 1), ..s }
}

/// The stack pointer after a pop: incremented with wrap within the page.
pub open spec fn pop_sp(s: CpuView) -> u8 {
    wrap8(s.sp + 1)
}

/// The byte a pop yields: the one at 0x0100 + the incremented SP.
pub open spec fn pop_value(s: CpuView) -> u8 {
    s.mem[0x100 + pop_sp(s) as int]
}

/// The state after a pop: only SP changes.
pub open spec fn pop_spec(s: CpuView) -> CpuView {
    CpuView { sp: pop_sp(s), ..s }
}

/// Loading the accumulator with a value and recomputing Zero/Negative.
pub open spec fn with_a_zn(s: CpuView, v: u8) -> CpuView {
    CpuView { a: v, flags: set_zn(s.flags, v), ..s }
}

/// Loading X with a value and recomputing Zero/Negative.
pub open spec fn with_x_zn(s: CpuView, v: u8) -> CpuView {
    CpuView { x: v, flags: set_zn(s.flags, v), ..s }
}

/// Loading Y with a value and recomputing Zero/Negative.
pub open spec fn with_y_zn(s: CpuView, v: u8) -> CpuView {
    CpuView { y: v, flags: set_zn(s.flags, v), ..s }
}

/// Add with carry, binary mode: the accumulator gains `m` plus the carry-in;
/// Carry is the unsigned carry out, Overflow the documented sign-comparison
/// rule (operands of equal sign, result of the other sign).
pub open spec fn adc_spec(s: CpuView, m: u8) -> CpuView {
    let sum = s.a + m + b2i(s.flags.c);
    let r = wrap8(sum);
    let vf = ((s.a >= 0x80) == (m >= 0x80)) && ((r >= 0x80) != (s.a >= 0x80));
    CpuView { a: r, flags: Flags { c: sum > 255, v: vf, ..set_zn(s.flags, r) }, ..s }
}

/// Subtract with borrow: addition of the one's complement, as the hardware
/// performs it.
pub open spec fn sbc_spec(s: CpuView, m: u8) -> CpuView {
    adc_spec(s, (255 - m) as u8)
}

/// Compare: Carry iff the register is not below the operand, Zero iff
/// equal, Negative from bit 7 of the wrapped difference.
pub open spec fn compare_flags(f: Flags, reg: u8, m: u8) -> Flags {
    Flags { c: reg >= m, z: reg == m, n: wrap8(reg - m) >= 0x80, ..f }
}

/// A conditional branch: when taken it costs one extra cycle, and one more
/// when the target lies in another page than the instruction's end.
pub open spec fn branch_spec(s: CpuView, operand: Operand, crossed: bool, taken: bool, base: u8) -> (CpuView, u8) {
    if taken {
        (CpuView { pc: operand_address(operand), ..s }, (base + 1 + b2i(crossed)) as u8)
    } else {
        (s, base)
    }
}

/// Interrupt entry: push the program counter high byte, low byte, then the
/// status byte (bit 4 per `brk_bit`), set Interrupt-Disable, and load the
/// program counter from the interrupt vector at 0xFFFE/0xFFFF.
pub open spec fn interrupt_entry_spec(s: CpuView, brk_bit: bool) -> CpuView {
    let s1 = push_spec(s, (s.pc / 256) as u8);
    let s2 = push_spec(s1, (s.pc % 256) as u8);
    let s3 = push_spec(s2, status_byte(s.flags, brk_bit));
    CpuView { pc: word(s3.mem[0xFFFE], s3.mem[0xFFFF]), flags: Flags { i: true, ..s.flags }, ..s3 }
}

/// A maskable interrupt: suppressed while Interrupt-Disable is set, and
/// while the emulator is paused.
pub open spec fn irq_spec(s: CpuView) -> CpuView {
    if s.halted || s.flags.i { s } else { interrupt_entry_spec(s, false) }
}

/// A non-maskable interrupt: bypasses Interrupt-Disable; only the
/// emulator-level pause suppresses it.
pub open spec fn nmi_spec(s: CpuView) -> CpuView {
    if s.halted { s } else { interrupt_entry_spec(s, false) }
}

/// The base cycle cost of a decoded instruction, plus the one-cycle indexed
/// page-crossing penalty where the table charges it.
pub open spec fn base_cycles(ins: Instr, crossed: bool) -> u8 {
    if ins.page_penalty && crossed { (ins.cycles + 1) as u8 } else { ins.cycles }
}

/// The effect of one decoded instruction on a machine state whose program
/// counter already stands past the operand bytes: the new state and the
/// cycle cost.
pub open spec fn exec_spec(ins: Instr, operand: Operand, crossed: bool, s: CpuView) -> (CpuView, u8) {
    let base = base_cycles(ins, crossed);
    let m = operand_value(s, operand);
    match ins.op {
        Operation::Adc => (adc_spec(s, m), base),
        Operation::And => (with_a_zn(s, s.a & m), base),
        Operation::Asl => {
            let r = wrap8(m * 2);
            (CpuView { flags: Flags { c: m >= 0x80, ..set_zn(s.flags, r) }, ..store_result(s, operand, r) }, base)
        },
        Operation::Bcc => branch_spec(s, operand, crossed, !s.flags.c, base),
        Operation::Bcs => branch_spec(s, operand, crossed, s.flags.c, base),
        Operation::Beq => branch_spec(s, operand, crossed, s.flags.z, base),
        Operation::Bit => {
            (CpuView {
                flags: Flags { z: (s.a & m) == 0, n: m >= 0x80, v: (m & 0x40) == 0x40, ..s.flags },
                ..s
            }, base)
        },
        Operation::Bmi => branch_spec(s, operand, crossed, s.flags.n, base),
        Operation::Bne => branch_spec(s, operand, crossed, !s.flags.z, base),
        Operation::Bpl => branch_spec(s, operand, crossed, !s.flags.n, base),
        Operation::Brk => (interrupt_entry_spec(CpuView { pc: add16(s.pc, 1), ..s }, true), base),
        Operation::Bvc => branch_spec(s, operand, crossed, !s.flags.v, base),
        Operation::Bvs => branch_spec(s, operand, crossed, s.flags.v, base),
        Operation::Clc => (CpuView { flags: Flags { c: false, ..s.flags }, ..s }, base),
        Operation::Cld => (CpuView { flags: Flags { d: false, ..s.flags }, ..s }, base),
        Operation::Cli => (CpuView { flags: Flags { i: false, ..s.flags }, ..s }, base),
        Operation::Clv => (CpuView { flags: Flags { v: false, ..s.flags }, ..s }, base),
        Operation::Cmp => (CpuView { flags: compare_flags(s.flags, s.a, m), ..s }, base),
        Operation::Cpx => (CpuView { flags: compare_flags(s.flags, s.x, m), ..s }, base),
        Operation::Cpy => (CpuView { flags: compare_flags(s.flags, s.y, m), ..s }, base),
        Operation::Dec => {
            let r = wrap8(m - 1);
            (CpuView { flags: set_zn(s.flags, r), ..store_result(s, operand, r) }, base)
        },
        Operation::Dex => (with_x_zn(s, wrap8(s.x - 1)), base),
        Operation::Dey => (with_y_zn(s, wrap8(s.y - 1)), base),
        Operation::Eor => (with_a_zn(s, s.a ^ m), base),
        Operation::Inc => {
            let r = wrap8(m + 1);
            (CpuView { flags: set_zn(s.flags, r), ..store_result(s, operand, r) }, base)
        },
        Operation::Inx => (with_x_zn(s, wrap8(s.x + 1)), base),
        Operation::Iny => (with_y_zn(s, wrap8(s.y + 1)), base),
        Operation::Jmp => (CpuView { pc: operand_address(operand), ..s }, base),
        Operation::Jsr => {
            let ret = add16(s.pc, 0xFFFF);
            let s1 = push_spec(s, (ret / 256) as u8);
            let s2 = push_spec(s1, (ret % 256) as u8);
            (CpuView { pc: operand_address(operand), ..s2 }, base)
        },
        Operation::Lda => (with_a_zn(s, m), base),
        Operation::Ldx => (with_x_zn(s, m), base),
        Operation::Ldy => (with_y_zn(s, m), base),
        Operation::Lsr => {
            let r = m / 2;
            (CpuView { flags: Flags { c: m % 2 == 1, ..set_zn(s.flags, r) }, ..store_result(s, operand, r) }, base)
        },
        Operation::Nop => (s, base),
        Operation::Ora => (with_a_zn(s, s.a | m), base),
        Operation::Pha => (push_spec(s, s.a), base),
        Operation::Php => (push_spec(s, status_byte(s.flags, true)), base),
        Operation::Pla => {
            let v = pop_value(s);
            (CpuView { a: v, flags: set_zn(s.flags, v), ..pop_spec(s) }, base)
        },
        Operation::Plp => (CpuView { flags: unpack_status(pop_value(s)), ..pop_spec(s) }, base),
        Operation::Rol => {
            let r = wrap8(m * 2 + b2i(s.flags.c));
            (CpuView { flags: Flags { c: m >= 0x80, ..set_zn(s.flags, r) }, ..store_result(s, operand, r) }, base)
        },
        Operation::Ror => {
            let r = (m / 2 + b2i(s.flags.c) * 128) as u8;
            (CpuView { flags: Flags { c: m % 2 == 1, ..set_zn(s.flags, r) }, ..store_result(s, operand, r) }, base)
        },
        Operation::Rti => {
            let f = unpack_status(pop_value(s));
            let s1 = pop_spec(s);
            let lo = pop_value(s1);
            let s2 = pop_spec(s1);
            let hi = pop_value(s2);
            let s3 = pop_spec(s2);
            (CpuView { flags: f, pc: word(lo, hi), ..s3 }, base)
        },
        Operation::Rts => {
            let lo = pop_value(s);
            let s1 = pop_spec(s);
            let hi = pop_value(s1);
            let s2 = pop_spec(s1);
            (CpuView { pc: add16(word(lo, hi), 1), ..s2 }, base)
        },
        Operation::Sbc => (sbc_spec(s, m), base),
        Operation::Sec => (CpuView { flags: Flags { c: true, ..s.flags }, ..s }, base),
        Operation::Sed => (CpuView { flags: Flags { d: true, ..s.flags }, ..s }, base),
        Operation::Sei => (CpuView { flags: Flags { i: true, ..s.flags }, ..s }, base),
        Operation::Sta => (store_result(s, operand, s.a), base),
        Operation::Stx => (store_result(s, operand, s.x), base),
        Operation::Sty => (store_result(s, operand, s.y), base),
        Operation::Tax => (with_x_zn(s, s.a), base),
        Operation::Tay => (with_y_zn(s, s.a), base),
        Operation::Tsx => (with_x_zn(s, s.sp), base),
        Operation::Txa => (with_a_zn(s, s.x), base),
        Operation::Txs => (CpuView { sp: s.x, ..s }, base),
        Operation::Tya => (with_a_zn(s, s.y), base),
    }
}

/// One step of the machine: a no-op while paused; otherwise fetch the
/// opcode, decode it (halting on a byte with no documented operation, at
/// zero cycles), resolve the addressing mode, and execute. The result is the
/// next machine state and the instruction's cycle cost.
pub open spec fn step_spec(s: CpuView) -> (CpuView, u8) {
    if s.halted {
        (s, 0)
    } else {
        let opcode = s.mem[s.pc as int];
        let s1 = CpuView { pc: add16(s.pc, 1), ..s };
        match decode_spec(opcode) {
            Option::None => (CpuView { halted: true, ..s1 }, 0),
            Option::Some(ins) => {
                let r = resolve_spec(ins.mode, s1.pc, s1.x, s1.y, s1.mem);
                let s2 = CpuView { pc: r.pc, ..s1 };
                exec_spec(ins, r.operand, r.crossed, s2)
            },
        }
    }
}

impl Cpu {
    /// Pushes a byte onto the stack page.
    fn push(&mut self, v: u8)
        requires
            old(self).wf(),
        ensures
            final(self).wf(),
            final(self)@ == push_spec(old(self)@, v),
    {
        self.mem.write(0x100 + self.sp as u16, v);
        self.sp = if self.sp == 0 { 0xFF } else { self.sp - 1 };
    }

    /// Pops a byte from the stack page.
    fn pop(&mut self) -> (v: u8)
        requires
            old(self).wf(),
        ensures
            final(self).wf(),
            v == pop_value(old(self)@),
            final(self)@ == pop_spec(old(self)@),
    {
        self.sp = if self.sp == 0xFF { 0 } else { self.sp + 1 };
        self.mem.read(0x100 + self.sp as u16)
    }

    /// Packs the flags into the status byte, with the unused bit set and bit
    /// 4 as given.
    fn status_to_byte(&self, brk: bool) -> (v: u8)
        ensures
            v == status_byte(self@.flags, brk),
    {
        (if self.flags.n { 128u8 } else { 0u8 }) + (if self.flags.v { 64u8 } else { 0u8 }) + 32
            + (if brk { 16u8 } else { 0u8 }) + (if self.flags.d { 8u8 } else { 0u8 })
            + (if self.flags.i { 4u8 } else { 0u8 }) + (if self.flags.z { 2u8 } else { 0u8 })
            + (if self.flags.c { 1u8 } else { 0u8 })
    }

    /// Unpacks a pulled status byte into flags.
    fn byte_to_flags(p: u8) -> (f: Flags)
        ensures
            f == unpack_status(p),
    {
        Flags {
            n: p / 128 % 2 == 1,
            v: p / 64 % 2 == 1,
            b: p / 16 % 2 == 1,
            d: p / 8 % 2 == 1,
            i: p / 4 % 2 == 1,
            z: p / 2 % 2 == 1,
            c: p % 2 == 1,
        }
    }

    /// Reads the byte an operand denotes.
    fn read_operand(&self, operand: Operand) -> (v: u8)
        requires
            self.wf(),
        ensures
            v == operand_value(self@, operand),
    {
        match operand {
            Operand::Implied => 0,
            Operand::Accumulator => self.a,
            Operand::Immediate(v) => v,
            Operand::Address(a) => self.mem.read(a),
        }
    }

    /// Writes a result byte back to the operand's place.
    fn write_result(&mut self, operand: Operand, v: u8)
        requires
            old(self).wf(),
        ensures
            final(self).wf(),
            final(self)@ == store_result(old(self)@, operand, v),
    {
        match operand {
            Operand::Accumulator => {
                self.a = v;
            },
            Operand::Address(a) => {
                self.mem.write(a, v);
            },
            _ => {},
        }
    }

    /// The address an operand names.
    fn operand_addr(operand: Operand) -> (a: u16)
        ensures
            a == operand_address(operand),
    {
        match operand {
            Operand::Address(t) => t,
            _ => 0,
        }
    }

    /// Recomputes Zero and Negative from a result byte.
    fn set_zn_flags(&mut self, v: u8)
        ensures
            final(self)@ == (CpuView { flags: set_zn(old(self)@.flags, v), ..old(self)@ }),
    {
        self.flags.z = v == 0;
        self.flags.n = v >= 0x80;
    }

    /// Add with carry (binary mode).
    fn adc(&mut self, m: u8)
        ensures
            final(self)@ == adc_spec(old(self)@, m),
    {
        let c0: u16 = if self.flags.c { 1 } else { 0 };
        let sum: u16 = self.a as u16 + m as u16 + c0;
        let r: u8 = (sum % 256) as u8;
        let vf: bool = ((self.a >= 0x80) == (m >= 0x80)) && ((r >= 0x80) != (self.a >= 0x80));
        self.flags = Flags { c: sum > 255, v: vf, z: r == 0, n: r >= 0x80, ..self.flags };
        self.a = r;
    }

    /// Compare a register with an operand byte.
    fn compare(&mut self, reg: u8, m: u8)
        ensures
            final(self)@ == (CpuView { flags: compare_flags(old(self)@.flags, reg, m), ..old(self)@ }),
    {
        let diff: u16 = (reg as u16 + 256 - m as u16) % 256;
        proof {
            vstd::arithmetic::div_mod::lemma_mod_add_multiples_vanish(reg - m, 256);
        }
        self.flags = Flags { c: reg >= m, z: reg == m, n: diff >= 0x80, ..self.flags };
    }

    /// Takes a conditional branch, or not, accounting the extra cycles.
    fn do_branch(&mut self, operand: Operand, crossed: bool, taken: bool, base: u8) -> (cyc: u8)
        requires
            old(self).wf(),
            base <= 8,
        ensures
            final(self).wf(),
            (final(self)@, cyc) == branch_spec(old(self)@, operand, crossed, taken, base),
    {
        if taken {
            self.pc = Cpu::operand_addr(operand);
            base + 1 + (if crossed { 1u8 } else { 0u8 })
        } else {
            base
        }
    }

    /// Pushes the program counter and status byte and enters through the
    /// interrupt vector.
    fn interrupt_entry(&mut self, brk_bit: bool)
        requires
            old(self).wf(),
        ensures
            final(self).wf(),
            final(self)@ == interrupt_entry_spec(old(self)@, brk_bit),
    {
        let hi: u8 = (self.pc / 256) as u8;
        let lo: u8 = (self.pc % 256) as u8;
        self.push(hi);
        self.push(lo);
        let sb: u8 = self.status_to_byte(brk_bit);
        self.push(sb);
        self.flags.i = true;
        self.pc = self.mem.get_interrupt_vector();
    }

    /// Delivers a maskable interrupt: a no-op while Interrupt-Disable is set
    /// or the emulator is paused, otherwise the interrupt entry sequence.
    pub fn interrupt(&mut self)
        requires
            old(self).wf(),
        ensures
            final(self).wf(),
            final(self)@ == irq_spec(old(self)@),
    {
        if !self.halted && !self.flags.i {
            self.interrupt_entry(false);
        }
    }

    /// Delivers a non-maskable interrupt: bypasses Interrupt-Disable; only
    /// the emulator-level pause suppresses it.
    pub fn non_maskable_interrupt(&mut self)
        requires
            old(self).wf(),
        ensures
            final(self).wf(),
            final(self)@ == nmi_spec(old(self)@),
    {
        if !self.halted {
            self.interrupt_entry(false);
        }
    }

    /// Loads, stores, and register transfers.
    #[verifier::rlimit(100)]
    #[verifier::spinoff_prover]
    fn exec_load_transfer(&mut self, ins: Instr, operand: Operand, crossed: bool) -> (cyc: u8)
        requires
            old(self).wf(),
            ins.cycles <= 7,
            ins.op is Lda || ins.op is Ldx || ins.op is Ldy || ins.op is Sta || ins.op is Stx
                || ins.op is Sty || ins.op is Tax || ins.op is Tay || ins.op is Tsx
                || ins.op is Txa || ins.op is Txs || ins.op is Tya,
        ensures
            final(self).wf(),
            (final(self)@, cyc) == exec_spec(ins, operand, crossed, old(self)@),
    {
        let base: u8 = if ins.page_penalty && crossed { ins.cycles + 1 } else { ins.cycles };
        match ins.op {
            Operation::Lda => {
                let m: u8 = self.read_operand(operand);
                self.a = m;
                self.set_zn_flags(m);
                base
            },
            Operation::Ldx => {
                let m: u8 = self.read_operand(operand);
                self.x = m;
                self.set_zn_flags(m);
                base
            },
            Operation::Ldy => {
                let m: u8 = self.read_operand(operand);
                self.y = m;
                self.set_zn_flags(m);
                base
            },
            Operation::Sta => {
                let v: u8 = self.a;
                self.write_result(operand, v);
                base
            },
            Operation::Stx => {
                let v: u8 = self.x;
                self.write_result(operand, v);
                base
            },
            Operation::Sty => {
                let v: u8 = self.y;
                self.write_result(operand, v);
                base
            },
            Operation::Tax => {
                let v: u8 = self.a;
                self.x = v;
                self.set_zn_flags(v);
                base
            },
            Operation::Tay => {
                let v: u8 = self.a;
                self.y = v;
                self.set_zn_flags(v);
                base
            },
            Operation::Tsx => {
                let v: u8 = self.sp;
                self.x = v;
                self.set_zn_flags(v);
                base
            },
            Operation::Txa => {
                let v: u8 = self.x;
                self.a = v;
                self.set_zn_flags(v);
                base
            },
            Operation::Txs => {
                self.sp = self.x;
                base
            },
            Operation::Tya => {
                let v: u8 = self.y;
                self.a = v;
                self.set_zn_flags(v);
                base
            },
            // Ruled out by the precondition: the dispatcher passes only this
            // group's operations.
            _ => base,
        }
    }

    /// Add/subtract with carry, compares, and increments/decrements.
    #[verifier::rlimit(100)]
    #[verifier::spinoff_prover]
    fn exec_arithmetic(&mut self, ins: Instr, operand: Operand, crossed: bool) -> (cyc: u8)
        requires
            old(self).wf(),
            ins.cycles <= 7,
            ins.op is Adc || ins.op is Sbc || ins.op is Cmp || ins.op is Cpx || ins.op is Cpy
                || ins.op is Inc || ins.op is Inx || ins.op is Iny || ins.op is Dec
                || ins.op is Dex || ins.op is Dey,
        ensures
            final(self).wf(),
            (final(self)@, cyc) == exec_spec(ins, operand, crossed, old(self)@),
    {
        let base: u8 = if ins.page_penalty && crossed { ins.cycles + 1 } else { ins.cycles };
        match ins.op {
            Operation::Adc => {
                let m: u8 = self.read_operand(operand);
                self.adc(m);
                base
            },
            Operation::Sbc => {
                let m: u8 = self.read_operand(operand);
                self.adc(255 - m);
                base
            },
            Operation::Cmp => {
                let m: u8 = self.read_operand(operand);
                let reg: u8 = self.a;
                self.compare(reg, m);
                base
            },
            Operation::Cpx => {
                let m: u8 = self.read_operand(operand);
                let reg: u8 = self.x;
                self.compare(reg, m);
                base
            },
            Operation::Cpy => {
                let m: u8 = self.read_operand(operand);
                let reg: u8 = self.y;
                self.compare(reg, m);
                base
            },
            Operation::Inc => {
                let m: u8 = self.read_operand(operand);
                let r: u8 = ((m as u16 + 1) % 256) as u8;
                self.write_result(operand, r);
                self.set_zn_flags(r);
                base
            },
            Operation::Inx => {
                let r: u8 = ((self.x as u16 + 1) % 256) as u8;
                self.x = r;
                self.set_zn_flags(r);
                base
            },
            Operation::Iny => {
                let r: u8 = ((self.y as u16 + 1) % 256) as u8;
                self.y = r;
                self.set_zn_flags(r);
                base
            },
            Operation::Dec => {
                let m: u8 = self.read_operand(operand);
                let r: u8 = ((m as u16 + 255) % 256) as u8;
                proof {
                    vstd::arithmetic::div_mod::lemma_mod_add_multiples_vanish(m - 1, 256);
                }
                self.write_result(operand, r);
                self.set_zn_flags(r);
                base
            },
            Operation::Dex => {
                let r: u8 = ((self.x as u16 + 255) % 256) as u8;
                proof {
                    vstd::arithmetic::div_mod::lemma_mod_add_multiples_vanish(self@.x - 1, 256);
                }
                self.x = r;
                self.set_zn_flags(r);
                base
            },
            Operation::Dey => {
                let r: u8 = ((self.y as u16 + 255) % 256) as u8;
                proof {
                    vstd::arithmetic::div_mod::lemma_mod_add_multiples_vanish(self@.y - 1, 256);
                }
                self.y = r;
                self.set_zn_flags(r);
                base
            },
            // Ruled out by the precondition: the dispatcher passes only this
            // group's operations.
            _ => base,
        }
    }

    /// Bitwise logic, the bit test, and shifts/rotates.
    #[verifier::rlimit(100)]
    #[verifier::spinoff_prover]
    fn exec_logic_shift(&mut self, ins: Instr, operand: Operand, crossed: bool) -> (cyc: u8)
        requires
            old(self).wf(),
            ins.cycles <= 7,
            ins.op is And || ins.op is Ora || ins.op is Eor || ins.op is Bit || ins.op is Asl
                || ins.op is Lsr || ins.op is Rol || ins.op is Ror,
        ensures
            final(self).wf(),
            (final(self)@, cyc) == exec_spec(ins, operand, crossed, old(self)@),
    {
        let base: u8 = if ins.page_penalty && crossed { ins.cycles + 1 } else { ins.cycles };
        match ins.op {
            Operation::And => {
                let m: u8 = self.read_operand(operand);
                let r: u8 = self.a & m;
                self.a = r;
                self.set_zn_flags(r);
                base
            },
            Operation::Ora => {
                let m: u8 = self.read_operand(operand);
                let r: u8 = self.a | m;
                self.a = r;
                self.set_zn_flags(r);
                base
            },
            Operation::Eor => {
                let m: u8 = self.read_operand(operand);
                let r: u8 = self.a ^ m;
                self.a = r;
                self.set_zn_flags(r);
                base
            },
            Operation::Bit => {
                let m: u8 = self.read_operand(operand);
                self.flags.z = (self.a & m) == 0;
                self.flags.n = m >= 0x80;
                self.flags.v = (m & 0x40) == 0x40;
                base
            },
            Operation::Asl => {
                let m: u8 = self.read_operand(operand);
                let r: u8 = ((m as u16 * 2) % 256) as u8;
                self.write_result(operand, r);
                self.set_zn_flags(r);
                self.flags.c = m >= 0x80;
                base
            },
            Operation::Lsr => {
                let m: u8 = self.read_operand(operand);
                let r: u8 = m / 2;
                self.write_result(operand, r);
                self.set_zn_flags(r);
                self.flags.c = m % 2 == 1;
                base
            },
            Operation::Rol => {
                let m: u8 = self.read_operand(operand);
                let c0: u16 = if self.flags.c { 1 } else { 0 };
                let r: u8 = ((m as u16 * 2 + c0) % 256) as u8;
                self.write_result(operand, r);
                self.set_zn_flags(r);
                self.flags.c = m >= 0x80;
                base
            },
            Operation::Ror => {
                let m: u8 = self.read_operand(operand);
                let r: u8 = m / 2 + (if self.flags.c { 128u8 } else { 0u8 });
                self.write_result(operand, r);
                self.set_zn_flags(r);
                self.flags.c = m % 2 == 1;
                base
            },
            // Ruled out by the precondition: the dispatcher passes only this
            // group's operations.
            _ => base,
        }
    }

    /// Conditional branches, jumps, and the subroutine call/return pair.
    #[verifier::rlimit(100)]
    #[verifier::spinoff_prover]
    fn exec_control(&mut self, ins: Instr, operand: Operand, crossed: bool) -> (cyc: u8)
        requires
            old(self).wf(),
            ins.cycles <= 7,
            ins.op is Bcc || ins.op is Bcs || ins.op is Beq || ins.op is Bmi || ins.op is Bne
                || ins.op is Bpl || ins.op is Bvc || ins.op is Bvs || ins.op is Jmp
                || ins.op is Jsr || ins.op is Rts,
        ensures
            final(self).wf(),
            (final(self)@, cyc) == exec_spec(ins, operand, crossed, old(self)@),
    {
        let base: u8 = if ins.page_penalty && crossed { ins.cycles + 1 } else { ins.cycles };
        match ins.op {
            Operation::Bcc => {
                let taken: bool = !self.flags.c;
                self.do_branch(operand, crossed, taken, base)
            },
            Operation::Bcs => {
                let taken: bool = self.flags.c;
                self.do_branch(operand, crossed, taken, base)
            },
            Operation::Beq => {
                let taken: bool = self.flags.z;
                self.do_branch(operand, crossed, taken, base)
            },
            Operation::Bmi => {
                let taken: bool = self.flags.n;
                self.do_branch(operand, crossed, taken, base)
            },
            Operation::Bne => {
                let taken: bool = !self.flags.z;
                self.do_branch(operand, crossed, taken, base)
            },
            Operation::Bpl => {
                let taken: bool = !self.flags.n;
                self.do_branch(operand, crossed, taken, base)
            },
            Operation::Bvc => {
                let taken: bool = !self.flags.v;
                self.do_branch(operand, crossed, taken, base)
            },
            Operation::Bvs => {
                let taken: bool = self.flags.v;
                self.do_branch(operand, crossed, taken, base)
            },
            Operation::Jmp => {
                self.pc = Cpu::operand_addr(operand);
                base
            },
            Operation::Jsr => {
                let t: u16 = Cpu::operand_addr(operand);
                let ret: u16 = ((self.pc as u32 + 0xFFFF) % 0x10000) as u16;
                self.push((ret / 256) as u8);
                self.push((ret % 256) as u8);
                self.pc = t;
                base
            },
            Operation::Rts => {
                let lo: u8 = self.pop();
                let hi: u8 = self.pop();
                self.pc = ((hi as u32 * 256 + lo as u32 + 1) % 0x10000) as u16;
                base
            },
            // Ruled out by the precondition: the dispatcher passes only this
            // group's operations.
            _ => base,
        }
    }

    /// Stack pushes/pulls, flag set/clear, the software interrupt, and its return.
    #[verifier::rlimit(100)]
    #[verifier::spinoff_prover]
    fn exec_stack_system(&mut self, ins: Instr, operand: Operand, crossed: bool) -> (cyc: u8)
        requires
            old(self).wf(),
            ins.cycles <= 7,
            ins.op is Pha || ins.op is Php || ins.op is Pla || ins.op is Plp || ins.op is Brk
                || ins.op is Rti || ins.op is Nop || ins.op is Clc || ins.op is Cld
                || ins.op is Cli || ins.op is Clv || ins.op is Sec || ins.op is Sed
                || ins.op is Sei,
        ensures
            final(self).wf(),
            (final(self)@, cyc) == exec_spec(ins, operand, crossed, old(self)@),
    {
        let base: u8 = if ins.page_penalty && crossed { ins.cycles + 1 } else { ins.cycles };
        match ins.op {
            Operation::Pha => {
                let v: u8 = self.a;
                self.push(v);
                base
            },
            Operation::Php => {
                let sb: u8 = self.status_to_byte(true);
                self.push(sb);
                base
            },
            Operation::Pla => {
                let v: u8 = self.pop();
                self.a = v;
                self.set_zn_flags(v);
                base
            },
            Operation::Plp => {
                let p: u8 = self.pop();
                self.flags = Cpu::byte_to_flags(p);
                base
            },
            Operation::Brk => {
                self.pc = ((self.pc as u32 + 1) % 0x10000) as u16;
                self.interrupt_entry(true);
                base
            },
            Operation::Rti => {
                let p: u8 = self.pop();
                self.flags = Cpu::byte_to_flags(p);
                let lo: u8 = self.pop();
                let hi: u8 = self.pop();
                self.pc = (hi as u16) * 256 + (lo as u16);
                base
            },
            Operation::Nop => base,
            Operation::Clc => {
                self.flags.c = false;
                base
            },
            Operation::Cld => {
                self.flags.d = false;
                base
            },
            Operation::Cli => {
                self.flags.i = false;
                base
            },
            Operation::Clv => {
                self.flags.v = false;
                base
            },
            Operation::Sec => {
                self.flags.c = true;
                base
            },
            Operation::Sed => {
                self.flags.d = true;
                base
            },
            Operation::Sei => {
                self.flags.i = true;
                base
            },
            // Ruled out by the precondition: the dispatcher passes only this
            // group's operations.
            _ => base,
        }
    }

    /// Executes one decoded instruction whose operand is already resolved.
    fn execute(&mut self, ins: Instr, operand: Operand, crossed: bool) -> (cyc: u8)
        requires
            old(self).wf(),
            ins.cycles <= 7,
        ensures
            final(self).wf(),
            (final(self)@, cyc) == exec_spec(ins, operand, crossed, old(self)@),
    {
        match ins.op {
            Operation::Lda | Operation::Ldx | Operation::Ldy | Operation::Sta | Operation::Stx | Operation::Sty | Operation::Tax | Operation::Tay | Operation::Tsx | Operation::Txa | Operation::Txs | Operation::Tya => self.exec_load_transfer(ins, operand, crossed),
            Operation::Adc | Operation::Sbc | Operation::Cmp | Operation::Cpx | Operation::Cpy | Operation::Inc | Operation::Inx | Operation::Iny | Operation::Dec | Operation::Dex | Operation::Dey => self.exec_arithmetic(ins, operand, crossed),
            Operation::And | Operation::Ora | Operation::Eor | Operation::Bit | Operation::Asl | Operation::Lsr | Operation::Rol | Operation::Ror => self.exec_logic_shift(ins, operand, crossed),
            Operation::Bcc | Operation::Bcs | Operation::Beq | Operation::Bmi | Operation::Bne | Operation::Bpl | Operation::Bvc | Operation::Bvs | Operation::Jmp | Operation::Jsr | Operation::Rts => self.exec_control(ins, operand, crossed),
            Operation::Pha | Operation::Php | Operation::Pla | Operation::Plp | Operation::Brk | Operation::Rti | Operation::Nop | Operation::Clc | Operation::Cld | Operation::Cli | Operation::Clv | Operation::Sec | Operation::Sed | Operation::Sei => self.exec_stack_system(ins, operand, crossed),
        }
    }

    /// Executes exactly one instruction per [`step_spec`] and returns its
    /// cycle cost. A no-op at zero cycles while the emulator is paused; on
    /// an opcode byte with no documented operation the machine halts and the
    /// step costs zero cycles.
    #[verifier::rlimit(100)]
    #[verifier::spinoff_prover]
    pub fn step(&mut self) -> (cycles: u8)
        requires
            old(self).wf(),
        ensures
            final(self).wf(),
            (final(self)@, cycles) == step_spec(old(self)@),
            old(self)@.halted ==> final(self)@ == old(self)@ && cycles == 0,
    {
        if self.halted {
            0
        } else {
            let opcode: u8 = self.fetch();
            match decode(opcode) {
                Option::None => {
                    self.halted = true;
                    0
                },
                Option::Some(ins) => {
                    let r: (Operand, bool) = self.resolve(ins.mode);
                    self.execute(ins, r.0, r.1)
                },
            }
        }
    }
}

} // verus!
