//! Machine-wide laws, stated over the mathematical model and proved once.

use vstd::prelude::*;

use crate::cpu::CpuView;
use crate::cpu::Flags;
use crate::cpu::Operand;
use crate::cpu::add16;
use crate::cpu::exec_spec;
use crate::cpu::halt_resume_spec;
use crate::cpu::operand_value;
use crate::cpu::page;
use crate::cpu::resolve_spec;
use crate::cpu::status_byte;
use crate::cpu::step_spec;
use crate::cpu::unpack_status;
use crate::memory::MEMORY_SIZE;
use crate::memory::word;
use crate::opcode::AddressingMode;
use crate::opcode::Instr;

verus! {

/// Zero-page indexed resolution wraps within page zero: whatever the index,
/// the effective address is (base + index) mod 256 and never leaves
/// 0x00-0xFF.
pub proof fn lemma_zero_page_index_wraps(base: u8, index: u8, pc: u16, other: u8, mem: Seq<u8>)
    requires
        mem.len() == MEMORY_SIZE,
        mem[pc as int] == base,
    ensures
        resolve_spec(AddressingMode::ZeroPageX, pc, index, other, mem).operand
            == Operand::Address((((base + index) % 256) as u16)),
        resolve_spec(AddressingMode::ZeroPageY, pc, other, index, mem).operand
            == Operand::Address((((base + index) % 256) as u16)),
        (base + index) % 256 <= 0xFF,
{
}

/// The indirect jump reproduces the documented hardware bug: a pointer
/// whose low byte is 0xFF takes its high byte from the start of its own
/// page, not from the next page.
pub proof fn lemma_indirect_jump_page_wrap(pc: u16, x: u8, y: u8, mem: Seq<u8>)
    requires
        mem.len() == MEMORY_SIZE,
        word(mem[pc as int], mem[add16(pc, 1) as int]) % 256 == 0xFF,
    ensures
        ({
            let ptr = word(mem[pc as int], mem[add16(pc, 1) as int]);
            resolve_spec(AddressingMode::Indirect, pc, x, y, mem).operand
                == Operand::Address(word(mem[ptr as int], mem[(ptr - 0xFF) as int]))
        }),
        ({
            let ptr = word(mem[pc as int], mem[add16(pc, 1) as int]);
            ptr - 0xFF == 256 * page(ptr)
        }),
{
}

/// While paused, a step is a no-op at zero cycles: the registers, flags and
/// memory are exactly preserved.
pub proof fn lemma_step_halted(s: CpuView)
    requires
        s.halted,
    ensures
        step_spec(s) == (s, 0u8),
{
}

/// Toggling pause twice returns exactly the prior machine state, so
/// resuming continues from where the machine was suspended.
pub proof fn lemma_halt_resume_involution(s: CpuView)
    ensures
        halt_resume_spec(halt_resume_spec(s)) == s,
{
}

/// An immediate load sets Zero iff the loaded value is 0 and Negative iff
/// its bit 7 is set, for every byte value, and the loaded register receives
/// the value unchanged.
pub proof fn lemma_load_flags(s: CpuView, v: u8)
    requires
        s.wf(),
        !s.halted,
        s.mem[s.pc as int] == 0xA9 || s.mem[s.pc as int] == 0xA2 || s.mem[s.pc as int] == 0xA0,
        s.mem[add16(s.pc, 1) as int] == v,
    ensures
        (step_spec(s).0.flags.z <==> v == 0),
        (step_spec(s).0.flags.n <==> v >= 0x80),
        s.mem[s.pc as int] == 0xA9 ==> step_spec(s).0.a == v,
        s.mem[s.pc as int] == 0xA2 ==> step_spec(s).0.x == v,
        s.mem[s.pc as int] == 0xA0 ==> step_spec(s).0.y == v,
{
}

/// Every load, whatever its addressing mode, sets Zero iff the loaded
/// value is 0 and Negative iff its bit 7 is set.
pub proof fn lemma_load_flags_any_mode(ins: Instr, operand: Operand, crossed: bool, s: CpuView)
    requires
        ins.op is Lda || ins.op is Ldx || ins.op is Ldy,
    ensures
        ({
            let v = operand_value(s, operand);
            let s2 = exec_spec(ins, operand, crossed, s).0;
            (s2.flags.z <==> v == 0) && (s2.flags.n <==> v >= 0x80)
        }),
{
}

/// The packed status byte always carries the unused bit (bit 5) set.
pub proof fn lemma_status_byte_unused_bit(f: Flags, brk: bool)
    ensures
        status_byte(f, brk) / 32 % 2 == 1,
{
}

/// Packing the flags and unpacking the byte again restores every stored
/// flag, and the Break flag comes back as the bit that was pushed.
pub proof fn lemma_status_byte_round_trip(f: Flags, brk: bool)
    ensures
        ({
            let g = unpack_status(status_byte(f, brk));
            g.c == f.c && g.z == f.z && g.i == f.i && g.d == f.d && g.v == f.v && g.n == f.n
                && g.b == brk
        }),
{
}

/// An X-indexed absolute load costs exactly one cycle more when the
/// effective address crosses a page boundary than when it does not.
pub proof fn lemma_page_cross_penalty(s: CpuView)
    requires
        s.wf(),
        !s.halted,
        s.mem[s.pc as int] == 0xBD,
    ensures
        ({
            let r = resolve_spec(AddressingMode::AbsoluteX, add16(s.pc, 1), s.x, s.y, s.mem);
            step_spec(s).1 == if r.crossed { 5u8 } else { 4u8 }
        }),
{
}

} // verus!
