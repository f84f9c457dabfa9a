//! Flat 64 KiB addressable memory: a byte store with read/write by 16-bit
//! address and the two fixed little-endian vector pairs the CPU consumes on
//! reset and interrupt entry.

use vstd::prelude::*;

verus! {

/// Number of addressable bytes: the full 16-bit address space.
pub const MEMORY_SIZE: usize = 0x10000;

/// A 16-bit value assembled little-endian from a low and a high byte.
pub open spec fn word(lo: u8, hi: u8) -> u16 {
    (hi * 256 + lo) as u16
}

/// Byte-addressable store of 65536 bytes. Every 16-bit address is valid;
/// reads and writes never fail and have no effect beyond storage.
pub struct Memory {
    data: Vec<u8>,
}

impl View for Memory {
    type V = Seq<u8>;

    closed spec fn view(&self) -> Seq<u8> {
        self.data@
    }
}

impl Memory {
    /// A memory value always holds exactly one byte per 16-bit address.
    pub open spec fn wf(&self) -> bool {
        self@.len() == MEMORY_SIZE
    }

    /// Creates a zero-filled 64 KiB memory.
    pub fn new() -> (m: Memory)
        ensures
            m.wf(),
            forall|a: int| 0 <= a < MEMORY_SIZE ==> m@[a] == 0u8,
    {
        let mut data: Vec<u8> = Vec::new();
        let mut i: usize = 0;
        while i < MEMORY_SIZE
            invariant
                i <= MEMORY_SIZE,
                data@.len() == i,
                forall|a: int| 0 <= a < i ==> data@[a] == 0u8,
            decreases MEMORY_SIZE - i,
        {
            data.push(0);
            i = i + 1;
        }
        Memory { data }
    }

    /// Reads a byte from memory at the given address.
    pub fn read(&self, address: u16) -> (value: u8)
        requires
            self.wf(),
        ensures
            value == self@[address as int],
    {
        self.data[address as usize]
    }

    /// Writes a byte to memory at the given address, overwriting the byte
    /// stored there and touching nothing else.
    pub fn write(&mut self, address: u16, value: u8)
        requires
            old(self).wf(),
        ensures
            final(self).wf(),
            final(self)@ == old(self)@.update(address as int, value),
    {
        self.data.set(address as usize, value);
    }

    /// The 16-bit reset address stored little-endian at `0xFFFC`/`0xFFFD`.
    pub fn get_reset_vector(&self) -> (address: u16)
        requires
            self.wf(),
        ensures
            address == word(self@[0xFFFC], self@[0xFFFD]),
    {
        let low_byte: u8 = self.read(0xFFFC);
        let high_byte: u8 = self.read(0xFFFD);

        (high_byte as u16) * 256 + (low_byte as u16)
    }

    /// The 16-bit interrupt address stored little-endian at `0xFFFE`/`0xFFFF`.
    pub fn get_interrupt_vector(&self) -> (address: u16)
        requires
            self.wf(),
        ensures
            address == word(self@[0xFFFE], self@[0xFFFF]),
    {
        let low_byte: u8 = self.read(0xFFFE);
        let high_byte: u8 = self.read(0xFFFF);

        (high_byte as u16) * 256 + (low_byte as u16)
    }
}

/// Storing a byte and reading it back at the same address yields that byte.
pub proof fn lemma_memory_round_trip(m: Seq<u8>, a: u16, v: u8)
    requires
        m.len() == MEMORY_SIZE,
    ensures
        m.update(a as int, v)[a as int] == v,
{
}

} // verus!
