//! The flat 64 KiB address space: zero page, stack page, I/O windows and the
//! program-ROM window are all plain bytes to the core.

use vstd::prelude::*;
use crate::rom::Rom;

verus! {

/// Number of addressable bytes.
pub const MEM_SIZE: usize = 0x10000;

/// First address of the program-ROM window; also the reset value of the
/// program counter.
pub const ROM_BASE: usize = 0x4020;

/// A flat byte array covering the whole 16-bit address space.
pub struct Memory {
    pub data: Vec<u8>,
}

impl View for Memory {
    type V = Seq<u8>;

    open spec fn view(&self) -> Seq<u8> {
        self.data@
    }
}

impl Memory {
    /// The memory always spans the whole address space.
    pub open spec fn wf(&self) -> bool {
        self.data@.len() == MEM_SIZE
    }

    /// A zero-filled address space.
    pub fn new() -> (r: Memory)
        ensures
            r.wf(),
            forall|j: int| 0 <= j < MEM_SIZE ==> r@[j] == 0u8,
    {
        let mut data: Vec<u8> = Vec::new();
        while data.len() < MEM_SIZE
            invariant
                data@.len() <= MEM_SIZE,
                forall|j: int| 0 <= j < data@.len() ==> data@[j] == 0u8,
            decreases MEM_SIZE - data@.len(),
        {
            data.push(0);
        }
        Memory { data }
    }

    /// Reads the byte at an address. Total: every 16-bit address is legal.
    pub fn read(&self, idx: u16) -> (r: u8)
        requires
            self.wf(),
        ensures
            r == self@[idx as int],
    {
        self.data[idx as usize]
    }

    /// Writes a byte at an address. Total: every 16-bit address is legal and
    /// no region is write-protected.
    pub fn write(&mut self, val: u8, idx: u16)
        requires
            old(self).wf(),
        ensures
            final(self).wf(),
            final(self)@ == old(self)@.update(idx as int, val),
    {
        self.data[idx as usize] = val;
    }

    /// Copies the program bytes into the program-ROM window, leaving every
    /// other address untouched.
    pub fn load_rom(&mut self, rom: Rom)
        requires
            old(self).wf(),
            rom.prg_rom@.len() <= MEM_SIZE - ROM_BASE,
        ensures
            final(self).wf(),
            forall|j: int|
                0 <= j < MEM_SIZE ==> final(self)@[j] == (if ROM_BASE <= j < ROM_BASE
                    + rom.prg_rom@.len() {
                    rom.prg_rom@[j - ROM_BASE]
                } else {
                    old(self)@[j]
                }),
    {
        let ghost m0 = self@;
        let n: usize = rom.prg_rom.len();
        let mut i: usize = 0;
        while i < n
            invariant
                self.wf(),
                m0.len() == MEM_SIZE,
                i <= n,
                n == rom.prg_rom@.len(),
                n <= MEM_SIZE - ROM_BASE,
                forall|j: int|
                    0 <= j < MEM_SIZE ==> self@[j] == (if ROM_BASE <= j < ROM_BASE + i {
                        rom.prg_rom@[j - ROM_BASE]
                    } else {
                        m0[j]
                    }),
            decreases n - i,
        {
            let b = rom.prg_rom[i];
            let ghost prev = self@;
            self.data[ROM_BASE + i] = b;
            proof {
                assert forall|j: int| 0 <= j < MEM_SIZE implies self@[j] == (if ROM_BASE <= j
                    < ROM_BASE + (i + 1) {
                    rom.prg_rom@[j - ROM_BASE]
                } else {
                    m0[j]
                }) by {
                    assert(self@ == prev.update(ROM_BASE + i as int, b));
                    if j != ROM_BASE + i {
                        assert(self@[j] == prev[j]);
                    }
                }
            }
            i = i + 1;
        }
    }
}

} // verus!
