//! Memory bus: the single point of truth for the 16-bit address space.
//!
//! The bus owns the 2 KiB of system RAM and the loaded cartridge and routes
//! every byte read or write by address range: RAM is mirrored four times
//! across `0x0000..0x2000`, the device-register window `0x2000..0x4000` is
//! stubbed (reads return 0, writes are dropped), addresses below `0x8000`
//! outside those ranges are unmapped, and `0x8000..=0xFFFF` shows the
//! cartridge PRG bytes, mirrored to fill the range when the cartridge
//! supplies a single 16 KiB bank.  Writes into the ROM region are discarded,
//! never an error.

use crate::cartridge::PRG_BANK_SIZE;
use crate::cartridge::Rom;
use vstd::arithmetic::div_mod::lemma_mod_multiples_vanish;
use vstd::prelude::*;

verus! {

/// Number of physical RAM bytes.
pub const RAM_SIZE: usize = 0x800;

/// Physical RAM byte selected by a CPU address in `0x0000..0x2000`.
pub open spec fn mirror_ram_index(addr: u16) -> int {
    (addr % 0x800) as int
}

pub struct Bus {
    pub ram: [u8; 0x800],
    pub rom: Rom,
}

impl Bus {
    /// PRG byte shown at `offset` bytes past `0x8000`: the PRG region
    /// repeats to fill the 32 KiB window when it is smaller than it.
    pub open spec fn spec_prg_read(self, offset: int) -> u8
        recommends
            0 <= offset,
    {
        if self.rom.prg@.len() == 0 {
            0
        } else {
            self.rom.prg@[offset % (self.rom.prg@.len() as int)]
        }
    }

    /// The byte a read at `addr` returns, by address-range dispatch.
    pub open spec fn spec_read(self, addr: u16) -> u8 {
        if addr < 0x2000 {
            self.ram@[mirror_ram_index(addr)]
        } else if addr < 0x4000 {
            0
        } else if addr < 0x8000 {
            0
        } else {
            self.spec_prg_read(addr - 0x8000)
        }
    }

    /// Little-endian 16-bit value read at `addr`: low byte at `addr`, high
    /// byte at `addr + 1` (wrapping around the top of the address space).
    pub open spec fn spec_read_u16(self, addr: u16) -> u16 {
        ((self.spec_read(addr) as int) + 256 * (self.spec_read(
            ((addr as int + 1) % 0x10000) as u16,
        ) as int)) as u16
    }

    /// A fresh bus around a loaded cartridge, with RAM cleared.
    pub fn new(rom: Rom) -> (r: Bus)
        ensures
            r.rom == rom,
            forall|i: int| 0 <= i < 0x800 ==> r.ram@[i] == 0,
    {
        Bus { ram: [0u8; 0x800], rom }
    }

    /// Reads one byte at `addr`.
    pub fn mem_read(&self, addr: u16) -> (r: u8)
        ensures
            r == self.spec_read(addr),
    {
        if addr < 0x2000 {
            let idx = (addr % 0x800) as usize;
            self.ram[idx]
        } else if addr < 0x4000 {
            // device-register window: stubbed, reads return 0
            0
        } else if addr < 0x8000 {
            // unmapped
            0
        } else {
            let off = (addr - 0x8000) as usize;
            if self.rom.prg.len() == 0 {
                0
            } else {
                let i = off % self.rom.prg.len();
                self.rom.prg[i]
            }
        }
    }

    /// Reads the little-endian 16-bit value at `addr` (used for vector and
    /// absolute-address fetches).
    pub fn mem_read_u16(&self, addr: u16) -> (r: u16)
        ensures
            r == self.spec_read_u16(addr),
    {
        let lo = self.mem_read(addr) as u16;
        let hi_addr: u16 = if addr == 0xffff {
            0
        } else {
            addr + 1
        };
        let hi = self.mem_read(hi_addr) as u16;
        hi * 256 + lo
    }

    /// Writes one byte at `addr`.  Only the RAM range is writable: a write
    /// there lands in the single physical byte all four mirrors share, and
    /// is therefore observable at every aliasing address; writes anywhere
    /// else (device window, unmapped space, ROM) are dropped.
    pub fn mem_write(&mut self, addr: u16, data: u8)
        ensures
            final(self).rom == old(self).rom,
            addr < 0x2000 ==> final(self).ram@ == old(self).ram@.update(
                mirror_ram_index(addr),
                data,
            ),
            addr >= 0x2000 ==> final(self).ram@ == old(self).ram@,
            forall|a: u16|
                final(self).spec_read(a) == (if addr < 0x2000 && a < 0x2000 && mirror_ram_index(a)
                    == mirror_ram_index(addr) {
                    data
                } else {
                    old(self).spec_read(a)
                }),
    {
        if addr < 0x2000 {
            let idx = (addr % 0x800) as usize;
            self.ram[idx] = data;
        }
        // all other ranges: write dropped
    }
}

/// RAM mirroring, read side: two addresses of the RAM range that select the
/// same physical byte always read the same value.
pub proof fn lemma_ram_mirroring(b: Bus, a1: u16, a2: u16)
    requires
        a1 < 0x2000,
        a2 < 0x2000,
        a1 % 0x800 == a2 % 0x800,
    ensures
        b.spec_read(a1) == b.spec_read(a2),
{
}

/// Cartridge mirroring: when the cartridge supplies exactly one 16 KiB PRG
/// bank, every address in `0xC000..=0xFFFF` reads the same byte as the
/// address one bank below it in `0x8000..=0xBFFF`.
pub proof fn lemma_single_bank_prg_mirroring(b: Bus, addr: u16)
    requires
        b.rom.prg@.len() == PRG_BANK_SIZE,
        0xc000 <= addr,
    ensures
        b.spec_read(addr) == b.spec_read((addr - 0x4000) as u16),
{
    let low = addr - 0xc000;
    lemma_mod_multiples_vanish(1, low as int, 0x4000);
    assert(0x4000 * 1 + low == addr - 0x8000);
}

} // verus!
