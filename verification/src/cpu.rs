//! The CPU execution engine: register file, status flags, stack, addressing
//! mode resolution, and the fetch-decode-execute step.
//!
//! Each step fetches the opcode at the program counter, looks it up in the
//! opcode table, resolves the addressing mode to an effective address,
//! executes the instruction against registers and the bus, advances the
//! program counter by the instruction length (jumps and branches set it
//! directly) and accumulates the cycle cost, including page-cross and
//! taken-branch penalties.  An opcode the table leaves unimplemented is a
//! fatal, cleanly reported illegal-opcode condition.  Zero-page index
//! arithmetic, the stack pointer and the program counter all wrap silently,
//! as the hardware does.
//!
//! With the device-register window stubbed there is no interrupt source,
//! so the reset vector load is the only vector transfer; the break
//! instruction serves as the program's halt convention and stops the run
//! loop instead of entering an interrupt sequence.

use crate::bus::Bus;
use crate::bus::mirror_ram_index;
use crate::opcodes::lookup_opcode;
use crate::opcodes::opcode_table;
use crate::opcodes::Mnemonic;
use crate::opcodes::Mode;
use crate::opcodes::OpEntry;
use crate::opcodes::OpInfo;
use vstd::arithmetic::div_mod::lemma_fundamental_div_mod;
use vstd::arithmetic::div_mod::lemma_mod_multiples_vanish;
use vstd::prelude::*;

verus! {

/// The seven independent status bits.  They are packed into one byte, with
/// bit 5 reserved and always set, only when pushed to or pulled from the
/// stack.
#[derive(Clone, Copy, PartialEq, Eq, Structural, Debug)]
pub struct Flags {
    pub carry: bool,
    pub zero: bool,
    pub interrupt_disable: bool,
    pub decimal: bool,
    pub break_flag: bool,
    pub overflow: bool,
    pub negative: bool,
}

/// The register file together with the cycle counter: everything of the CPU
/// except the memory behind the bus.
#[derive(Clone, Copy, PartialEq, Eq, Structural, Debug)]
pub struct Regs {
    pub a: u8,
    pub x: u8,
    pub y: u8,
    pub sp: u8,
    pub pc: u16,
    pub flags: Flags,
    pub cycles: u64,
}

/// The run-time failure of the execution engine: the opcode byte at `addr`
/// has no defined behavior in the opcode table.
#[derive(Clone, Copy, PartialEq, Eq, Structural, Debug)]
pub enum StepError {
    IllegalOpcode { opcode: u8, addr: u16 },
}

/// What a successful step reports: keep running, or the program reached its
/// halt convention (the break instruction).
#[derive(Clone, Copy, PartialEq, Eq, Structural, Debug)]
pub enum StepOutcome {
    Running,
    Halted,
}

/// How a bounded run ended when no error occurred.
#[derive(Clone, Copy, PartialEq, Eq, Structural, Debug)]
pub enum RunEnd {
    Halted,
    StepBudgetExhausted,
}

/// A host-supplied hook, invoked once per instruction boundary with mutable
/// access to the whole machine.  This is how input polling, entropy
/// injection and screen reading reach a running program without the core
/// knowing anything about I/O.
pub trait StepHook {
    fn on_step(&mut self, cpu: &mut Cpu);
}

/// A hook that does nothing.
pub struct NullHook;

impl StepHook for NullHook {
    fn on_step(&mut self, _cpu: &mut Cpu)
        ensures
            *final(_cpu) == *old(_cpu),
    {
    }
}

/// Wraps an integer into an 8-bit byte.
pub open spec fn wrap8(x: int) -> u8 {
    (x % 0x100) as u8
}

/// Wraps an integer into a 16-bit word.
pub open spec fn wrap16(x: int) -> u16 {
    (x % 0x10000) as u16
}

/// Wraps an integer into a 64-bit word.
pub open spec fn wrap64(x: int) -> u64 {
    (x % 0x1_0000_0000_0000_0000) as u64
}

/// 256-byte page a given address lies in.
pub open spec fn page_of(addr: u16) -> int {
    addr as int / 0x100
}

/// Address of the stack cell the stack pointer selects: the stack lives in
/// the fixed page `0x0100..=0x01FF`.
pub open spec fn stack_addr(sp: u8) -> u16 {
    (0x100 + sp as int) as u16
}

/// Status flags packed into one byte: carry, zero, interrupt-disable,
/// decimal, break, the reserved always-set bit, overflow, negative, from
/// bit 0 up.
pub open spec fn spec_flags_to_byte(f: Flags) -> u8 {
    ((if f.carry {
        1int
    } else {
        0int
    }) + (if f.zero {
        2int
    } else {
        0int
    }) + (if f.interrupt_disable {
        4int
    } else {
        0int
    }) + (if f.decimal {
        8int
    } else {
        0int
    }) + (if f.break_flag {
        16int
    } else {
        0int
    }) + 32 + (if f.overflow {
        64int
    } else {
        0int
    }) + (if f.negative {
        128int
    } else {
        0int
    })) as u8
}

/// Status flags unpacked from a byte; the reserved bit is ignored.
pub open spec fn spec_flags_of_byte(b: u8) -> Flags {
    Flags {
        carry: b % 2 == 1,
        zero: (b / 2) % 2 == 1,
        interrupt_disable: (b / 4) % 2 == 1,
        decimal: (b / 8) % 2 == 1,
        break_flag: (b / 16) % 2 == 1,
        overflow: (b / 64) % 2 == 1,
        negative: (b / 128) % 2 == 1,
    }
}

/// The flags a reset establishes: everything clear but interrupt-disable.
pub open spec fn reset_flags() -> Flags {
    Flags {
        carry: false,
        zero: false,
        interrupt_disable: true,
        decimal: false,
        break_flag: false,
        overflow: false,
        negative: false,
    }
}

/// Zero and negative recomputed from a result byte, all other flags kept:
/// zero holds exactly when the byte is 0, negative exactly when its high
/// bit is set.
pub open spec fn zn(f: Flags, v: u8) -> Flags {
    Flags { zero: v == 0, negative: v >= 0x80, ..f }
}

/// Full adder input: accumulator plus operand plus carry-in.
pub open spec fn adc_sum(a: u8, m: u8, c: bool) -> int {
    a + m + (if c {
        1int
    } else {
        0int
    })
}

/// Flags after an add-with-carry of `m` into accumulator value `a`:
/// carry-out, signed overflow (operands of equal sign, result of the other),
/// and zero/negative of the result byte.
pub open spec fn adc_flags(f: Flags, a: u8, m: u8, c: bool) -> Flags {
    let r = wrap8(adc_sum(a, m, c));
    Flags {
        carry: adc_sum(a, m, c) > 0xff,
        overflow: ((a >= 0x80) == (m >= 0x80)) && ((a >= 0x80) != (r >= 0x80)),
        zero: r == 0,
        negative: r >= 0x80,
        ..f
    }
}

/// Flags after comparing a register with an operand: carry when the
/// register is not below the operand, zero on equality, negative from the
/// wrapped difference.
pub open spec fn compare_flags(f: Flags, reg: u8, m: u8) -> Flags {
    Flags { carry: reg >= m, zero: reg == m, negative: wrap8(reg - m) >= 0x80, ..f }
}

/// Target of a relative branch: the offset byte is a signed two's-complement
/// displacement from the address right after the operand.
pub open spec fn branch_target(base: u16, off: u8) -> u16 {
    if off < 0x80 {
        wrap16(base + off)
    } else {
        wrap16(base + off - 0x100)
    }
}

/// Adds two bytes, wrapping within eight bits.
pub fn wrapping_add8(a: u8, b: u8) -> (r: u8)
    ensures
        r == wrap8(a + b),
{
    (((a as u16) + (b as u16)) % 0x100) as u8
}

/// Subtracts one from a byte, wrapping within eight bits.
pub fn dec8(v: u8) -> (r: u8)
    ensures
        r == wrap8(v - 1),
{
    if v == 0 {
        0xff
    } else {
        v - 1
    }
}

/// Adds two words, wrapping within sixteen bits.
pub fn wrapping_add16(a: u16, b: u16) -> (r: u16)
    ensures
        r == wrap16(a + b),
{
    (((a as u32) + (b as u32)) % 0x10000) as u16
}

/// Packs the status flags into their byte form.
pub fn flags_to_byte(f: Flags) -> (r: u8)
    ensures
        r == spec_flags_to_byte(f),
{
    let mut r: u8 = 32;
    if f.carry {
        r = r + 1;
    }
    if f.zero {
        r = r + 2;
    }
    if f.interrupt_disable {
        r = r + 4;
    }
    if f.decimal {
        r = r + 8;
    }
    if f.break_flag {
        r = r + 16;
    }
    if f.overflow {
        r = r + 64;
    }
    if f.negative {
        r = r + 128;
    }
    r
}

/// Unpacks the status flags from their byte form.
pub fn flags_of_byte(b: u8) -> (r: Flags)
    ensures
        r == spec_flags_of_byte(b),
{
    Flags {
        carry: b % 2 == 1,
        zero: (b / 2) % 2 == 1,
        interrupt_disable: (b / 4) % 2 == 1,
        decimal: (b / 8) % 2 == 1,
        break_flag: (b / 16) % 2 == 1,
        overflow: (b / 64) % 2 == 1,
        negative: (b / 128) % 2 == 1,
    }
}

/// The machine: register file, status flags, cycle counter and the bus that
/// owns all memory.
pub struct Cpu {
    pub a: u8,
    pub x: u8,
    pub y: u8,
    pub sp: u8,
    pub pc: u16,
    pub flags: Flags,
    pub cycles: u64,
    pub bus: Bus,
}

impl Cpu {
    /// The register file and cycle counter as one comparable value.
    pub open spec fn regs(self) -> Regs {
        Regs {
            a: self.a,
            x: self.x,
            y: self.y,
            sp: self.sp,
            pc: self.pc,
            flags: self.flags,
            cycles: self.cycles,
        }
    }

    /// The byte a read at `addr` returns.
    pub open spec fn read8(self, addr: u16) -> u8 {
        self.bus.spec_read(addr)
    }

    /// The little-endian word a 16-bit read at `addr` returns.
    pub open spec fn read16(self, addr: u16) -> u16 {
        self.bus.spec_read_u16(addr)
    }

    /// The physical RAM contents.
    pub open spec fn ram(self) -> Seq<u8> {
        self.bus.ram@
    }

    /// Effective address an addressing mode resolves to when the operand
    /// bytes sit at `at`, together with whether the resolution crossed a
    /// 256-byte page boundary (for the modes that charge for it).
    /// Zero-page indexing wraps within the zero page, and the
    /// indirect-jump pointer fetch reproduces the hardware quirk of not
    /// carrying into the pointer's high byte.  Modes without a memory
    /// operand resolve to `at` itself.
    pub open spec fn spec_operand_address(self, mode: Mode, at: u16) -> (u16, bool) {
        match mode {
            Mode::Immediate => (at, false),
            Mode::ZeroPage => (self.read8(at) as u16, false),
            Mode::ZeroPageX => (wrap8(self.read8(at) + self.x) as u16, false),
            Mode::ZeroPageY => (wrap8(self.read8(at) + self.y) as u16, false),
            Mode::Absolute => (self.read16(at), false),
            Mode::AbsoluteX => {
                let base = self.read16(at);
                let addr = wrap16(base + self.x);
                (addr, page_of(addr) != page_of(base))
            },
            Mode::AbsoluteY => {
                let base = self.read16(at);
                let addr = wrap16(base + self.y);
                (addr, page_of(addr) != page_of(base))
            },
            Mode::Indirect => {
                let ptr = self.read16(at);
                if ptr % 0x100 == 0xff {
                    (
                        ((self.read8(ptr) as int) + 256 * (self.read8((ptr - 0xff) as u16) as int)) as u16,
                        false,
                    )
                } else {
                    (self.read16(ptr), false)
                }
            },
            Mode::IndirectX => {
                let ptr = wrap8(self.read8(at) + self.x);
                (
                    ((self.read8(ptr as u16) as int) + 256 * (self.read8(
                        wrap8(ptr + 1) as u16,
                    ) as int)) as u16,
                    false,
                )
            },
            Mode::IndirectY => {
                let base = self.read8(at);
                let deref = ((self.read8(base as u16) as int) + 256 * (self.read8(
                    wrap8(base + 1) as u16,
                ) as int)) as u16;
                let addr = wrap16(deref + self.y);
                (addr, page_of(addr) != page_of(deref))
            },
            Mode::Relative => (at, false),
            Mode::Accumulator => (at, false),
            Mode::Implied => (at, false),
        }
    }

    /// A fresh machine around a bus, in the same state a reset establishes
    /// except that the program counter still has to be loaded from the
    /// reset vector.
    pub fn new(bus: Bus) -> (r: Cpu)
        ensures
            r.bus == bus,
            r.regs() == (Regs {
                a: 0,
                x: 0,
                y: 0,
                sp: 0xfd,
                pc: 0,
                flags: reset_flags(),
                cycles: 0,
            }),
    {
        Cpu {
            a: 0,
            x: 0,
            y: 0,
            sp: 0xfd,
            pc: 0,
            flags: Flags {
                carry: false,
                zero: false,
                interrupt_disable: true,
                decimal: false,
                break_flag: false,
                overflow: false,
                negative: false,
            },
            cycles: 0,
            bus,
        }
    }

    /// Reset: clears the registers, restores the stack pointer to its
    /// top-of-stack default, sets interrupt-disable, and loads the program
    /// counter from the reset vector at `0xFFFC`/`0xFFFD`.  Memory is
    /// untouched.
    pub fn reset(&mut self)
        ensures
            final(self).bus == old(self).bus,
            final(self).regs() == (Regs {
                a: 0,
                x: 0,
                y: 0,
                sp: 0xfd,
                pc: old(self).bus.spec_read_u16(0xfffc),
                flags: reset_flags(),
                cycles: 0,
            }),
    {
        self.a = 0;
        self.x = 0;
        self.y = 0;
        self.sp = 0xfd;
        self.flags = Flags {
            carry: false,
            zero: false,
            interrupt_disable: true,
            decimal: false,
            break_flag: false,
            overflow: false,
            negative: false,
        };
        self.cycles = 0;
        self.pc = self.bus.mem_read_u16(0xfffc);
    }

    /// Reads one byte through the bus.
    pub fn mem_read(&self, addr: u16) -> (r: u8)
        ensures
            r == self.read8(addr),
    {
        self.bus.mem_read(addr)
    }

    /// Reads a little-endian word through the bus.
    pub fn mem_read_u16(&self, addr: u16) -> (r: u16)
        ensures
            r == self.read16(addr),
    {
        self.bus.mem_read_u16(addr)
    }

    /// Writes one byte through the bus; registers are untouched, and the
    /// write is observable exactly at the mirrors of the written RAM byte.
    pub fn mem_write(&mut self, addr: u16, data: u8)
        ensures
            final(self).regs() == old(self).regs(),
            final(self).bus.rom == old(self).bus.rom,
            addr < 0x2000 ==> final(self).ram() == old(self).ram().update(
                mirror_ram_index(addr),
                data,
            ),
            addr >= 0x2000 ==> final(self).ram() == old(self).ram(),
            forall|a2: u16|
                final(self).read8(a2) == (if addr < 0x2000 && a2 < 0x2000 && mirror_ram_index(a2)
                    == mirror_ram_index(addr) {
                    data
                } else {
                    old(self).read8(a2)
                }),
    {
        self.bus.mem_write(addr, data);
    }

    /// Adds to the cycle counter, wrapping within 64 bits.
    fn add_cycles(&mut self, n: u16)
        ensures
            *final(self) == (Cpu { cycles: wrap64(old(self).cycles + n), ..*old(self) }),
    {
        let s: u128 = (self.cycles as u128) + (n as u128);
        self.cycles = (s % 0x1_0000_0000_0000_0000) as u64;
    }

    /// Pushes a byte: it lands in the stack cell the stack pointer selects,
    /// and the stack pointer moves down one, wrapping within the stack page.
    pub fn stack_push(&mut self, v: u8)
        ensures
            final(self).regs() == (Regs { sp: wrap8(old(self).sp - 1), ..old(self).regs() }),
            final(self).bus.rom == old(self).bus.rom,
            final(self).ram() == old(self).ram().update(
                mirror_ram_index(stack_addr(old(self).sp)),
                v,
            ),
            final(self).read8(stack_addr(old(self).sp)) == v,
    {
        let addr: u16 = 0x100 + (self.sp as u16);
        self.bus.mem_write(addr, v);
        self.sp = dec8(self.sp);
    }

    /// Pops a byte: the stack pointer moves up one, wrapping within the
    /// stack page, and the byte of the cell it then selects is returned.
    pub fn stack_pop(&mut self) -> (r: u8)
        ensures
            final(self).regs() == (Regs { sp: wrap8(old(self).sp + 1), ..old(self).regs() }),
            final(self).bus == old(self).bus,
            r == old(self).read8(stack_addr(wrap8(old(self).sp + 1))),
    {
        self.sp = wrapping_add8(self.sp, 1);
        self.bus.mem_read(0x100 + (self.sp as u16))
    }

    /// Pushes a word, high byte first, so that the low byte sits at the
    /// lower stack address.
    pub fn stack_push_u16(&mut self, v: u16)
        ensures
            final(self).regs() == (Regs { sp: wrap8(old(self).sp - 2), ..old(self).regs() }),
            final(self).bus.rom == old(self).bus.rom,
            final(self).ram() == old(self).ram().update(
                mirror_ram_index(stack_addr(old(self).sp)),
                (v / 0x100) as u8,
            ).update(mirror_ram_index(stack_addr(wrap8(old(self).sp - 1))), (v % 0x100) as u8),
    {
        self.stack_push((v / 0x100) as u8);
        self.stack_push((v % 0x100) as u8);
    }

    /// Pops a word: low byte first, then the high byte.
    pub fn stack_pop_u16(&mut self) -> (r: u16)
        ensures
            final(self).regs() == (Regs { sp: wrap8(old(self).sp + 2), ..old(self).regs() }),
            final(self).bus == old(self).bus,
            r == ((old(self).read8(stack_addr(wrap8(old(self).sp + 1))) as int) + 256 * (old(
                self,
            ).read8(stack_addr(wrap8(old(self).sp + 2))) as int)) as u16,
    {
        let lo = self.stack_pop() as u16;
        let hi = self.stack_pop() as u16;
        hi * 0x100 + lo
    }

    /// Recomputes the zero and negative flags from a result byte.
    pub fn update_zero_and_negative(&mut self, v: u8)
        ensures
            final(self).bus == old(self).bus,
            final(self).regs() == (Regs { flags: zn(old(self).flags, v), ..old(self).regs() }),
    {
        self.flags.zero = v == 0;
        self.flags.negative = v >= 0x80;
    }

    /// Loads the accumulator and recomputes zero and negative.
    pub fn set_a(&mut self, v: u8)
        ensures
            final(self).bus == old(self).bus,
            final(self).regs() == (Regs {
                a: v,
                flags: zn(old(self).flags, v),
                ..old(self).regs()
            }),
    {
        self.a = v;
        self.flags.zero = v == 0;
        self.flags.negative = v >= 0x80;
    }

    /// Loads index X and recomputes zero and negative.
    pub fn set_x(&mut self, v: u8)
        ensures
            final(self).bus == old(self).bus,
            final(self).regs() == (Regs {
                x: v,
                flags: zn(old(self).flags, v),
                ..old(self).regs()
            }),
    {
        self.x = v;
        self.flags.zero = v == 0;
        self.flags.negative = v >= 0x80;
    }

    /// Loads index Y and recomputes zero and negative.
    pub fn set_y(&mut self, v: u8)
        ensures
            final(self).bus == old(self).bus,
            final(self).regs() == (Regs {
                y: v,
                flags: zn(old(self).flags, v),
                ..old(self).regs()
            }),
    {
        self.y = v;
        self.flags.zero = v == 0;
        self.flags.negative = v >= 0x80;
    }

    /// Sets the carry flag and recomputes zero and negative, as the shift
    /// and rotate instructions do.
    fn set_carry_zn(&mut self, c: bool, r: u8)
        ensures
            final(self).bus == old(self).bus,
            final(self).regs() == (Regs {
                flags: zn(Flags { carry: c, ..old(self).flags }, r),
                ..old(self).regs()
            }),
    {
        self.flags.carry = c;
        self.flags.zero = r == 0;
        self.flags.negative = r >= 0x80;
    }

    /// Add-with-carry of an operand into the accumulator; subtraction goes
    /// through the same adder with the operand's complement.
    pub fn add_to_a(&mut self, m: u8)
        ensures
            final(self).bus == old(self).bus,
            final(self).regs() == (Regs {
                a: wrap8(adc_sum(old(self).a, m, old(self).flags.carry)),
                flags: adc_flags(old(self).flags, old(self).a, m, old(self).flags.carry),
                ..old(self).regs()
            }),
    {
        let a0 = self.a;
        let c: u16 = if self.flags.carry {
            1
        } else {
            0
        };
        let sum: u16 = (a0 as u16) + (m as u16) + c;
        let r: u8 = (sum % 0x100) as u8;
        self.flags.carry = sum > 0xff;
        self.flags.overflow = ((a0 >= 0x80) == (m >= 0x80)) && ((a0 >= 0x80) != (r >= 0x80));
        self.flags.zero = r == 0;
        self.flags.negative = r >= 0x80;
        self.a = r;
    }

    /// Compares a register with an operand, setting carry, zero and
    /// negative; registers and memory are untouched.
    pub fn compare(&mut self, reg: u8, m: u8)
        ensures
            final(self).bus == old(self).bus,
            final(self).regs() == (Regs {
                flags: compare_flags(old(self).flags, reg, m),
                ..old(self).regs()
            }),
    {
        let d: u8 = ((((reg as u16) + 0x100) - (m as u16)) % 0x100) as u8;
        proof {
            lemma_mod_multiples_vanish(1, reg - m, 0x100);
        }
        self.flags.carry = reg >= m;
        self.flags.zero = reg == m;
        self.flags.negative = d >= 0x80;
    }

    /// Resolves an addressing mode against the operand bytes at `at`.
    pub fn operand_address(&self, mode: Mode, at: u16) -> (r: (u16, bool))
        ensures
            r == self.spec_operand_address(mode, at),
    {
        match mode {
            Mode::Immediate => (at, false),
            Mode::ZeroPage => (self.bus.mem_read(at) as u16, false),
            Mode::ZeroPageX => (wrapping_add8(self.bus.mem_read(at), self.x) as u16, false),
            Mode::ZeroPageY => (wrapping_add8(self.bus.mem_read(at), self.y) as u16, false),
            Mode::Absolute => (self.bus.mem_read_u16(at), false),
            Mode::AbsoluteX => {
                let base = self.bus.mem_read_u16(at);
                let addr = wrapping_add16(base, self.x as u16);
                (addr, addr / 0x100 != base / 0x100)
            },
            Mode::AbsoluteY => {
                let base = self.bus.mem_read_u16(at);
                let addr = wrapping_add16(base, self.y as u16);
                (addr, addr / 0x100 != base / 0x100)
            },
            Mode::Indirect => {
                let ptr = self.bus.mem_read_u16(at);
                if ptr % 0x100 == 0xff {
                    // hardware quirk: the pointer's high byte is fetched
                    // from the start of the same page, not the next one
                    let lo = self.bus.mem_read(ptr) as u16;
                    let hi = self.bus.mem_read(ptr - 0xff) as u16;
                    (hi * 0x100 + lo, false)
                } else {
                    (self.bus.mem_read_u16(ptr), false)
                }
            },
            Mode::IndirectX => {
                let ptr = wrapping_add8(self.bus.mem_read(at), self.x);
                let lo = self.bus.mem_read(ptr as u16) as u16;
                let hi = self.bus.mem_read(wrapping_add8(ptr, 1) as u16) as u16;
                (hi * 0x100 + lo, false)
            },
            Mode::IndirectY => {
                let base = self.bus.mem_read(at);
                let lo = self.bus.mem_read(base as u16) as u16;
                let hi = self.bus.mem_read(wrapping_add8(base, 1) as u16) as u16;
                let deref = hi * 0x100 + lo;
                let addr = wrapping_add16(deref, self.y as u16);
                (addr, addr / 0x100 != deref / 0x100)
            },
            Mode::Relative => (at, false),
            Mode::Accumulator => (at, false),
            Mode::Implied => (at, false),
        }
    }

    /// A conditional relative branch over the offset byte at the program
    /// counter.  Not taken: nothing changes.  Taken: the program counter
    /// becomes the branch target and one extra cycle is charged, or two
    /// when the target lies in a different page than the instruction end.
    fn branch(&mut self, cond: bool) -> (taken: bool)
        ensures
            taken == cond,
            final(self).bus == old(self).bus,
            ({
                let off = old(self).read8(old(self).pc);
                let base = wrap16(old(self).pc + 1);
                let tgt = branch_target(base, off);
                if cond {
                    final(self).regs() == (Regs {
                        pc: tgt,
                        cycles: wrap64(
                            old(self).cycles + (if page_of(tgt) != page_of(base) {
                                2int
                            } else {
                                1int
                            }),
                        ),
                        ..old(self).regs()
                    })
                } else {
                    *final(self) == *old(self)
                }
            }),
    {
        let off = self.bus.mem_read(self.pc);
        if cond {
            let base = wrapping_add16(self.pc, 1);
            let tgt = if off < 0x80 {
                wrapping_add16(base, off as u16)
            } else {
                proof {
                    lemma_mod_multiples_vanish(1, base + off - 0x100, 0x10000);
                }
                wrapping_add16(base, 0xff00 + (off as u16))
            };
            let pen: u16 = if tgt / 0x100 != base / 0x100 {
                2
            } else {
                1
            };
            self.add_cycles(pen);
            self.pc = tgt;
        }
        cond
    }

    /// The RAM contents after a write of `v` at `addr` through the bus:
    /// only a write into the RAM range lands, in the shared physical byte.
    pub open spec fn ram_write(ram: Seq<u8>, addr: u16, v: u8) -> Seq<u8> {
        if addr < 0x2000 {
            ram.update(mirror_ram_index(addr), v)
        } else {
            ram
        }
    }

    /// The RAM contents after pushing one byte with the stack pointer at
    /// `sp`.
    pub open spec fn stack_push_ram(ram: Seq<u8>, sp: u8, v: u8) -> Seq<u8> {
        ram.update(mirror_ram_index(stack_addr(sp)), v)
    }

    /// The RAM contents after pushing a word, high byte first, with the
    /// stack pointer at `sp`.
    pub open spec fn stack_push_u16_ram(ram: Seq<u8>, sp: u8, v: u16) -> Seq<u8> {
        Cpu::stack_push_ram(
            Cpu::stack_push_ram(ram, sp, (v / 0x100) as u8),
            wrap8(sp - 1),
            (v % 0x100) as u8,
        )
    }

    /// The extra cycle an addressing mode charges when it crossed a page.
    pub open spec fn penalty_cycles(info: OpInfo, crossed: bool) -> u16 {
        if info.page_penalty && crossed {
            1
        } else {
            0
        }
    }

    /// Functional model of executing one decoded official instruction from
    /// state `pre`, with the program counter already past the opcode byte:
    /// the register file afterwards, the RAM contents afterwards, the
    /// extra page-cross cycle charged, and whether the instruction
    /// transferred control -- set the program counter itself, as jumps,
    /// subroutine linkage, returns and taken branches do.  Branch cycles
    /// are charged here; the base cycle cost and the program counter
    /// advance for non-transferring instructions are the step's own
    /// business.
    pub open spec fn spec_execute(pre: Cpu, info: OpInfo) -> (Regs, Seq<u8>, u16, bool) {
        let at = pre.pc;
        match info.mnemonic {
            Mnemonic::Adc => {
                let (addr, crossed) = pre.spec_operand_address(info.mode, at);
                let m = pre.read8(addr);
                (
                    Regs {
                        a: wrap8(adc_sum(pre.a, m, pre.flags.carry)),
                        flags: adc_flags(pre.flags, pre.a, m, pre.flags.carry),
                        ..pre.regs()
                    },
                    pre.ram(),
                    Cpu::penalty_cycles(info, crossed),
                    false,
                )
            },
            Mnemonic::And => {
                let (addr, crossed) = pre.spec_operand_address(info.mode, at);
                let r = pre.a & pre.read8(addr);
                (
                    Regs { a: r, flags: zn(pre.flags, r), ..pre.regs() },
                    pre.ram(),
                    Cpu::penalty_cycles(info, crossed),
                    false,
                )
            },
            Mnemonic::Asl => {
                if info.mode is Accumulator {
                    let v = pre.a;
                    let r = wrap8(2 * v);
                    (
                        Regs {
                            a: r,
                            flags: zn(Flags { carry: v >= 0x80, ..pre.flags }, r),
                            ..pre.regs()
                        },
                        pre.ram(),
                        0u16,
                        false,
                    )
                } else {
                    let (addr, crossed) = pre.spec_operand_address(info.mode, at);
                    let v = pre.read8(addr);
                    let r = wrap8(2 * v);
                    (
                        Regs { flags: zn(Flags { carry: v >= 0x80, ..pre.flags }, r), ..pre.regs() },
                        Cpu::ram_write(pre.ram(), addr, r),
                        0u16,
                        false,
                    )
                }
            },
            Mnemonic::Bcc => Cpu::spec_branch(pre, !pre.flags.carry),
            Mnemonic::Bcs => Cpu::spec_branch(pre, pre.flags.carry),
            Mnemonic::Beq => Cpu::spec_branch(pre, pre.flags.zero),
            Mnemonic::Bit => {
                let (addr, crossed) = pre.spec_operand_address(info.mode, at);
                let v = pre.read8(addr);
                (
                    Regs {
                        flags: Flags {
                            zero: (pre.a & v) == 0,
                            overflow: (v & 0x40) != 0,
                            negative: v >= 0x80,
                            ..pre.flags
                        },
                        ..pre.regs()
                    },
                    pre.ram(),
                    0u16,
                    false,
                )
            },
            Mnemonic::Bmi => Cpu::spec_branch(pre, pre.flags.negative),
            Mnemonic::Bne => Cpu::spec_branch(pre, !pre.flags.zero),
            Mnemonic::Bpl => Cpu::spec_branch(pre, !pre.flags.negative),
            Mnemonic::Brk => (pre.regs(), pre.ram(), 0u16, false),
            Mnemonic::Bvc => Cpu::spec_branch(pre, !pre.flags.overflow),
            Mnemonic::Bvs => Cpu::spec_branch(pre, pre.flags.overflow),
            Mnemonic::Clc => (
                Regs { flags: Flags { carry: false, ..pre.flags }, ..pre.regs() },
                pre.ram(),
                0u16,
                false,
            ),
            Mnemonic::Cld => (
                Regs { flags: Flags { decimal: false, ..pre.flags }, ..pre.regs() },
                pre.ram(),
                0u16,
                false,
            ),
            Mnemonic::Cli => (
                Regs { flags: Flags { interrupt_disable: false, ..pre.flags }, ..pre.regs() },
                pre.ram(),
                0u16,
                false,
            ),
            Mnemonic::Clv => (
                Regs { flags: Flags { overflow: false, ..pre.flags }, ..pre.regs() },
                pre.ram(),
                0u16,
                false,
            ),
            Mnemonic::Cmp => {
                let (addr, crossed) = pre.spec_operand_address(info.mode, at);
                let m = pre.read8(addr);
                (
                    Regs { flags: compare_flags(pre.flags, pre.a, m), ..pre.regs() },
                    pre.ram(),
                    Cpu::penalty_cycles(info, crossed),
                    false,
                )
            },
            Mnemonic::Cpx => {
                let (addr, crossed) = pre.spec_operand_address(info.mode, at);
                let m = pre.read8(addr);
                (
                    Regs { flags: compare_flags(pre.flags, pre.x, m), ..pre.regs() },
                    pre.ram(),
                    0u16,
                    false,
                )
            },
            Mnemonic::Cpy => {
                let (addr, crossed) = pre.spec_operand_address(info.mode, at);
                let m = pre.read8(addr);
                (
                    Regs { flags: compare_flags(pre.flags, pre.y, m), ..pre.regs() },
                    pre.ram(),
                    0u16,
                    false,
                )
            },
            Mnemonic::Dec => {
                let (addr, crossed) = pre.spec_operand_address(info.mode, at);
                let r = wrap8(pre.read8(addr) - 1);
                (
                    Regs { flags: zn(pre.flags, r), ..pre.regs() },
                    Cpu::ram_write(pre.ram(), addr, r),
                    0u16,
                    false,
                )
            },
            Mnemonic::Dex => {
                let r = wrap8(pre.x - 1);
                (Regs { x: r, flags: zn(pre.flags, r), ..pre.regs() }, pre.ram(), 0u16, false)
            },
            Mnemonic::Dey => {
                let r = wrap8(pre.y - 1);
                (Regs { y: r, flags: zn(pre.flags, r), ..pre.regs() }, pre.ram(), 0u16, false)
            },
            Mnemonic::Eor => {
                let (addr, crossed) = pre.spec_operand_address(info.mode, at);
                let r = pre.a ^ pre.read8(addr);
                (
                    Regs { a: r, flags: zn(pre.flags, r), ..pre.regs() },
                    pre.ram(),
                    Cpu::penalty_cycles(info, crossed),
                    false,
                )
            },
            Mnemonic::Inc => {
                let (addr, crossed) = pre.spec_operand_address(info.mode, at);
                let r = wrap8(pre.read8(addr) + 1);
                (
                    Regs { flags: zn(pre.flags, r), ..pre.regs() },
                    Cpu::ram_write(pre.ram(), addr, r),
                    0u16,
                    false,
                )
            },
            Mnemonic::Inx => {
                let r = wrap8(pre.x + 1);
                (Regs { x: r, flags: zn(pre.flags, r), ..pre.regs() }, pre.ram(), 0u16, false)
            },
            Mnemonic::Iny => {
                let r = wrap8(pre.y + 1);
                (Regs { y: r, flags: zn(pre.flags, r), ..pre.regs() }, pre.ram(), 0u16, false)
            },
            Mnemonic::Jmp => {
                let (addr, crossed) = pre.spec_operand_address(info.mode, at);
                (Regs { pc: addr, ..pre.regs() }, pre.ram(), 0u16, true)
            },
            Mnemonic::Jsr => {
                let target = pre.read16(at);
                let ret = wrap16(at + 1);
                (
                    Regs { pc: target, sp: wrap8(pre.sp - 2), ..pre.regs() },
                    Cpu::stack_push_u16_ram(pre.ram(), pre.sp, ret),
                    0u16,
                    true,
                )
            },
            Mnemonic::Lda => {
                let (addr, crossed) = pre.spec_operand_address(info.mode, at);
                let v = pre.read8(addr);
                (
                    Regs { a: v, flags: zn(pre.flags, v), ..pre.regs() },
                    pre.ram(),
                    Cpu::penalty_cycles(info, crossed),
                    false,
                )
            },
            Mnemonic::Ldx => {
                let (addr, crossed) = pre.spec_operand_address(info.mode, at);
                let v = pre.read8(addr);
                (
                    Regs { x: v, flags: zn(pre.flags, v), ..pre.regs() },
                    pre.ram(),
                    Cpu::penalty_cycles(info, crossed),
                    false,
                )
            },
            Mnemonic::Ldy => {
                let (addr, crossed) = pre.spec_operand_address(info.mode, at);
                let v = pre.read8(addr);
                (
                    Regs { y: v, flags: zn(pre.flags, v), ..pre.regs() },
                    pre.ram(),
                    Cpu::penalty_cycles(info, crossed),
                    false,
                )
            },
            Mnemonic::Lsr => {
                if info.mode is Accumulator {
                    let v = pre.a;
                    let r = v / 2;
                    (
                        Regs {
                            a: r,
                            flags: zn(Flags { carry: v % 2 == 1, ..pre.flags }, r),
                            ..pre.regs()
                        },
                        pre.ram(),
                        0u16,
                        false,
                    )
                } else {
                    let (addr, crossed) = pre.spec_operand_address(info.mode, at);
                    let v = pre.read8(addr);
                    let r = v / 2;
                    (
                        Regs {
                            flags: zn(Flags { carry: v % 2 == 1, ..pre.flags }, r),
                            ..pre.regs()
                        },
                        Cpu::ram_write(pre.ram(), addr, r),
                        0u16,
                        false,
                    )
                }
            },
            Mnemonic::Nop => (pre.regs(), pre.ram(), 0u16, false),
            Mnemonic::Ora => {
                let (addr, crossed) = pre.spec_operand_address(info.mode, at);
                let r = pre.a | pre.read8(addr);
                (
                    Regs { a: r, flags: zn(pre.flags, r), ..pre.regs() },
                    pre.ram(),
                    Cpu::penalty_cycles(info, crossed),
                    false,
                )
            },
            Mnemonic::Pha => (
                Regs { sp: wrap8(pre.sp - 1), ..pre.regs() },
                Cpu::stack_push_ram(pre.ram(), pre.sp, pre.a),
                0u16,
                false,
            ),
            Mnemonic::Php => (
                Regs { sp: wrap8(pre.sp - 1), ..pre.regs() },
                Cpu::stack_push_ram(
                    pre.ram(),
                    pre.sp,
                    spec_flags_to_byte(Flags { break_flag: true, ..pre.flags }),
                ),
                0u16,
                false,
            ),
            Mnemonic::Pla => {
                let v = pre.read8(stack_addr(wrap8(pre.sp + 1)));
                (
                    Regs { a: v, sp: wrap8(pre.sp + 1), flags: zn(pre.flags, v), ..pre.regs() },
                    pre.ram(),
                    0u16,
                    false,
                )
            },
            Mnemonic::Plp => {
                let v = pre.read8(stack_addr(wrap8(pre.sp + 1)));
                (
                    Regs {
                        sp: wrap8(pre.sp + 1),
                        flags: Flags { break_flag: false, ..spec_flags_of_byte(v) },
                        ..pre.regs()
                    },
                    pre.ram(),
                    0u16,
                    false,
                )
            },
            Mnemonic::Rol => {
                let cin: int = if pre.flags.carry {
                    1
                } else {
                    0
                };
                if info.mode is Accumulator {
                    let v = pre.a;
                    let r = wrap8(2 * v + cin);
                    (
                        Regs {
                            a: r,
                            flags: zn(Flags { carry: v >= 0x80, ..pre.flags }, r),
                            ..pre.regs()
                        },
                        pre.ram(),
                        0u16,
                        false,
                    )
                } else {
                    let (addr, crossed) = pre.spec_operand_address(info.mode, at);
                    let v = pre.read8(addr);
                    let r = wrap8(2 * v + cin);
                    (
                        Regs { flags: zn(Flags { carry: v >= 0x80, ..pre.flags }, r), ..pre.regs() },
                        Cpu::ram_write(pre.ram(), addr, r),
                        0u16,
                        false,
                    )
                }
            },
            Mnemonic::Ror => {
                let cin: u8 = if pre.flags.carry {
                    0x80
                } else {
                    0
                };
                if info.mode is Accumulator {
                    let v = pre.a;
                    let r = (v / 2 + cin) as u8;
                    (
                        Regs {
                            a: r,
                            flags: zn(Flags { carry: v % 2 == 1, ..pre.flags }, r),
                            ..pre.regs()
                        },
                        pre.ram(),
                        0u16,
                        false,
                    )
                } else {
                    let (addr, crossed) = pre.spec_operand_address(info.mode, at);
                    let v = pre.read8(addr);
                    let r = (v / 2 + cin) as u8;
                    (
                        Regs { flags: zn(Flags { carry: v % 2 == 1, ..pre.flags }, r), ..pre.regs() },
                        Cpu::ram_write(pre.ram(), addr, r),
                        0u16,
                        false,
                    )
                }
            },
            Mnemonic::Rti => {
                let b = pre.read8(stack_addr(wrap8(pre.sp + 1)));
                let lo = pre.read8(stack_addr(wrap8(pre.sp + 2)));
                let hi = pre.read8(stack_addr(wrap8(pre.sp + 3)));
                (
                    Regs {
                        flags: Flags { break_flag: false, ..spec_flags_of_byte(b) },
                        pc: (lo + 256 * hi) as u16,
                        sp: wrap8(pre.sp + 3),
                        ..pre.regs()
                    },
                    pre.ram(),
                    0u16,
                    true,
                )
            },
            Mnemonic::Rts => {
                let lo = pre.read8(stack_addr(wrap8(pre.sp + 1)));
                let hi = pre.read8(stack_addr(wrap8(pre.sp + 2)));
                (
                    Regs {
                        pc: wrap16(lo + 256 * hi + 1),
                        sp: wrap8(pre.sp + 2),
                        ..pre.regs()
                    },
                    pre.ram(),
                    0u16,
                    true,
                )
            },
            Mnemonic::Sbc => {
                let (addr, crossed) = pre.spec_operand_address(info.mode, at);
                let m = (255 - pre.read8(addr)) as u8;
                (
                    Regs {
                        a: wrap8(adc_sum(pre.a, m, pre.flags.carry)),
                        flags: adc_flags(pre.flags, pre.a, m, pre.flags.carry),
                        ..pre.regs()
                    },
                    pre.ram(),
                    Cpu::penalty_cycles(info, crossed),
                    false,
                )
            },
            Mnemonic::Sec => (
                Regs { flags: Flags { carry: true, ..pre.flags }, ..pre.regs() },
                pre.ram(),
                0u16,
                false,
            ),
            Mnemonic::Sed => (
                Regs { flags: Flags { decimal: true, ..pre.flags }, ..pre.regs() },
                pre.ram(),
                0u16,
                false,
            ),
            Mnemonic::Sei => (
                Regs { flags: Flags { interrupt_disable: true, ..pre.flags }, ..pre.regs() },
                pre.ram(),
                0u16,
                false,
            ),
            Mnemonic::Sta => {
                let (addr, crossed) = pre.spec_operand_address(info.mode, at);
                (pre.regs(), Cpu::ram_write(pre.ram(), addr, pre.a), 0u16, false)
            },
            Mnemonic::Stx => {
                let (addr, crossed) = pre.spec_operand_address(info.mode, at);
                (pre.regs(), Cpu::ram_write(pre.ram(), addr, pre.x), 0u16, false)
            },
            Mnemonic::Sty => {
                let (addr, crossed) = pre.spec_operand_address(info.mode, at);
                (pre.regs(), Cpu::ram_write(pre.ram(), addr, pre.y), 0u16, false)
            },
            Mnemonic::Tax => (
                Regs { x: pre.a, flags: zn(pre.flags, pre.a), ..pre.regs() },
                pre.ram(),
                0u16,
                false,
            ),
            Mnemonic::Tay => (
                Regs { y: pre.a, flags: zn(pre.flags, pre.a), ..pre.regs() },
                pre.ram(),
                0u16,
                false,
            ),
            Mnemonic::Tsx => (
                Regs { x: pre.sp, flags: zn(pre.flags, pre.sp), ..pre.regs() },
                pre.ram(),
                0u16,
                false,
            ),
            Mnemonic::Txa => (
                Regs { a: pre.x, flags: zn(pre.flags, pre.x), ..pre.regs() },
                pre.ram(),
                0u16,
                false,
            ),
            Mnemonic::Txs => (Regs { sp: pre.x, ..pre.regs() }, pre.ram(), 0u16, false),
            Mnemonic::Tya => (
                Regs { a: pre.y, flags: zn(pre.flags, pre.y), ..pre.regs() },
                pre.ram(),
                0u16,
                false,
            ),
        }
    }

    /// Model of a conditional branch: the offset byte at the program
    /// counter, taken from the address after it, with the taken and
    /// page-cross cycles charged; the flag reports whether the branch
    /// transferred control.
    pub open spec fn spec_branch(pre: Cpu, cond: bool) -> (Regs, Seq<u8>, u16, bool) {
        let off = pre.read8(pre.pc);
        let base = wrap16(pre.pc + 1);
        let tgt = branch_target(base, off);
        if cond {
            (
                Regs {
                    pc: tgt,
                    cycles: wrap64(
                        pre.cycles + (if page_of(tgt) != page_of(base) {
                            2int
                        } else {
                            1int
                        }),
                    ),
                    ..pre.regs()
                },
                pre.ram(),
                0u16,
                cond,
            )
        } else {
            (pre.regs(), pre.ram(), 0u16, false)
        }
    }

    /// One fetch-decode-execute step.  An opcode the table leaves
    /// unimplemented changes nothing and reports the illegal-opcode
    /// condition with the opcode byte and its address; the break opcode
    /// charges its cycles, advances past itself and reports the halt; every
    /// other opcode executes and reports that the machine keeps running.
    /// Cartridge ROM is never mutated.
    #[verifier::rlimit(100)]
    #[verifier::spinoff_prover]
    pub fn step(&mut self) -> (r: Result<StepOutcome, StepError>)
        ensures
            final(self).bus.rom == old(self).bus.rom,
            r is Err <==> opcode_table(old(self).read8(old(self).pc)) is Unimplemented,
            r is Err ==> r == Err::<StepOutcome, StepError>(
                StepError::IllegalOpcode {
                    opcode: old(self).read8(old(self).pc),
                    addr: old(self).pc,
                },
            ) && *final(self) == *old(self),
            r == Ok::<StepOutcome, StepError>(StepOutcome::Halted) <==> old(self).read8(
                old(self).pc,
            ) == 0,
            old(self).read8(old(self).pc) == 0 ==> *final(self) == (Cpu {
                pc: wrap16(old(self).pc + 1),
                cycles: wrap64(old(self).cycles + 7),
                ..*old(self)
            }),
            ({
                let b = old(self).read8(old(self).pc);
                b != 0 ==> (opcode_table(b) matches OpEntry::Official(info) ==> ({
                    let mid = (Cpu { pc: wrap16(old(self).pc + 1), ..*old(self) });
                    let outcome = Cpu::spec_execute(mid, info);
                    let adv: int = if info.len >= 1 {
                        info.len - 1
                    } else {
                        0
                    };
                    let pc2 = if outcome.3 {
                        outcome.0.pc
                    } else {
                        wrap16(outcome.0.pc + adv)
                    };
                    &&& r == Ok::<StepOutcome, StepError>(StepOutcome::Running)
                    &&& final(self).regs() == (Regs {
                        pc: pc2,
                        cycles: wrap64(outcome.0.cycles + info.cycles + outcome.2),
                        ..outcome.0
                    })
                    &&& final(self).ram() == outcome.1
                }))
            }),
    {
        let start = self.pc;
        let opcode = self.bus.mem_read(start);
        let entry = lookup_opcode(opcode);
        match entry {
            OpEntry::Unimplemented => Err(StepError::IllegalOpcode { opcode, addr: start }),
            OpEntry::Official(info) => {
                self.pc = wrapping_add16(start, 1);
                if opcode == 0x00 {
                    // the program's halt convention: break stops the run
                    self.add_cycles(7);
                    return Ok(StepOutcome::Halted);
                }
                let (extra, transferred) = self.execute_official(info);
                if !transferred {
                    // the instruction did not set the program counter
                    // itself: advance it past the operand bytes
                    let step_len: u16 = if info.len >= 1 {
                        (info.len - 1) as u16
                    } else {
                        0
                    };
                    self.pc = wrapping_add16(self.pc, step_len);
                }
                self.add_cycles((info.cycles as u16) + extra);
                Ok(StepOutcome::Running)
            },
        }
    }

    /// Executes one decoded official instruction against registers and the
    /// bus, with the program counter already past the opcode byte: the
    /// outcome is exactly [`Cpu::spec_execute`] of the starting state, and
    /// the returned pair gives the page-cross penalty cycle and whether
    /// the instruction transferred control.  Cartridge ROM is never
    /// mutated.
    fn execute_official(&mut self, info: OpInfo) -> (r: (u16, bool))
        ensures
            final(self).bus.rom == old(self).bus.rom,
            r.0 <= 1,
            final(self).regs() == Cpu::spec_execute(*old(self), info).0,
            final(self).ram() == Cpu::spec_execute(*old(self), info).1,
            r.0 == Cpu::spec_execute(*old(self), info).2,
            r.1 == Cpu::spec_execute(*old(self), info).3,
    {
        match info.mnemonic {
            Mnemonic::Lda | Mnemonic::Ldx | Mnemonic::Ldy | Mnemonic::Sta | Mnemonic::Stx | Mnemonic::Sty | Mnemonic::Tax | Mnemonic::Tay | Mnemonic::Tsx | Mnemonic::Txa | Mnemonic::Txs | Mnemonic::Tya => self.execute_transfer(info),
            Mnemonic::Adc | Mnemonic::Sbc | Mnemonic::And | Mnemonic::Ora | Mnemonic::Eor | Mnemonic::Cmp | Mnemonic::Cpx | Mnemonic::Cpy | Mnemonic::Bit => self.execute_arithmetic(info),
            Mnemonic::Asl | Mnemonic::Lsr | Mnemonic::Rol | Mnemonic::Ror | Mnemonic::Inc | Mnemonic::Dec | Mnemonic::Inx | Mnemonic::Iny | Mnemonic::Dex | Mnemonic::Dey => self.execute_read_modify_write(info),
            Mnemonic::Bcc | Mnemonic::Bcs | Mnemonic::Beq | Mnemonic::Bmi | Mnemonic::Bne | Mnemonic::Bpl | Mnemonic::Bvc | Mnemonic::Bvs | Mnemonic::Clc | Mnemonic::Cld | Mnemonic::Cli | Mnemonic::Clv | Mnemonic::Sec | Mnemonic::Sed | Mnemonic::Sei | Mnemonic::Nop | Mnemonic::Brk => self.execute_branch_and_flag(info),
            Mnemonic::Jmp | Mnemonic::Jsr | Mnemonic::Rts | Mnemonic::Rti | Mnemonic::Pha | Mnemonic::Php | Mnemonic::Pla | Mnemonic::Plp => self.execute_stack_and_jump(info),
        }
    }

    /// Loads, stores and register transfers.
    #[verifier::rlimit(100)]
    #[verifier::spinoff_prover]
    fn execute_transfer(&mut self, info: OpInfo) -> (r: (u16, bool))
        requires
            info.mnemonic is Lda || info.mnemonic is Ldx || info.mnemonic is Ldy || info.mnemonic is Sta || info.mnemonic is Stx || info.mnemonic is Sty || info.mnemonic is Tax || info.mnemonic is Tay || info.mnemonic is Tsx || info.mnemonic is Txa || info.mnemonic is Txs || info.mnemonic is Tya,
        ensures
            final(self).bus.rom == old(self).bus.rom,
            r.0 <= 1,
            final(self).regs() == Cpu::spec_execute(*old(self), info).0,
            final(self).ram() == Cpu::spec_execute(*old(self), info).1,
            r.0 == Cpu::spec_execute(*old(self), info).2,
            r.1 == Cpu::spec_execute(*old(self), info).3,
    {
        let mut extra: u16 = 0;
        match info.mnemonic {
            Mnemonic::Lda => {
                let (addr, crossed) = self.operand_address(info.mode, self.pc);
                let v = self.bus.mem_read(addr);
                self.set_a(v);
                if info.page_penalty && crossed {
                    extra = 1;
                }
            },
            Mnemonic::Ldx => {
                let (addr, crossed) = self.operand_address(info.mode, self.pc);
                let v = self.bus.mem_read(addr);
                self.set_x(v);
                if info.page_penalty && crossed {
                    extra = 1;
                }
            },
            Mnemonic::Ldy => {
                let (addr, crossed) = self.operand_address(info.mode, self.pc);
                let v = self.bus.mem_read(addr);
                self.set_y(v);
                if info.page_penalty && crossed {
                    extra = 1;
                }
            },
            Mnemonic::Sta => {
                let (addr, _) = self.operand_address(info.mode, self.pc);
                let v = self.a;
                self.bus.mem_write(addr, v);
            },
            Mnemonic::Stx => {
                let (addr, _) = self.operand_address(info.mode, self.pc);
                let v = self.x;
                self.bus.mem_write(addr, v);
            },
            Mnemonic::Sty => {
                let (addr, _) = self.operand_address(info.mode, self.pc);
                let v = self.y;
                self.bus.mem_write(addr, v);
            },
            Mnemonic::Tax => {
                let v = self.a;
                self.set_x(v);
            },
            Mnemonic::Tay => {
                let v = self.a;
                self.set_y(v);
            },
            Mnemonic::Tsx => {
                let v = self.sp;
                self.set_x(v);
            },
            Mnemonic::Txa => {
                let v = self.x;
                self.set_a(v);
            },
            Mnemonic::Txs => {
                // no flags are affected
                self.sp = self.x;
            },
            Mnemonic::Tya => {
                let v = self.y;
                self.set_a(v);
            },
            _ => {
                // excluded by the precondition
            },
        }
        (extra, false)
    }

    /// Arithmetic, logic, compares and the bit test.
    #[verifier::rlimit(100)]
    #[verifier::spinoff_prover]
    fn execute_arithmetic(&mut self, info: OpInfo) -> (r: (u16, bool))
        requires
            info.mnemonic is Adc || info.mnemonic is Sbc || info.mnemonic is And || info.mnemonic is Ora || info.mnemonic is Eor || info.mnemonic is Cmp || info.mnemonic is Cpx || info.mnemonic is Cpy || info.mnemonic is Bit,
        ensures
            final(self).bus.rom == old(self).bus.rom,
            r.0 <= 1,
            final(self).regs() == Cpu::spec_execute(*old(self), info).0,
            final(self).ram() == Cpu::spec_execute(*old(self), info).1,
            r.0 == Cpu::spec_execute(*old(self), info).2,
            r.1 == Cpu::spec_execute(*old(self), info).3,
    {
        let mut extra: u16 = 0;
        match info.mnemonic {
            Mnemonic::Adc => {
                let (addr, crossed) = self.operand_address(info.mode, self.pc);
                let v = self.bus.mem_read(addr);
                self.add_to_a(v);
                if info.page_penalty && crossed {
                    extra = 1;
                }
            },
            Mnemonic::Sbc => {
                let (addr, crossed) = self.operand_address(info.mode, self.pc);
                let v = self.bus.mem_read(addr);
                // subtraction through the adder: complement operand
                self.add_to_a(255 - v);
                if info.page_penalty && crossed {
                    extra = 1;
                }
            },
            Mnemonic::And => {
                let (addr, crossed) = self.operand_address(info.mode, self.pc);
                let v = self.bus.mem_read(addr);
                let r = self.a & v;
                self.set_a(r);
                if info.page_penalty && crossed {
                    extra = 1;
                }
            },
            Mnemonic::Ora => {
                let (addr, crossed) = self.operand_address(info.mode, self.pc);
                let v = self.bus.mem_read(addr);
                let r = self.a | v;
                self.set_a(r);
                if info.page_penalty && crossed {
                    extra = 1;
                }
            },
            Mnemonic::Eor => {
                let (addr, crossed) = self.operand_address(info.mode, self.pc);
                let v = self.bus.mem_read(addr);
                let r = self.a ^ v;
                self.set_a(r);
                if info.page_penalty && crossed {
                    extra = 1;
                }
            },
            Mnemonic::Cmp => {
                let (addr, crossed) = self.operand_address(info.mode, self.pc);
                let v = self.bus.mem_read(addr);
                let reg = self.a;
                self.compare(reg, v);
                if info.page_penalty && crossed {
                    extra = 1;
                }
            },
            Mnemonic::Cpx => {
                let (addr, _) = self.operand_address(info.mode, self.pc);
                let v = self.bus.mem_read(addr);
                let reg = self.x;
                self.compare(reg, v);
            },
            Mnemonic::Cpy => {
                let (addr, _) = self.operand_address(info.mode, self.pc);
                let v = self.bus.mem_read(addr);
                let reg = self.y;
                self.compare(reg, v);
            },
            Mnemonic::Bit => {
                let (addr, _) = self.operand_address(info.mode, self.pc);
                let v = self.bus.mem_read(addr);
                self.flags.zero = (self.a & v) == 0;
                self.flags.overflow = (v & 0x40) != 0;
                self.flags.negative = v >= 0x80;
            },
            _ => {
                // excluded by the precondition
            },
        }
        (extra, false)
    }

    /// Shifts, rotates, increments and decrements.
    #[verifier::rlimit(100)]
    #[verifier::spinoff_prover]
    fn execute_read_modify_write(&mut self, info: OpInfo) -> (r: (u16, bool))
        requires
            info.mnemonic is Asl || info.mnemonic is Lsr || info.mnemonic is Rol || info.mnemonic is Ror || info.mnemonic is Inc || info.mnemonic is Dec || info.mnemonic is Inx || info.mnemonic is Iny || info.mnemonic is Dex || info.mnemonic is Dey,
        ensures
            final(self).bus.rom == old(self).bus.rom,
            r.0 <= 1,
            final(self).regs() == Cpu::spec_execute(*old(self), info).0,
            final(self).ram() == Cpu::spec_execute(*old(self), info).1,
            r.0 == Cpu::spec_execute(*old(self), info).2,
            r.1 == Cpu::spec_execute(*old(self), info).3,
    {
        let mut extra: u16 = 0;
        match info.mnemonic {
            Mnemonic::Asl => {
                if matches!(info.mode, Mode::Accumulator) {
                    let v = self.a;
                    let r = (((v as u16) * 2) % 0x100) as u8;
                    self.set_carry_zn(v >= 0x80, r);
                    self.a = r;
                } else {
                    let (addr, _) = self.operand_address(info.mode, self.pc);
                    let v = self.bus.mem_read(addr);
                    let r = (((v as u16) * 2) % 0x100) as u8;
                    self.set_carry_zn(v >= 0x80, r);
                    self.bus.mem_write(addr, r);
                }
            },
            Mnemonic::Lsr => {
                if matches!(info.mode, Mode::Accumulator) {
                    let v = self.a;
                    let r = v / 2;
                    self.set_carry_zn(v % 2 == 1, r);
                    self.a = r;
                } else {
                    let (addr, _) = self.operand_address(info.mode, self.pc);
                    let v = self.bus.mem_read(addr);
                    let r = v / 2;
                    self.set_carry_zn(v % 2 == 1, r);
                    self.bus.mem_write(addr, r);
                }
            },
            Mnemonic::Rol => {
                let c: u16 = if self.flags.carry {
                    1
                } else {
                    0
                };
                if matches!(info.mode, Mode::Accumulator) {
                    let v = self.a;
                    let r = (((v as u16) * 2 + c) % 0x100) as u8;
                    self.set_carry_zn(v >= 0x80, r);
                    self.a = r;
                } else {
                    let (addr, _) = self.operand_address(info.mode, self.pc);
                    let v = self.bus.mem_read(addr);
                    let r = (((v as u16) * 2 + c) % 0x100) as u8;
                    self.set_carry_zn(v >= 0x80, r);
                    self.bus.mem_write(addr, r);
                }
            },
            Mnemonic::Ror => {
                let c: u8 = if self.flags.carry {
                    0x80
                } else {
                    0
                };
                if matches!(info.mode, Mode::Accumulator) {
                    let v = self.a;
                    let r = v / 2 + c;
                    self.set_carry_zn(v % 2 == 1, r);
                    self.a = r;
                } else {
                    let (addr, _) = self.operand_address(info.mode, self.pc);
                    let v = self.bus.mem_read(addr);
                    let r = v / 2 + c;
                    self.set_carry_zn(v % 2 == 1, r);
                    self.bus.mem_write(addr, r);
                }
            },
            Mnemonic::Inc => {
                let (addr, _) = self.operand_address(info.mode, self.pc);
                let v = self.bus.mem_read(addr);
                let r = wrapping_add8(v, 1);
                self.bus.mem_write(addr, r);
                self.update_zero_and_negative(r);
            },
            Mnemonic::Dec => {
                let (addr, _) = self.operand_address(info.mode, self.pc);
                let v = self.bus.mem_read(addr);
                let r = dec8(v);
                self.bus.mem_write(addr, r);
                self.update_zero_and_negative(r);
            },
            Mnemonic::Inx => {
                let r = wrapping_add8(self.x, 1);
                self.set_x(r);
            },
            Mnemonic::Iny => {
                let r = wrapping_add8(self.y, 1);
                self.set_y(r);
            },
            Mnemonic::Dex => {
                let r = dec8(self.x);
                self.set_x(r);
            },
            Mnemonic::Dey => {
                let r = dec8(self.y);
                self.set_y(r);
            },
            _ => {
                // excluded by the precondition
            },
        }
        (extra, false)
    }

    /// Branches, flag set/clear instructions and no-ops.
    #[verifier::rlimit(100)]
    #[verifier::spinoff_prover]
    fn execute_branch_and_flag(&mut self, info: OpInfo) -> (r: (u16, bool))
        requires
            info.mnemonic is Bcc || info.mnemonic is Bcs || info.mnemonic is Beq || info.mnemonic is Bmi || info.mnemonic is Bne || info.mnemonic is Bpl || info.mnemonic is Bvc || info.mnemonic is Bvs || info.mnemonic is Clc || info.mnemonic is Cld || info.mnemonic is Cli || info.mnemonic is Clv || info.mnemonic is Sec || info.mnemonic is Sed || info.mnemonic is Sei || info.mnemonic is Nop || info.mnemonic is Brk,
        ensures
            final(self).bus.rom == old(self).bus.rom,
            r.0 <= 1,
            final(self).regs() == Cpu::spec_execute(*old(self), info).0,
            final(self).ram() == Cpu::spec_execute(*old(self), info).1,
            r.0 == Cpu::spec_execute(*old(self), info).2,
            r.1 == Cpu::spec_execute(*old(self), info).3,
    {
        let mut transferred: bool = false;
        match info.mnemonic {
            Mnemonic::Bcc => {
                let c = self.flags.carry;
                transferred = self.branch(!c);
            },
            Mnemonic::Bcs => {
                let c = self.flags.carry;
                transferred = self.branch(c);
            },
            Mnemonic::Beq => {
                let z = self.flags.zero;
                transferred = self.branch(z);
            },
            Mnemonic::Bmi => {
                let n = self.flags.negative;
                transferred = self.branch(n);
            },
            Mnemonic::Bne => {
                let z = self.flags.zero;
                transferred = self.branch(!z);
            },
            Mnemonic::Bpl => {
                let n = self.flags.negative;
                transferred = self.branch(!n);
            },
            Mnemonic::Bvc => {
                let v = self.flags.overflow;
                transferred = self.branch(!v);
            },
            Mnemonic::Bvs => {
                let v = self.flags.overflow;
                transferred = self.branch(v);
            },
            Mnemonic::Clc => {
                self.flags.carry = false;
            },
            Mnemonic::Cld => {
                self.flags.decimal = false;
            },
            Mnemonic::Cli => {
                self.flags.interrupt_disable = false;
            },
            Mnemonic::Clv => {
                self.flags.overflow = false;
            },
            Mnemonic::Sec => {
                self.flags.carry = true;
            },
            Mnemonic::Sed => {
                self.flags.decimal = true;
            },
            Mnemonic::Sei => {
                self.flags.interrupt_disable = true;
            },
            Mnemonic::Nop => {
            },
            Mnemonic::Brk => {
                // the step handles break itself before dispatching here;
                // as an instruction body it changes nothing
            },
            _ => {
                // excluded by the precondition
            },
        }
        (0, transferred)
    }

    /// Jumps, subroutine linkage and stack transfers.
    #[verifier::rlimit(100)]
    #[verifier::spinoff_prover]
    fn execute_stack_and_jump(&mut self, info: OpInfo) -> (r: (u16, bool))
        requires
            info.mnemonic is Jmp || info.mnemonic is Jsr || info.mnemonic is Rts || info.mnemonic is Rti || info.mnemonic is Pha || info.mnemonic is Php || info.mnemonic is Pla || info.mnemonic is Plp,
        ensures
            final(self).bus.rom == old(self).bus.rom,
            r.0 <= 1,
            final(self).regs() == Cpu::spec_execute(*old(self), info).0,
            final(self).ram() == Cpu::spec_execute(*old(self), info).1,
            r.0 == Cpu::spec_execute(*old(self), info).2,
            r.1 == Cpu::spec_execute(*old(self), info).3,
    {
        match info.mnemonic {
            Mnemonic::Jmp | Mnemonic::Jsr => self.execute_jump(info),
            Mnemonic::Rts | Mnemonic::Rti => self.execute_return(info),
            _ => self.execute_stack_transfer(info),
        }
    }

    /// Jumps and subroutine linkage.
    #[verifier::rlimit(100)]
    #[verifier::spinoff_prover]
    fn execute_jump(&mut self, info: OpInfo) -> (r: (u16, bool))
        requires
            info.mnemonic is Jmp || info.mnemonic is Jsr,
        ensures
            final(self).bus.rom == old(self).bus.rom,
            r.0 <= 1,
            final(self).regs() == Cpu::spec_execute(*old(self), info).0,
            final(self).ram() == Cpu::spec_execute(*old(self), info).1,
            r.0 == Cpu::spec_execute(*old(self), info).2,
            r.1 == Cpu::spec_execute(*old(self), info).3,
    {
        match info.mnemonic {
            Mnemonic::Jmp => {
                let (addr, _) = self.operand_address(info.mode, self.pc);
                self.pc = addr;
            },
            Mnemonic::Jsr => {
                let target = self.bus.mem_read_u16(self.pc);
                let ret = wrapping_add16(self.pc, 1);
                self.stack_push_u16(ret);
                self.pc = target;
            },
            _ => {
                // excluded by the precondition
            },
        }
        (0, true)
    }

    /// Returns from a subroutine or an interrupt frame.
    #[verifier::rlimit(100)]
    #[verifier::spinoff_prover]
    fn execute_return(&mut self, info: OpInfo) -> (r: (u16, bool))
        requires
            info.mnemonic is Rts || info.mnemonic is Rti,
        ensures
            final(self).bus.rom == old(self).bus.rom,
            r.0 <= 1,
            final(self).regs() == Cpu::spec_execute(*old(self), info).0,
            final(self).ram() == Cpu::spec_execute(*old(self), info).1,
            r.0 == Cpu::spec_execute(*old(self), info).2,
            r.1 == Cpu::spec_execute(*old(self), info).3,
    {
        proof {
            lemma_wrap8_rechain(self.sp);
        }
        match info.mnemonic {
            Mnemonic::Rts => {
                let ret = self.stack_pop_u16();
                self.pc = wrapping_add16(ret, 1);
            },
            Mnemonic::Rti => {
                let b = self.stack_pop();
                let mut f = flags_of_byte(b);
                f.break_flag = false;
                self.flags = f;
                self.pc = self.stack_pop_u16();
            },
            _ => {
                // excluded by the precondition
            },
        }
        (0, true)
    }

    /// Stack pushes and pulls of the accumulator and the flags.
    #[verifier::rlimit(100)]
    #[verifier::spinoff_prover]
    fn execute_stack_transfer(&mut self, info: OpInfo) -> (r: (u16, bool))
        requires
            info.mnemonic is Pha || info.mnemonic is Php || info.mnemonic is Pla || info.mnemonic is Plp,
        ensures
            final(self).bus.rom == old(self).bus.rom,
            r.0 <= 1,
            final(self).regs() == Cpu::spec_execute(*old(self), info).0,
            final(self).ram() == Cpu::spec_execute(*old(self), info).1,
            r.0 == Cpu::spec_execute(*old(self), info).2,
            r.1 == Cpu::spec_execute(*old(self), info).3,
    {
        match info.mnemonic {
            Mnemonic::Pha => {
                let v = self.a;
                self.stack_push(v);
            },
            Mnemonic::Php => {
                // the pushed image carries the break bit set, as
                // the hardware does for a software push
                let b = flags_to_byte(Flags { break_flag: true, ..self.flags });
                self.stack_push(b);
            },
            Mnemonic::Pla => {
                let v = self.stack_pop();
                self.set_a(v);
            },
            Mnemonic::Plp => {
                let b = self.stack_pop();
                let mut f = flags_of_byte(b);
                f.break_flag = false;
                self.flags = f;
            },
            _ => {
                // excluded by the precondition
            },
        }
        (0, false)
    }

    /// The run loop: executes up to `max_steps` instructions, invoking the
    /// host hook once per instruction boundary with mutable access to the
    /// machine -- after the halting instruction too, so a host always sees
    /// the final boundary.  It stops with `Ok(RunEnd::Halted)` when the
    /// program reaches its halt convention, or with the illegal-opcode
    /// error, which is fatal and never skipped.  A run whose very first
    /// step fails or halts does so before any hook can run, so its outcome
    /// is pinned here; what each later step does between hook calls is
    /// fixed by [`Cpu::step`], and [`Cpu::run`] states the halting state
    /// exactly for hook-free runs.
    pub fn run_with_hook<H: StepHook>(&mut self, hook: &mut H, max_steps: u64) -> (r: Result<
        RunEnd,
        StepError,
    >)
        ensures
            max_steps == 0 ==> r == Ok::<RunEnd, StepError>(RunEnd::StepBudgetExhausted)
                && *final(self) == *old(self),
            max_steps > 0 && opcode_table(old(self).read8(old(self).pc)) is Unimplemented ==> r
                == Err::<RunEnd, StepError>(
                StepError::IllegalOpcode {
                    opcode: old(self).read8(old(self).pc),
                    addr: old(self).pc,
                },
            ) && *final(self) == *old(self),
            max_steps > 0 && old(self).read8(old(self).pc) == 0 ==> r == Ok::<
                RunEnd,
                StepError,
            >(RunEnd::Halted),
            r matches Err(StepError::IllegalOpcode { opcode, addr }) ==> addr == final(self).pc
                && final(self).read8(addr) == opcode && opcode_table(opcode) is Unimplemented,
    {
        let mut left: u64 = max_steps;
        while left > 0
            invariant
                left <= max_steps,
                max_steps == 0 ==> left == 0 && *self == *old(self),
                left == max_steps ==> *self == *old(self),
                left < max_steps ==> opcode_table(old(self).read8(old(self).pc)) is Official
                    && old(self).read8(old(self).pc) != 0,
            decreases left,
        {
            match self.step() {
                Err(e) => {
                    return Err(e);
                },
                Ok(outcome) => {
                    hook.on_step(self);
                    if matches!(outcome, StepOutcome::Halted) {
                        return Ok(RunEnd::Halted);
                    }
                },
            }
            left = left - 1;
        }
        Ok(RunEnd::StepBudgetExhausted)
    }

    /// A hook-free run: executes up to `max_steps` instructions and stops
    /// at the halt convention or on the illegal-opcode error.  With no
    /// hook in between, more can be promised: a run whose first step halts
    /// leaves exactly the halted machine of [`Cpu::step`] -- in particular,
    /// for a one-instruction halting program the counter ends one past the
    /// halt opcode after exactly its seven cycles -- and whenever the run
    /// halts, the byte before the final program counter is the halt
    /// opcode.
    pub fn run(&mut self, max_steps: u64) -> (r: Result<RunEnd, StepError>)
        ensures
            max_steps == 0 ==> r == Ok::<RunEnd, StepError>(RunEnd::StepBudgetExhausted)
                && *final(self) == *old(self),
            max_steps > 0 && opcode_table(old(self).read8(old(self).pc)) is Unimplemented ==> r
                == Err::<RunEnd, StepError>(
                StepError::IllegalOpcode {
                    opcode: old(self).read8(old(self).pc),
                    addr: old(self).pc,
                },
            ) && *final(self) == *old(self),
            max_steps > 0 && old(self).read8(old(self).pc) == 0 ==> r == Ok::<
                RunEnd,
                StepError,
            >(RunEnd::Halted) && *final(self) == (Cpu {
                pc: wrap16(old(self).pc + 1),
                cycles: wrap64(old(self).cycles + 7),
                ..*old(self)
            }),
            r matches Err(StepError::IllegalOpcode { opcode, addr }) ==> addr == final(self).pc
                && final(self).read8(addr) == opcode && opcode_table(opcode) is Unimplemented,
            r == Ok::<RunEnd, StepError>(RunEnd::Halted) ==> final(self).read8(
                wrap16(final(self).pc - 1),
            ) == 0,
    {
        let mut left: u64 = max_steps;
        while left > 0
            invariant
                left <= max_steps,
                max_steps == 0 ==> left == 0 && *self == *old(self),
                left == max_steps ==> *self == *old(self),
                left < max_steps ==> opcode_table(old(self).read8(old(self).pc)) is Official
                    && old(self).read8(old(self).pc) != 0,
            decreases left,
        {
            let ghost before = *self;
            match self.step() {
                Err(e) => {
                    return Err(e);
                },
                Ok(StepOutcome::Halted) => {
                    proof {
                        lemma_wrap16_shift(before.pc + 1, -1);
                    }
                    return Ok(RunEnd::Halted);
                },
                Ok(StepOutcome::Running) => {
                },
            }
            left = left - 1;
        }
        Ok(RunEnd::StepBudgetExhausted)
    }
}

/// Bridges wrapped eight-bit arithmetic: adding to an already wrapped
/// value wraps to the same byte as adding the whole distance at once.
pub proof fn lemma_wrap8_shift(x: int, k: int)
    ensures
        wrap8(wrap8(x) + k) == wrap8(x + k),
{
    lemma_fundamental_div_mod(x, 0x100);
    lemma_mod_multiples_vanish(-(x / 0x100), x + k, 0x100);
}

/// The same bridge for sixteen-bit program-counter arithmetic.
pub proof fn lemma_wrap16_shift(x: int, k: int)
    ensures
        wrap16(wrap16(x) + k) == wrap16(x + k),
{
    lemma_fundamental_div_mod(x, 0x10000);
    lemma_mod_multiples_vanish(-(x / 0x10000), x + k, 0x10000);
}

/// Two single stack-pointer moves compose to a double move.
proof fn lemma_wrap8_rechain(sp: u8)
    ensures
        wrap8(wrap8(sp + 1) + 1) == wrap8(sp + 2),
        wrap8(wrap8(sp + 1) + 2) == wrap8(sp + 3),
{
    lemma_wrap8_shift(sp + 1, 1);
    lemma_wrap8_shift(sp + 1, 2);
}

/// Zero-page indexed addressing wraps within the zero page: the effective
/// address is the base byte plus the index, modulo 256, and therefore
/// never reaches 0x100.
pub proof fn lemma_zero_page_index_wraps(cpu: Cpu, at: u16)
    ensures
        cpu.spec_operand_address(Mode::ZeroPageX, at).0 == wrap8(cpu.read8(at) + cpu.x) as u16,
        cpu.spec_operand_address(Mode::ZeroPageX, at).0 < 0x100,
        cpu.spec_operand_address(Mode::ZeroPageY, at).0 == wrap8(cpu.read8(at) + cpu.y) as u16,
        cpu.spec_operand_address(Mode::ZeroPageY, at).0 < 0x100,
{
}

/// Stack push/pop round trip, over the exact contracts of
/// [`Cpu::stack_push`] and [`Cpu::stack_pop`]: when `mid` is any state a
/// push of `v` from `pre` may leave and `post`/`r` are what a pop from
/// `mid` returns, the popped byte is `v`, the stack pointer is back at its
/// original value, and all registers are as before the push.
pub proof fn lemma_stack_push_pop_round_trip(pre: Cpu, mid: Cpu, post: Cpu, v: u8, r: u8)
    requires
        mid.regs() == (Regs { sp: wrap8(pre.sp - 1), ..pre.regs() }),
        mid.bus.rom == pre.bus.rom,
        mid.ram() == pre.ram().update(mirror_ram_index(stack_addr(pre.sp)), v),
        post.regs() == (Regs { sp: wrap8(mid.sp + 1), ..mid.regs() }),
        post.bus == mid.bus,
        r == mid.read8(stack_addr(wrap8(mid.sp + 1))),
    ensures
        r == v,
        post.regs() == pre.regs(),
{
    lemma_mod_multiples_vanish(1, pre.sp - 1, 0x100);
    assert(wrap8(mid.sp + 1) == pre.sp);
    assert(stack_addr(pre.sp) < 0x2000);
    assert(mirror_ram_index(stack_addr(pre.sp)) == 0x100 + pre.sp as int);
    assert(r == v);
}

/// Flag computation law: recomputing zero and negative from a result byte
/// sets zero exactly for the byte 0 and negative exactly for bytes with the
/// high bit set; in particular 0x00 gives zero-and-not-negative and 0x80
/// gives negative.
pub proof fn lemma_flag_computation(f: Flags, v: u8)
    ensures
        zn(f, v).zero <==> v == 0,
        zn(f, v).negative <==> v >= 0x80,
        zn(f, 0).zero && !zn(f, 0).negative,
        zn(f, 0x80).negative && !zn(f, 0x80).zero,
{
}

} // verus!
