use nes_core::bus::Bus;
use nes_core::cartridge::Rom;
use nes_core::cpu::flags_of_byte;
use nes_core::cpu::flags_to_byte;
use nes_core::cpu::Cpu;
use nes_core::cpu::Flags;
use nes_core::cpu::NullHook;
use nes_core::cpu::RunEnd;
use nes_core::cpu::StepError;
use nes_core::cpu::StepOutcome;
use nes_core::opcodes::Mode;

/// A machine whose single PRG bank starts with `prog` and whose reset
/// vector points at the bank's start (address 0x8000), already reset.
fn cpu_with_program(prog: &[u8]) -> Cpu {
    let mut prg = vec![0u8; 0x4000];
    prg[..prog.len()].copy_from_slice(prog);
    prg[0x3ffc] = 0x00;
    prg[0x3ffd] = 0x80;
    let mut raw = vec![0x4e, 0x45, 0x53, 0x1a, 1, 0, 0, 0];
    raw.extend(vec![0u8; 8]);
    raw.extend(prg);
    let rom = Rom::new(&raw).unwrap();
    let mut cpu = Cpu::new(Bus::new(rom));
    cpu.reset();
    cpu
}

#[test]
fn reset_loads_vector_and_defaults() {
    let cpu = cpu_with_program(&[0xea]);
    assert_eq!(cpu.pc, 0x8000);
    assert_eq!(cpu.sp, 0xfd);
    assert_eq!(cpu.a, 0);
    assert_eq!(cpu.x, 0);
    assert_eq!(cpu.y, 0);
    assert_eq!(cpu.cycles, 0);
    assert!(cpu.flags.interrupt_disable);
    assert!(!cpu.flags.carry);
    assert!(!cpu.flags.zero);
    assert!(!cpu.flags.negative);
}

#[test]
fn zero_page_indexed_wraps_within_zero_page() {
    // base 0xFF with X = 1 must give 0x0000, never 0x0100
    let mut cpu = cpu_with_program(&[0xb5, 0xff]);
    cpu.x = 1;
    let (addr, crossed) = cpu.operand_address(Mode::ZeroPageX, 0x8001);
    assert_eq!(addr, 0x0000);
    assert!(!crossed);
    // and through a full instruction: LDA zero-page,X
    cpu.mem_write(0x0000, 0x5a);
    assert_eq!(cpu.step(), Ok(StepOutcome::Running));
    assert_eq!(cpu.a, 0x5a);
}

#[test]
fn zero_page_indexed_by_y_wraps_too() {
    let mut cpu = cpu_with_program(&[]);
    cpu.y = 0x10;
    cpu.mem_write(0x0020, 0xf8);
    let (addr, _) = cpu.operand_address(Mode::ZeroPageY, 0x0020);
    assert_eq!(addr, 0x0008);
}

#[test]
fn stack_push_pop_round_trip() {
    let mut cpu = cpu_with_program(&[]);
    let sp0 = cpu.sp;
    cpu.stack_push(0xab);
    assert_eq!(cpu.sp, sp0.wrapping_sub(1));
    let v = cpu.stack_pop();
    assert_eq!(v, 0xab);
    assert_eq!(cpu.sp, sp0);
}

#[test]
fn sixteen_pushes_from_zero_stay_in_stack_page() {
    let mut cpu = cpu_with_program(&[]);
    cpu.sp = 0x00;
    for i in 0..16u8 {
        cpu.stack_push(i + 1);
    }
    assert_eq!(cpu.sp, 0xf0);
    // first push went to 0x0100, the rest wrapped to the top of the page
    assert_eq!(cpu.mem_read(0x0100), 1);
    assert_eq!(cpu.mem_read(0x01ff), 2);
    assert_eq!(cpu.mem_read(0x01f1), 16);
    // the zero page was never crossed into
    for a in 0x00f0u16..0x0100 {
        assert_eq!(cpu.mem_read(a), 0);
    }
}

#[test]
fn stack_word_round_trip() {
    let mut cpu = cpu_with_program(&[]);
    let sp0 = cpu.sp;
    cpu.stack_push_u16(0x1234);
    assert_eq!(cpu.sp, sp0.wrapping_sub(2));
    assert_eq!(cpu.stack_pop_u16(), 0x1234);
    assert_eq!(cpu.sp, sp0);
}

#[test]
fn flag_computation_zero_and_negative() {
    let mut cpu = cpu_with_program(&[]);
    cpu.update_zero_and_negative(0x00);
    assert!(cpu.flags.zero);
    assert!(!cpu.flags.negative);
    cpu.update_zero_and_negative(0x80);
    assert!(cpu.flags.negative);
    assert!(!cpu.flags.zero);
    cpu.update_zero_and_negative(0x7f);
    assert!(!cpu.flags.zero);
    assert!(!cpu.flags.negative);
}

#[test]
fn halt_program_executes_one_instruction() {
    // one PRG bank whose first byte is the halt (break) instruction and
    // whose reset vector points at its own start
    let mut cpu = cpu_with_program(&[0x00]);
    let mut hook = NullHook;
    let end = cpu.run_with_hook(&mut hook, 1_000_000);
    assert_eq!(end, Ok(RunEnd::Halted));
    assert_eq!(cpu.pc, 0x8001); // vector address plus the halt length
    assert_eq!(cpu.cycles, 7); // exactly one instruction ran
}

#[test]
fn illegal_opcode_is_fatal_and_reported() {
    // 0x02 has no defined behavior in the table
    let mut cpu = cpu_with_program(&[0x02]);
    let r = cpu.step();
    assert_eq!(
        r,
        Err(StepError::IllegalOpcode { opcode: 0x02, addr: 0x8000 })
    );
    // the machine was left untouched
    assert_eq!(cpu.pc, 0x8000);
    assert_eq!(cpu.cycles, 0);
    // and the run loop surfaces it, never skips it
    let mut hook = NullHook;
    let end = cpu.run_with_hook(&mut hook, 1_000_000);
    assert_eq!(
        end,
        Err(StepError::IllegalOpcode { opcode: 0x02, addr: 0x8000 })
    );
}

#[test]
fn run_reports_exhausted_budget() {
    // an endless loop: JMP to itself
    let mut cpu = cpu_with_program(&[0x4c, 0x00, 0x80]);
    let mut hook = NullHook;
    let end = cpu.run_with_hook(&mut hook, 10);
    assert_eq!(end, Ok(RunEnd::StepBudgetExhausted));
    assert_eq!(cpu.pc, 0x8000);
    assert_eq!(cpu.cycles, 30);
}

struct CountingHook {
    calls: u64,
    last_pc: u16,
}

impl nes_core::cpu::StepHook for CountingHook {
    fn on_step(&mut self, cpu: &mut Cpu) {
        self.calls += 1;
        self.last_pc = cpu.pc;
        // the hook has full mutable access: inject an input byte
        cpu.mem_write(0x00fe, 0x42);
    }
}

#[test]
fn hook_runs_once_per_instruction_and_may_write_memory() {
    // three NOPs then halt: one hook call per executed instruction,
    // the halting one included
    let mut cpu = cpu_with_program(&[0xea, 0xea, 0xea, 0x00]);
    let mut hook = CountingHook { calls: 0, last_pc: 0 };
    let end = cpu.run_with_hook(&mut hook, 1_000_000);
    assert_eq!(end, Ok(RunEnd::Halted));
    assert_eq!(hook.calls, 4);
    assert_eq!(cpu.mem_read(0x00fe), 0x42);
}

#[test]
fn hook_sees_the_final_instruction_boundary() {
    // a single halt instruction: the hook runs exactly once, observing
    // the machine right after the one executed instruction
    let mut cpu = cpu_with_program(&[0x00]);
    let mut hook = CountingHook { calls: 0, last_pc: 0 };
    let end = cpu.run_with_hook(&mut hook, 1_000_000);
    assert_eq!(end, Ok(RunEnd::Halted));
    assert_eq!(hook.calls, 1);
    assert_eq!(hook.last_pc, 0x8001);
}

#[test]
fn hook_free_run_halts_with_exact_state() {
    let mut cpu = cpu_with_program(&[0x00]);
    let end = cpu.run(1_000_000);
    assert_eq!(end, Ok(RunEnd::Halted));
    assert_eq!(cpu.pc, 0x8001);
    assert_eq!(cpu.cycles, 7);
    // the byte before the final program counter is the halt opcode
    assert_eq!(cpu.mem_read(cpu.pc.wrapping_sub(1)), 0x00);
}

#[test]
fn hook_free_run_reports_illegal_opcode_unchanged() {
    let mut cpu = cpu_with_program(&[0x02]);
    let end = cpu.run(1_000_000);
    assert_eq!(
        end,
        Err(StepError::IllegalOpcode { opcode: 0x02, addr: 0x8000 })
    );
    assert_eq!(cpu.pc, 0x8000);
    assert_eq!(cpu.cycles, 0);
}

#[test]
fn hook_free_run_with_zero_budget_does_nothing() {
    let mut cpu = cpu_with_program(&[0xea]);
    let end = cpu.run(0);
    assert_eq!(end, Ok(RunEnd::StepBudgetExhausted));
    assert_eq!(cpu.pc, 0x8000);
    assert_eq!(cpu.cycles, 0);
}

#[test]
fn program_counter_wraps_at_top_of_address_space() {
    let mut cpu = cpu_with_program(&[]);
    // the PRG byte mapped at 0xFFFF is 0x00, the halt instruction;
    // stepping from there must wrap the program counter to 0x0000
    cpu.pc = 0xffff;
    let r = cpu.step();
    assert_eq!(r, Ok(StepOutcome::Halted));
    assert_eq!(cpu.pc, 0x0000);
}

#[test]
fn flags_byte_round_trip_values() {
    let f = Flags {
        carry: true,
        zero: false,
        interrupt_disable: true,
        decimal: false,
        break_flag: false,
        overflow: true,
        negative: false,
    };
    let b = flags_to_byte(f);
    assert_eq!(b, 1 + 4 + 32 + 64);
    let g = flags_of_byte(b);
    assert_eq!(g, f);
}
