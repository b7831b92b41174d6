use fpgrars::insn::Instruction;
use fpgrars::machine::{RunFault, Simulator, StepOutcome};
use fpgrars::memory::{AccessMode, MMIO_BASE};
use fpgrars::pipeline::{parse_riscv, Parsed};

fn lines(src: &[&str]) -> Vec<Vec<u8>> {
    src.iter().map(|s| s.as_bytes().to_vec()).collect()
}

fn run_program(src: &[&str], data_size: usize) -> (Simulator, StepOutcome) {
    let parsed = parse_riscv(&lines(src), data_size).unwrap();
    let mut sim = Simulator::new(parsed, AccessMode::Checked);
    let out = sim.run_steps(10_000);
    (sim, out)
}

#[test]
fn arithmetic_scenario_halts_with_sum() {
    let (sim, out) = run_program(
        &[
            "addi x1 x0 5",
            "addi x2 x0 7",
            "add x3 x1 x2",
            "beq x0 x0 END",
            "addi x3 x0 0",
            "END: addi x4 x0 1",
        ],
        0,
    );
    assert_eq!(out, StepOutcome::Halt);
    assert!(!sim.running);
    assert_eq!(sim.get_register(3), 12);
    assert_eq!(sim.get_register(4), 1);
}

#[test]
fn fall_through_halts_cleanly() {
    // no explicit terminate syscall: the implicit epilogue must halt the
    // machine rather than let it read past the end of the code
    let (sim, out) = run_program(&["addi x1 x0 1"], 0);
    assert_eq!(out, StepOutcome::Halt);
    assert!(!sim.running);
    assert!(sim.pc < sim.code.len());
}

#[test]
fn division_by_zero_yields_sentinels() {
    let mut sim = Simulator::new(
        Parsed {
            code: vec![Instruction::Div(3, 1, 2), Instruction::Rem(4, 1, 2)],
            data: vec![],
        },
        AccessMode::Checked,
    );
    sim.set_register(1, 7);
    assert_eq!(sim.step(), StepOutcome::Normal);
    assert_eq!(sim.step(), StepOutcome::Normal);
    assert_eq!(sim.get_register(3), 0xffff_ffff);
    assert_eq!(sim.get_register(4), 7);
}

#[test]
fn unsigned_division_by_zero_yields_sentinels() {
    let mut sim = Simulator::new(
        Parsed {
            code: vec![Instruction::Divu(3, 1, 2), Instruction::Remu(4, 1, 2)],
            data: vec![],
        },
        AccessMode::Checked,
    );
    sim.set_register(1, 0x8000_0001);
    sim.step();
    sim.step();
    assert_eq!(sim.get_register(3), 0xffff_ffff);
    assert_eq!(sim.get_register(4), 0x8000_0001);
}

#[test]
fn signed_division_truncates_toward_zero() {
    let mut sim = Simulator::new(
        Parsed {
            code: vec![Instruction::Div(3, 1, 2), Instruction::Rem(4, 1, 2)],
            data: vec![],
        },
        AccessMode::Checked,
    );
    sim.set_register(1, (-7i32) as u32);
    sim.set_register(2, 2);
    sim.step();
    sim.step();
    assert_eq!(sim.get_register(3), (-3i32) as u32);
    assert_eq!(sim.get_register(4), (-1i32) as u32);
}

#[test]
fn store_then_load_round_trips() {
    let (sim, out) = run_program(
        &["li x1 305419896", "sw x1 0(x0)", "lw x2 0(x0)"],
        16,
    );
    assert_eq!(out, StepOutcome::Halt);
    assert_eq!(sim.get_register(2), 0x12345678);
    // little-endian byte order in the data segment
    assert_eq!(&sim.memory.data[0..4], &[0x78, 0x56, 0x34, 0x12]);
}

#[test]
fn byte_loads_extend_correctly() {
    let (sim, out) = run_program(
        &[".data", ".byte 255", ".text", "lb x1 0(x0)", "lbu x2 0(x0)"],
        4,
    );
    assert_eq!(out, StepOutcome::Halt);
    assert_eq!(sim.get_register(1), 0xffff_ffff);
    assert_eq!(sim.get_register(2), 255);
}

#[test]
fn halfword_loads_extend_correctly() {
    let (sim, out) = run_program(
        &[".data", ".word -2", ".text", "lh x1 0(x0)", "lhu x2 0(x0)"],
        4,
    );
    assert_eq!(out, StepOutcome::Halt);
    assert_eq!(sim.get_register(1), 0xffff_fffe);
    assert_eq!(sim.get_register(2), 0xfffe);
}

#[test]
fn register_zero_stays_zero() {
    let (sim, out) = run_program(&["addi x0 x0 7", "add x1 x0 x0"], 0);
    assert_eq!(out, StepOutcome::Halt);
    assert_eq!(sim.get_register(0), 0);
    assert_eq!(sim.get_register(1), 0);
}

#[test]
fn shifts_mask_amount_and_keep_sign() {
    let (sim, out) = run_program(
        &[
            "li x1 -8",
            "srai x2 x1 1",
            "srli x3 x1 1",
            "li x4 1",
            "slli x5 x4 31",
            "li x6 33",
            "sll x7 x4 x6",  // amount masked to 1
        ],
        0,
    );
    assert_eq!(out, StepOutcome::Halt);
    assert_eq!(sim.get_register(2), (-4i32) as u32);
    assert_eq!(sim.get_register(3), 0x7fff_fffc);
    assert_eq!(sim.get_register(5), 0x8000_0000);
    assert_eq!(sim.get_register(7), 2);
}

#[test]
fn comparisons_use_correct_signedness() {
    let (sim, out) = run_program(
        &[
            "li x1 -1",
            "li x2 1",
            "slt x3 x1 x2",
            "sltu x4 x1 x2",
            "slti x5 x1 0",
            "sltiu x6 x1 -1",
        ],
        0,
    );
    assert_eq!(out, StepOutcome::Halt);
    assert_eq!(sim.get_register(3), 1);  // -1 < 1 signed
    assert_eq!(sim.get_register(4), 0);  // 0xffffffff < 1 unsigned is false
    assert_eq!(sim.get_register(5), 1);
    assert_eq!(sim.get_register(6), 0);
}

#[test]
fn call_and_return_flow() {
    let (sim, out) = run_program(
        &[
            "jal ra FUNC",
            "addi x2 x0 1",
            "beq x0 x0 END",
            "FUNC: addi x3 x0 9",
            "ret",
            "END: addi x4 x0 1",
        ],
        0,
    );
    assert_eq!(out, StepOutcome::Halt);
    assert_eq!(sim.get_register(3), 9);
    assert_eq!(sim.get_register(2), 1);
    assert_eq!(sim.get_register(4), 1);
}

#[test]
fn checked_out_of_bounds_access_faults_with_context() {
    let parsed = parse_riscv(&lines(&["li x1 16384", "lw x2 0(x1)"]), 16).unwrap();
    let mut sim = Simulator::new(parsed, AccessMode::Checked);
    let out = sim.run_steps(10);
    assert_eq!(out, StepOutcome::Fault(RunFault::BadAccess(16384, 1)));
    assert!(!sim.running);
}

#[test]
fn unchecked_out_of_bounds_access_reads_zero() {
    let parsed = parse_riscv(&lines(&["li x1 16384", "lw x2 0(x1)", "sw x1 4(x1)"]), 16).unwrap();
    let mut sim = Simulator::new(parsed, AccessMode::Unchecked);
    let out = sim.run_steps(100);
    assert_eq!(out, StepOutcome::Halt);
    assert_eq!(sim.get_register(2), 0);
}

#[test]
fn other_syscalls_are_handed_to_the_caller() {
    let parsed = parse_riscv(&lines(&["li a7 1", "li a0 42", "ecall"]), 0).unwrap();
    let mut sim = Simulator::new(parsed, AccessMode::Checked);
    let out = sim.run_steps(10);
    assert_eq!(out, StepOutcome::Syscall(1));
    assert!(sim.running);
    assert_eq!(sim.get_register(10), 42);
    // the caller performs the effect and steps on to the clean exit
    let out = sim.run_steps(10);
    assert_eq!(out, StepOutcome::Halt);
}

#[test]
fn stores_reach_the_mmio_window() {
    // -16777216 is the MMIO base address read as a signed immediate
    assert_eq!((-16_777_216i32) as u32, MMIO_BASE);
    let parsed = parse_riscv(&lines(&["li x1 -16777216", "li x2 171", "sb x2 0(x1)"]), 0).unwrap();
    let mut sim = Simulator::new(parsed, AccessMode::Checked);
    let out = sim.run_steps(10);
    assert_eq!(out, StepOutcome::Halt);
    assert_eq!(sim.memory.mmio[0], 171);
}

#[test]
fn pc_out_of_range_faults_defensively() {
    let mut sim = Simulator::new(
        Parsed { code: vec![], data: vec![] },
        AccessMode::Checked,
    );
    let out = sim.step();
    assert_eq!(out, StepOutcome::Fault(RunFault::PcOutOfRange(0)));
    assert!(!sim.running);
    // a halted machine stays put
    assert_eq!(sim.step(), StepOutcome::Halt);
}
