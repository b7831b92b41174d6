//! The execution engine: a register file (register 0 hard-wired to zero), a
//! program counter in instruction indices, and the memory model. The machine
//! is *running* or *halted*; it leaves running only through the terminate
//! syscall or an unrecoverable fault. Arithmetic follows two's-complement
//! 32-bit semantics; shifts mask the amount to the low five bits; division
//! by zero yields the defined sentinel (all-ones quotient, dividend
//! remainder) rather than a fault.

use vstd::prelude::*;
use crate::insn::Instruction;
use crate::lex::{imm_as_u32, u32_of_i32};
use crate::memory::{
    AccessMode, MemView, Memory, mem_at, mem_write16_at, mem_write32_at, mem_write_at, wf_mem,
    MMIO_BASE,
};
use crate::pipeline::Parsed;

verus! {

/// The largest instruction count a simulator accepts: keeps every byte
/// address of the code segment well below 32 bits.
pub const CODE_LIMIT: usize = 0x0fff_ffff;

/// A 32-bit register value read as a signed number.
pub open spec fn to_i32(a: u32) -> int {
    if a < 0x8000_0000 {
        a as int
    } else {
        a - 0x1_0000_0000
    }
}

/// An integer reduced to its unsigned 32-bit pattern.
pub open spec fn to_u32(x: int) -> u32 {
    (x % 0x1_0000_0000) as u32
}

pub open spec fn iabs(x: int) -> int {
    if x < 0 {
        -x
    } else {
        x
    }
}

pub open spec fn spec_add32(a: u32, b: u32) -> u32 {
    to_u32(a + b)
}

pub open spec fn spec_sub32(a: u32, b: u32) -> u32 {
    to_u32(a - b)
}

pub open spec fn spec_mul32(a: u32, b: u32) -> u32 {
    to_u32(a * b)
}

/// Signed less-than of two register values.
pub open spec fn spec_lt_s(a: u32, b: u32) -> bool {
    to_i32(a) < to_i32(b)
}

/// Left shift by one, `n` times: multiplication by two modulo `2^32`.
pub open spec fn sll_rec(a: u32, n: nat) -> u32
    decreases n,
{
    if n == 0 {
        a
    } else {
        to_u32(2 * sll_rec(a, (n - 1) as nat))
    }
}

/// Logical right shift by one, `n` times: unsigned halving.
pub open spec fn srl_rec(a: u32, n: nat) -> u32
    decreases n,
{
    if n == 0 {
        a
    } else {
        (srl_rec(a, (n - 1) as nat) / 2) as u32
    }
}

/// One arithmetic right shift: halving that keeps the sign bit.
pub open spec fn sra1(x: u32) -> u32 {
    if x >= 0x8000_0000 {
        (x / 2 + 0x8000_0000) as u32
    } else {
        (x / 2) as u32
    }
}

pub open spec fn sra_rec(a: u32, n: nat) -> u32
    decreases n,
{
    if n == 0 {
        a
    } else {
        sra1(sra_rec(a, (n - 1) as nat))
    }
}

/// Unsigned division with the division-by-zero sentinel: all ones.
pub open spec fn spec_divu(a: u32, b: u32) -> u32 {
    if b == 0 {
        0xffff_ffffu32
    } else {
        to_u32(a as int / b as int)
    }
}

/// Unsigned remainder with the division-by-zero sentinel: the dividend.
pub open spec fn spec_remu(a: u32, b: u32) -> u32 {
    if b == 0 {
        a
    } else {
        to_u32(a as int % b as int)
    }
}

/// Signed division, truncating toward zero, with the sentinel for zero
/// divisors; the one overflowing quotient wraps back to the dividend.
pub open spec fn spec_divs(a: u32, b: u32) -> u32 {
    if b == 0 {
        0xffff_ffffu32
    } else {
        let q = iabs(to_i32(a)) / iabs(to_i32(b));
        if (to_i32(a) < 0) != (to_i32(b) < 0) {
            to_u32(-q)
        } else {
            to_u32(q)
        }
    }
}

/// Signed remainder (same sign as the dividend), dividend for zero divisors.
pub open spec fn spec_rems(a: u32, b: u32) -> u32 {
    if b == 0 {
        a
    } else {
        let r = iabs(to_i32(a)) % iabs(to_i32(b));
        if to_i32(a) < 0 {
            to_u32(-r)
        } else {
            to_u32(r)
        }
    }
}

/// A byte sign-extended to 32 bits.
pub open spec fn sign_ext8(b: u8) -> u32 {
    if b >= 128 {
        (b + 0xffff_ff00) as u32
    } else {
        b as u32
    }
}

/// A halfword (already below `2^16`) sign-extended to 32 bits.
pub open spec fn sign_ext16(h: u32) -> u32 {
    if h >= 0x8000 {
        (h + 0xffff_0000) as u32
    } else {
        h
    }
}

/// The low 32 bits of a resolved byte address.
pub open spec fn lo32(t: usize) -> u32 {
    ((t as int) % 0x1_0000_0000) as u32
}

fn add32(a: u32, b: u32) -> (r: u32)
    ensures
        r == spec_add32(a, b),
{
    let s: u64 = a as u64 + b as u64;
    if s >= 0x1_0000_0000 {
        (s - 0x1_0000_0000) as u32
    } else {
        s as u32
    }
}

fn sub32(a: u32, b: u32) -> (r: u32)
    ensures
        r == spec_sub32(a, b),
{
    if a >= b {
        a - b
    } else {
        ((a as u64 + 0x1_0000_0000) - b as u64) as u32
    }
}

fn mul32(a: u32, b: u32) -> (r: u32)
    ensures
        r == spec_mul32(a, b),
{
    proof {
        assert((a as int) * (b as int) <= 0xffff_ffff * 0xffff_ffff) by (nonlinear_arith)
            requires
                a <= 0xffff_ffff,
                b <= 0xffff_ffff,
        ;
    }
    let p: u64 = a as u64 * b as u64;
    (p % 0x1_0000_0000) as u32
}

fn lt_s(a: u32, b: u32) -> (r: bool)
    ensures
        r == spec_lt_s(a, b),
{
    let sa = a >= 0x8000_0000;
    let sb = b >= 0x8000_0000;
    if sa != sb {
        sa
    } else {
        a < b
    }
}

fn sll32(a: u32, sh: u32) -> (r: u32)
    requires
        sh < 32,
    ensures
        r == sll_rec(a, sh as nat),
{
    let mut r = a;
    let mut i: u32 = 0;
    while i < sh
        invariant
            i <= sh,
            r == sll_rec(a, i as nat),
        decreases sh - i,
    {
        r = ((r as u64 * 2) % 0x1_0000_0000) as u32;
        i = i + 1;
    }
    r
}

fn srl32(a: u32, sh: u32) -> (r: u32)
    requires
        sh < 32,
    ensures
        r == srl_rec(a, sh as nat),
{
    let mut r = a;
    let mut i: u32 = 0;
    while i < sh
        invariant
            i <= sh,
            r == srl_rec(a, i as nat),
        decreases sh - i,
    {
        r = r / 2;
        i = i + 1;
    }
    r
}

fn sra32(a: u32, sh: u32) -> (r: u32)
    requires
        sh < 32,
    ensures
        r == sra_rec(a, sh as nat),
{
    let mut r = a;
    let mut i: u32 = 0;
    while i < sh
        invariant
            i <= sh,
            r == sra_rec(a, i as nat),
        decreases sh - i,
    {
        r = if r >= 0x8000_0000 {
            r / 2 + 0x8000_0000
        } else {
            r / 2
        };
        i = i + 1;
    }
    r
}

/// The magnitude of a register value read as signed.
fn abs_u32(a: u32) -> (r: u32)
    ensures
        r as int == iabs(to_i32(a)),
{
    if a >= 0x8000_0000 {
        ((0x1_0000_0000u64 - a as u64)) as u32
    } else {
        a
    }
}

/// The unsigned pattern of the negation of a magnitude.
fn neg_u32(q: u32) -> (r: u32)
    ensures
        r == to_u32(-(q as int)),
{
    if q == 0 {
        0
    } else {
        (0x1_0000_0000u64 - q as u64) as u32
    }
}

fn div_s(a: u32, b: u32) -> (r: u32)
    ensures
        r == spec_divs(a, b),
{
    if b == 0 {
        0xffff_ffff
    } else {
        let aa = abs_u32(a);
        let ab = abs_u32(b);
        let q = aa / ab;
        if (a >= 0x8000_0000) != (b >= 0x8000_0000) {
            neg_u32(q)
        } else {
            q
        }
    }
}

fn rem_s(a: u32, b: u32) -> (r: u32)
    ensures
        r == spec_rems(a, b),
{
    if b == 0 {
        a
    } else {
        let aa = abs_u32(a);
        let ab = abs_u32(b);
        let rr = aa % ab;
        if a >= 0x8000_0000 {
            neg_u32(rr)
        } else {
            rr
        }
    }
}

fn div_u(a: u32, b: u32) -> (r: u32)
    ensures
        r == spec_divu(a, b),
{
    if b == 0 {
        0xffff_ffff
    } else {
        a / b
    }
}

fn rem_u(a: u32, b: u32) -> (r: u32)
    ensures
        r == spec_remu(a, b),
{
    if b == 0 {
        a
    } else {
        a % b
    }
}

/// An unrecoverable runtime fault, with enough context to diagnose the
/// simulated program: the faulting address and/or the instruction index.
#[derive(Clone, Copy, Debug, PartialEq, Eq, Structural)]
pub enum RunFault {
    /// the program counter left the instruction sequence
    PcOutOfRange(usize),
    /// a load or store touched an address outside both memory regions
    /// (checked mode only): faulting address, then instruction index
    BadAccess(u32, usize),
}

/// What one execution step did.
#[derive(Clone, Copy, Debug, PartialEq, Eq, Structural)]
pub enum StepOutcome {
    /// the instruction completed and the machine keeps running
    Normal,
    /// the machine halted: terminate syscall, or a step on a halted machine
    Halt,
    /// a syscall other than terminate: the caller performs its external
    /// effect (via the register and memory accessors) and steps on
    Syscall(u32),
    /// the machine halted on an unrecoverable fault
    Fault(RunFault),
}

/// Mathematical model of the whole machine.
pub struct SimView {
    pub code: Seq<Instruction>,
    pub regs: Seq<u32>,
    pub pc: nat,
    pub running: bool,
    pub mem: MemView,
    pub mode: AccessMode,
}

/// A well-formed machine: 32 registers with register 0 zero, a bounded code
/// segment, and a well-formed memory.
pub open spec fn sim_wf(v: SimView) -> bool {
    &&& v.regs.len() == 32
    &&& v.regs[0] == 0
    &&& v.code.len() <= CODE_LIMIT
    &&& wf_mem(v.mem)
}

/// The value of a register; an index outside the file reads zero.
pub open spec fn reg_of(v: SimView, i: u8) -> u32 {
    if i < 32 {
        v.regs[i as int]
    } else {
        0
    }
}

/// The register file after a write: writes to register 0 and to indices
/// outside the file are dropped.
pub open spec fn upd_reg(regs: Seq<u32>, rd: u8, val: u32) -> Seq<u32> {
    if 1 <= rd < 32 {
        regs.update(rd as int, val)
    } else {
        regs
    }
}

/// A byte read as the engine sees it: a real byte in bounds, a fault out of
/// bounds in checked mode, and a zero placeholder in unchecked mode.
pub open spec fn spec_read8(m: MemView, mode: AccessMode, addr: int) -> Option<u8> {
    match mem_at(m, addr) {
        Some(b) => Some(b),
        None => if mode == AccessMode::Unchecked {
            Some(0u8)
        } else {
            None
        },
    }
}

pub open spec fn spec_read16(m: MemView, mode: AccessMode, addr: int) -> Option<u32> {
    match (spec_read8(m, mode, addr), spec_read8(m, mode, addr + 1)) {
        (Some(lo), Some(hi)) => Some((lo + 256 * hi) as u32),
        _ => None,
    }
}

pub open spec fn spec_read32(m: MemView, mode: AccessMode, addr: int) -> Option<u32> {
    match (
        spec_read8(m, mode, addr),
        spec_read8(m, mode, addr + 1),
        spec_read8(m, mode, addr + 2),
        spec_read8(m, mode, addr + 3),
    ) {
        (Some(b0), Some(b1), Some(b2), Some(b3)) => Some(
            (b0 + 256 * b1 + 65536 * b2 + 16777216 * b3) as u32,
        ),
        _ => None,
    }
}

/// A store as the engine sees it: the new memory and whether it succeeded.
/// Checked mode refuses an out-of-bounds store; unchecked mode absorbs it.
pub open spec fn spec_store8(m: MemView, mode: AccessMode, addr: int, b: u8) -> (MemView, bool) {
    if mem_at(m, addr) is Some {
        (mem_write_at(m, addr, b), true)
    } else {
        (m, mode == AccessMode::Unchecked)
    }
}

pub open spec fn spec_store16(m: MemView, mode: AccessMode, addr: int, v: u32) -> (
    MemView,
    bool,
) {
    if crate::memory::in_bounds_n(m, addr, 2) {
        (mem_write16_at(m, addr, v), true)
    } else {
        (m, mode == AccessMode::Unchecked)
    }
}

pub open spec fn spec_store32(m: MemView, mode: AccessMode, addr: int, v: u32) -> (
    MemView,
    bool,
) {
    if crate::memory::in_bounds_n(m, addr, 4) {
        (mem_write32_at(m, addr, v), true)
    } else {
        (m, mode == AccessMode::Unchecked)
    }
}

fn eng_read8(mem: &Memory, a: u32) -> (r: Option<u8>)
    requires
        mem.wf(),
    ensures
        r == spec_read8(mem@, mem.mode, a as int),
{
    mem.read8(a)
}

/// What an out-of-bounds byte reads as, by mode.
fn oob_byte(mem: &Memory) -> (r: Option<u8>)
    ensures
        r == (if mem.mode == AccessMode::Unchecked {
            Some(0u8)
        } else {
            None::<u8>
        }),
{
    match mem.mode {
        AccessMode::Checked => Option::None,
        AccessMode::Unchecked => Option::Some(0),
    }
}

fn eng_read16(mem: &Memory, a: u32) -> (r: Option<u32>)
    requires
        mem.wf(),
    ensures
        r == spec_read16(mem@, mem.mode, a as int),
        r matches Some(v) ==> v < 0x10000,
{
    let b0 = mem.read8(a);
    let b1 = if a < 0xffff_ffff {
        mem.read8(a + 1)
    } else {
        proof {
            assert(mem_at(mem@, a as int + 1) is None);
        }
        oob_byte(mem)
    };
    match (b0, b1) {
        (Option::Some(b0), Option::Some(b1)) => Option::Some(b0 as u32 + 256 * (b1 as u32)),
        _ => Option::None,
    }
}

fn eng_read32(mem: &Memory, a: u32) -> (r: Option<u32>)
    requires
        mem.wf(),
    ensures
        r == spec_read32(mem@, mem.mode, a as int),
{
    let b0 = mem.read8(a);
    let b1 = if a <= 0xffff_fffe {
        mem.read8(a + 1)
    } else {
        proof {
            assert(mem_at(mem@, a as int + 1) is None);
        }
        oob_byte(mem)
    };
    let b2 = if a <= 0xffff_fffd {
        mem.read8(a + 2)
    } else {
        proof {
            assert(mem_at(mem@, a as int + 2) is None);
        }
        oob_byte(mem)
    };
    let b3 = if a <= 0xffff_fffc {
        mem.read8(a + 3)
    } else {
        proof {
            assert(mem_at(mem@, a as int + 3) is None);
        }
        oob_byte(mem)
    };
    match (b0, b1, b2, b3) {
        (Option::Some(b0), Option::Some(b1), Option::Some(b2), Option::Some(b3)) => Option::Some(
            b0 as u32 + 256 * (b1 as u32) + 65536 * (b2 as u32) + 16777216 * (b3 as u32),
        ),
        _ => Option::None,
    }
}

fn eng_store16(mem: &mut Memory, a: u32, v: u32) -> (ok: bool)
    requires
        old(mem).wf(),
    ensures
        final(mem).wf(),
        final(mem).mode == old(mem).mode,
        (final(mem)@, ok) == spec_store16(old(mem)@, old(mem).mode, a as int, v),
{
    if a <= 0xffff_fffe && mem.in_range(a) && mem.in_range(a + 1) {
        let ok0 = mem.write8(a, (v % 256) as u8);
        let ok1 = mem.write8(a + 1, ((v / 256) % 256) as u8);
        assert(ok0 && ok1);
        true
    } else {
        proof {
            if a > 0xffff_fffe {
                assert(mem_at(mem@, a as int + 1) is None);
            }
        }
        match mem.mode {
            AccessMode::Checked => false,
            AccessMode::Unchecked => true,
        }
    }
}

fn eng_store32(mem: &mut Memory, a: u32, v: u32) -> (ok: bool)
    requires
        old(mem).wf(),
    ensures
        final(mem).wf(),
        final(mem).mode == old(mem).mode,
        (final(mem)@, ok) == spec_store32(old(mem)@, old(mem).mode, a as int, v),
{
    if a <= 0xffff_fffc && mem.in_range(a) && mem.in_range(a + 1) && mem.in_range(a + 2)
        && mem.in_range(a + 3) {
        let ok0 = mem.write8(a, (v % 256) as u8);
        let ok1 = mem.write8(a + 1, ((v / 256) % 256) as u8);
        let ok2 = mem.write8(a + 2, ((v / 65536) % 256) as u8);
        let ok3 = mem.write8(a + 3, ((v / 16777216) % 256) as u8);
        assert(ok0 && ok1 && ok2 && ok3);
        true
    } else {
        proof {
            if a > 0xffff_fffc {
                assert(mem_at(mem@, a as int + 3) is None);
            }
        }
        match mem.mode {
            AccessMode::Checked => false,
            AccessMode::Unchecked => true,
        }
    }
}

/// Holds the register file and the program counter, fetches instructions from
/// the resolved sequence by index, executes each according to its semantics,
/// and dispatches system calls to its caller.
pub struct Simulator {
    pub code: Vec<Instruction>,
    pub regs: Vec<u32>,
    pub pc: usize,
    pub running: bool,
    pub memory: Memory,
}

impl View for Simulator {
    type V = SimView;

    open spec fn view(&self) -> SimView {
        SimView {
            code: self.code@,
            regs: self.regs@,
            pc: self.pc as nat,
            running: self.running,
            mem: self.memory@,
            mode: self.memory.mode,
        }
    }
}

/// What one step does to a well-formed machine, and what it reports. A halted
/// machine stays put; a program counter outside the code faults (defensive:
/// finalized programs never reach it); otherwise the fetched instruction's
/// semantics apply. Opaque: proofs that evaluate a step reveal it.
#[verifier::opaque]
pub open spec fn spec_step(v: SimView) -> (SimView, StepOutcome) {
    if !v.running {
        (v, StepOutcome::Halt)
    } else if v.pc >= v.code.len() {
        (
            SimView { running: false, ..v },
            StepOutcome::Fault(RunFault::PcOutOfRange(v.pc as usize)),
        )
    } else {
        let pc1 = (v.pc + 1) as nat;
        match v.code[v.pc as int] {
            Instruction::Add(rd, r1, r2) => (
                with_rd(v, rd, spec_add32(reg_of(v, r1), reg_of(v, r2))),
                StepOutcome::Normal,
            ),
            Instruction::Sub(rd, r1, r2) => (
                with_rd(v, rd, spec_sub32(reg_of(v, r1), reg_of(v, r2))),
                StepOutcome::Normal,
            ),
            Instruction::Sll(rd, r1, r2) => (
                with_rd(v, rd, sll_rec(reg_of(v, r1), (reg_of(v, r2) % 32) as nat)),
                StepOutcome::Normal,
            ),
            Instruction::Slt(rd, r1, r2) => (
                with_rd(
                    v,
                    rd,
                    if spec_lt_s(reg_of(v, r1), reg_of(v, r2)) {
                        1u32
                    } else {
                        0u32
                    },
                ),
                StepOutcome::Normal,
            ),
            Instruction::Sltu(rd, r1, r2) => (
                with_rd(
                    v,
                    rd,
                    if reg_of(v, r1) < reg_of(v, r2) {
                        1u32
                    } else {
                        0u32
                    },
                ),
                StepOutcome::Normal,
            ),
            Instruction::Xor(rd, r1, r2) => (
                with_rd(v, rd, reg_of(v, r1) ^ reg_of(v, r2)),
                StepOutcome::Normal,
            ),
            Instruction::Srl(rd, r1, r2) => (
                with_rd(v, rd, srl_rec(reg_of(v, r1), (reg_of(v, r2) % 32) as nat)),
                StepOutcome::Normal,
            ),
            Instruction::Sra(rd, r1, r2) => (
                with_rd(v, rd, sra_rec(reg_of(v, r1), (reg_of(v, r2) % 32) as nat)),
                StepOutcome::Normal,
            ),
            Instruction::Or(rd, r1, r2) => (
                with_rd(v, rd, reg_of(v, r1) | reg_of(v, r2)),
                StepOutcome::Normal,
            ),
            Instruction::And(rd, r1, r2) => (
                with_rd(v, rd, reg_of(v, r1) & reg_of(v, r2)),
                StepOutcome::Normal,
            ),
            Instruction::Mul(rd, r1, r2) => (
                with_rd(v, rd, spec_mul32(reg_of(v, r1), reg_of(v, r2))),
                StepOutcome::Normal,
            ),
            Instruction::Div(rd, r1, r2) => (
                with_rd(v, rd, spec_divs(reg_of(v, r1), reg_of(v, r2))),
                StepOutcome::Normal,
            ),
            Instruction::Divu(rd, r1, r2) => (
                with_rd(v, rd, spec_divu(reg_of(v, r1), reg_of(v, r2))),
                StepOutcome::Normal,
            ),
            Instruction::Rem(rd, r1, r2) => (
                with_rd(v, rd, spec_rems(reg_of(v, r1), reg_of(v, r2))),
                StepOutcome::Normal,
            ),
            Instruction::Remu(rd, r1, r2) => (
                with_rd(v, rd, spec_remu(reg_of(v, r1), reg_of(v, r2))),
                StepOutcome::Normal,
            ),
            Instruction::Ecall => if reg_of(v, 17) == 10 {
                (SimView { running: false, ..v }, StepOutcome::Halt)
            } else {
                (SimView { pc: pc1, ..v }, StepOutcome::Syscall(reg_of(v, 17)))
            },
            Instruction::Lb(rd, imm, rs1) => {
                let ea = spec_add32(reg_of(v, rs1), u32_of_i32(imm));
                match spec_read8(v.mem, v.mode, ea as int) {
                    Some(b) => (with_rd(v, rd, sign_ext8(b)), StepOutcome::Normal),
                    None => fault_at(v, ea),
                }
            },
            Instruction::Lh(rd, imm, rs1) => {
                let ea = spec_add32(reg_of(v, rs1), u32_of_i32(imm));
                match spec_read16(v.mem, v.mode, ea as int) {
                    Some(h) => (with_rd(v, rd, sign_ext16(h)), StepOutcome::Normal),
                    None => fault_at(v, ea),
                }
            },
            Instruction::Lw(rd, imm, rs1) => {
                let ea = spec_add32(reg_of(v, rs1), u32_of_i32(imm));
                match spec_read32(v.mem, v.mode, ea as int) {
                    Some(w) => (with_rd(v, rd, w), StepOutcome::Normal),
                    None => fault_at(v, ea),
                }
            },
            Instruction::Lbu(rd, imm, rs1) => {
                let ea = spec_add32(reg_of(v, rs1), u32_of_i32(imm));
                match spec_read8(v.mem, v.mode, ea as int) {
                    Some(b) => (with_rd(v, rd, b as u32), StepOutcome::Normal),
                    None => fault_at(v, ea),
                }
            },
            Instruction::Lhu(rd, imm, rs1) => {
                let ea = spec_add32(reg_of(v, rs1), u32_of_i32(imm));
                match spec_read16(v.mem, v.mode, ea as int) {
                    Some(h) => (with_rd(v, rd, h), StepOutcome::Normal),
                    None => fault_at(v, ea),
                }
            },
            Instruction::Addi(rd, rs1, imm) => (
                with_rd(v, rd, spec_add32(reg_of(v, rs1), u32_of_i32(imm))),
                StepOutcome::Normal,
            ),
            Instruction::Slti(rd, rs1, imm) => (
                with_rd(
                    v,
                    rd,
                    if spec_lt_s(reg_of(v, rs1), u32_of_i32(imm)) {
                        1u32
                    } else {
                        0u32
                    },
                ),
                StepOutcome::Normal,
            ),
            Instruction::Sltiu(rd, rs1, immu) => (
                with_rd(
                    v,
                    rd,
                    if reg_of(v, rs1) < immu {
                        1u32
                    } else {
                        0u32
                    },
                ),
                StepOutcome::Normal,
            ),
            Instruction::Slli(rd, rs1, imm) => (
                with_rd(v, rd, sll_rec(reg_of(v, rs1), (u32_of_i32(imm) % 32) as nat)),
                StepOutcome::Normal,
            ),
            Instruction::Srli(rd, rs1, imm) => (
                with_rd(v, rd, srl_rec(reg_of(v, rs1), (u32_of_i32(imm) % 32) as nat)),
                StepOutcome::Normal,
            ),
            Instruction::Srai(rd, rs1, imm) => (
                with_rd(v, rd, sra_rec(reg_of(v, rs1), (u32_of_i32(imm) % 32) as nat)),
                StepOutcome::Normal,
            ),
            Instruction::Ori(rd, rs1, immu) => (
                with_rd(v, rd, reg_of(v, rs1) | immu),
                StepOutcome::Normal,
            ),
            Instruction::Andi(rd, rs1, immu) => (
                with_rd(v, rd, reg_of(v, rs1) & immu),
                StepOutcome::Normal,
            ),
            Instruction::Xori(rd, rs1, immu) => (
                with_rd(v, rd, reg_of(v, rs1) ^ immu),
                StepOutcome::Normal,
            ),
            Instruction::Sb(rs2, imm, rs1) => {
                let ea = spec_add32(reg_of(v, rs1), u32_of_i32(imm));
                let w = spec_store8(v.mem, v.mode, ea as int, (reg_of(v, rs2) % 256) as u8);
                if w.1 {
                    (SimView { mem: w.0, pc: pc1, ..v }, StepOutcome::Normal)
                } else {
                    fault_at(v, ea)
                }
            },
            Instruction::Sh(rs2, imm, rs1) => {
                let ea = spec_add32(reg_of(v, rs1), u32_of_i32(imm));
                let w = spec_store16(v.mem, v.mode, ea as int, reg_of(v, rs2));
                if w.1 {
                    (SimView { mem: w.0, pc: pc1, ..v }, StepOutcome::Normal)
                } else {
                    fault_at(v, ea)
                }
            },
            Instruction::Sw(rs2, imm, rs1) => {
                let ea = spec_add32(reg_of(v, rs1), u32_of_i32(imm));
                let w = spec_store32(v.mem, v.mode, ea as int, reg_of(v, rs2));
                if w.1 {
                    (SimView { mem: w.0, pc: pc1, ..v }, StepOutcome::Normal)
                } else {
                    fault_at(v, ea)
                }
            },
            Instruction::Beq(a, b, t) => (
                branch_to(v, reg_of(v, a) == reg_of(v, b), t),
                StepOutcome::Normal,
            ),
            Instruction::Bne(a, b, t) => (
                branch_to(v, reg_of(v, a) != reg_of(v, b), t),
                StepOutcome::Normal,
            ),
            Instruction::Blt(a, b, t) => (
                branch_to(v, spec_lt_s(reg_of(v, a), reg_of(v, b)), t),
                StepOutcome::Normal,
            ),
            Instruction::Bge(a, b, t) => (
                branch_to(v, !spec_lt_s(reg_of(v, a), reg_of(v, b)), t),
                StepOutcome::Normal,
            ),
            Instruction::Bltu(a, b, t) => (
                branch_to(v, reg_of(v, a) < reg_of(v, b), t),
                StepOutcome::Normal,
            ),
            Instruction::Bgeu(a, b, t) => (
                branch_to(v, reg_of(v, a) >= reg_of(v, b), t),
                StepOutcome::Normal,
            ),
            Instruction::Jalr(rd, rs1, imm) => {
                let t = spec_add32(reg_of(v, rs1), u32_of_i32(imm));
                (
                    SimView {
                        regs: upd_reg(v.regs, rd, (4 * (v.pc + 1)) as u32),
                        pc: (t / 4) as nat,
                        ..v
                    },
                    StepOutcome::Normal,
                )
            },
            Instruction::Jal(rd, t) => (
                SimView {
                    regs: upd_reg(v.regs, rd, (4 * (v.pc + 1)) as u32),
                    pc: (t / 4) as nat,
                    ..v
                },
                StepOutcome::Normal,
            ),
            Instruction::Li(rd, imm) => (with_rd(v, rd, u32_of_i32(imm)), StepOutcome::Normal),
            Instruction::Mv(rd, rs1) => (with_rd(v, rd, reg_of(v, rs1)), StepOutcome::Normal),
            Instruction::La(rd, t) => (with_rd(v, rd, lo32(t)), StepOutcome::Normal),
            Instruction::Ret => (
                SimView { pc: (reg_of(v, 1) / 4) as nat, ..v },
                StepOutcome::Normal,
            ),
        }
    }
}

/// Write a destination register and advance the program counter.
pub open spec fn with_rd(v: SimView, rd: u8, val: u32) -> SimView {
    SimView { regs: upd_reg(v.regs, rd, val), pc: (v.pc + 1) as nat, ..v }
}

/// Take or fall through a branch with a resolved byte-offset target.
pub open spec fn branch_to(v: SimView, cond: bool, target: usize) -> SimView {
    SimView {
        pc: if cond {
            (target / 4) as nat
        } else {
            (v.pc + 1) as nat
        },
        ..v
    }
}

/// Halt on a bad memory access, reporting the faulting address and the
/// instruction index.
pub open spec fn fault_at(v: SimView, ea: u32) -> (SimView, StepOutcome) {
    (
        SimView { running: false, ..v },
        StepOutcome::Fault(RunFault::BadAccess(ea, v.pc as usize)),
    )
}

impl Simulator {
    /// A well-formed machine; established by the constructor and preserved by
    /// every method.
    pub open spec fn wf(&self) -> bool {
        sim_wf(self@)
    }

    /// A fresh machine over a parsed program: registers zeroed, program
    /// counter at the first instruction, running, data segment loaded, MMIO
    /// window zeroed.
    pub fn new(parsed: Parsed, mode: AccessMode) -> (r: Simulator)
        requires
            parsed.code@.len() <= CODE_LIMIT,
            parsed.data@.len() <= MMIO_BASE,
        ensures
            r.wf(),
            r@.code == parsed.code@,
            r@.regs == Seq::new(32, |i: int| 0u32),
            r@.pc == 0,
            r@.running,
            r@.mem.data == parsed.data@,
            r@.mem.mmio == Seq::new(crate::memory::MMIO_SIZE as nat, |i: int| 0u8),
            r@.mode == mode,
    {
        let mut regs: Vec<u32> = Vec::new();
        while regs.len() < 32
            invariant
                regs@.len() <= 32,
                forall|i: int| 0 <= i < regs@.len() ==> regs@[i] == 0u32,
            decreases 32 - regs@.len(),
        {
            regs.push(0);
        }
        assert(regs@ =~= Seq::new(32, |i: int| 0u32));
        let memory = Memory::new(parsed.data, mode);
        Simulator { code: parsed.code, regs, pc: 0, running: true, memory }
    }

    /// The runtime check for the machine's well-formedness, so that untrusted
    /// callers can test it before stepping.
    pub fn wf_check(&self) -> (r: bool)
        ensures
            r == self.wf(),
    {
        self.regs.len() == 32 && (self.regs.len() > 0 && self.regs[0] == 0) && self.code.len()
            <= CODE_LIMIT && self.memory.data.len() <= MMIO_BASE as usize
            && self.memory.mmio.len() == crate::memory::MMIO_SIZE
    }

    /// Read a register; an index outside the file reads zero.
    pub fn get_register(&self, i: u8) -> (r: u32)
        requires
            self.wf(),
        ensures
            r == reg_of(self@, i),
    {
        if i < 32 {
            self.regs[i as usize]
        } else {
            0
        }
    }

    /// Write a register; writes to register 0 (and to indices outside the
    /// file) are dropped, so register 0 stays zero.
    pub fn set_register(&mut self, i: u8, v: u32)
        requires
            old(self).wf(),
        ensures
            final(self).wf(),
            final(self)@ == (SimView { regs: upd_reg(old(self)@.regs, i, v), ..old(self)@ }),
    {
        if 1 <= i && i < 32 {
            self.regs.set(i as usize, v);
        }
    }

    fn rreg(&self, i: u8) -> (r: u32)
        requires
            self.wf(),
        ensures
            r == reg_of(self@, i),
    {
        if i < 32 {
            self.regs[i as usize]
        } else {
            0
        }
    }

    fn wreg(&mut self, rd: u8, val: u32)
        requires
            old(self).wf(),
        ensures
            final(self).wf(),
            final(self)@ == (SimView { regs: upd_reg(old(self)@.regs, rd, val), ..old(self)@ }),
    {
        if 1 <= rd && rd < 32 {
            self.regs.set(rd as usize, val);
        }
    }

    /// Execute the instruction at the current program counter, per
    /// [`spec_step`].
    pub fn step(&mut self) -> (r: StepOutcome)
        requires
            old(self).wf(),
        ensures
            final(self).wf(),
            final(self)@ == spec_step(old(self)@).0,
            r == spec_step(old(self)@).1,
    {
        proof {
            reveal(spec_step);
        }
        let ghost v0 = self@;
        if !self.running {
            return StepOutcome::Halt;
        }
        if self.pc >= self.code.len() {
            let p = self.pc;
            self.running = false;
            return StepOutcome::Fault(RunFault::PcOutOfRange(p));
        }
        let inst = self.code[self.pc];
        let pc1 = self.pc + 1;
        let pc0 = self.pc;
        match inst {
            Instruction::Add(rd, r1, r2) => {
                let val = add32(self.rreg(r1), self.rreg(r2));
                self.wreg(rd, val);
                self.pc = pc1;
                StepOutcome::Normal
            },
            Instruction::Sub(rd, r1, r2) => {
                let val = sub32(self.rreg(r1), self.rreg(r2));
                self.wreg(rd, val);
                self.pc = pc1;
                StepOutcome::Normal
            },
            Instruction::Sll(rd, r1, r2) => {
                let val = sll32(self.rreg(r1), self.rreg(r2) % 32);
                self.wreg(rd, val);
                self.pc = pc1;
                StepOutcome::Normal
            },
            Instruction::Slt(rd, r1, r2) => {
                let val: u32 = if lt_s(self.rreg(r1), self.rreg(r2)) {
                    1
                } else {
                    0
                };
                self.wreg(rd, val);
                self.pc = pc1;
                StepOutcome::Normal
            },
            Instruction::Sltu(rd, r1, r2) => {
                let val: u32 = if self.rreg(r1) < self.rreg(r2) {
                    1
                } else {
                    0
                };
                self.wreg(rd, val);
                self.pc = pc1;
                StepOutcome::Normal
            },
            Instruction::Xor(rd, r1, r2) => {
                let val = self.rreg(r1) ^ self.rreg(r2);
                self.wreg(rd, val);
                self.pc = pc1;
                StepOutcome::Normal
            },
            Instruction::Srl(rd, r1, r2) => {
                let val = srl32(self.rreg(r1), self.rreg(r2) % 32);
                self.wreg(rd, val);
                self.pc = pc1;
                StepOutcome::Normal
            },
            Instruction::Sra(rd, r1, r2) => {
                let val = sra32(self.rreg(r1), self.rreg(r2) % 32);
                self.wreg(rd, val);
                self.pc = pc1;
                StepOutcome::Normal
            },
            Instruction::Or(rd, r1, r2) => {
                let val = self.rreg(r1) | self.rreg(r2);
                self.wreg(rd, val);
                self.pc = pc1;
                StepOutcome::Normal
            },
            Instruction::And(rd, r1, r2) => {
                let val = self.rreg(r1) & self.rreg(r2);
                self.wreg(rd, val);
                self.pc = pc1;
                StepOutcome::Normal
            },
            Instruction::Mul(rd, r1, r2) => {
                let val = mul32(self.rreg(r1), self.rreg(r2));
                self.wreg(rd, val);
                self.pc = pc1;
                StepOutcome::Normal
            },
            Instruction::Div(rd, r1, r2) => {
                let val = div_s(self.rreg(r1), self.rreg(r2));
                self.wreg(rd, val);
                self.pc = pc1;
                StepOutcome::Normal
            },
            Instruction::Divu(rd, r1, r2) => {
                let val = div_u(self.rreg(r1), self.rreg(r2));
                self.wreg(rd, val);
                self.pc = pc1;
                StepOutcome::Normal
            },
            Instruction::Rem(rd, r1, r2) => {
                let val = rem_s(self.rreg(r1), self.rreg(r2));
                self.wreg(rd, val);
                self.pc = pc1;
                StepOutcome::Normal
            },
            Instruction::Remu(rd, r1, r2) => {
                let val = rem_u(self.rreg(r1), self.rreg(r2));
                self.wreg(rd, val);
                self.pc = pc1;
                StepOutcome::Normal
            },
            Instruction::Ecall => {
                let n = self.rreg(17);
                if n == 10 {
                    self.running = false;
                    StepOutcome::Halt
                } else {
                    self.pc = pc1;
                    StepOutcome::Syscall(n)
                }
            },
            Instruction::Lb(rd, imm, rs1) => {
                let ea = add32(self.rreg(rs1), imm_as_u32(imm));
                match eng_read8(&self.memory, ea) {
                    Option::Some(b) => {
                        let val: u32 = if b >= 128 {
                            b as u32 + 0xffff_ff00
                        } else {
                            b as u32
                        };
                        self.wreg(rd, val);
                        self.pc = pc1;
                        StepOutcome::Normal
                    },
                    Option::None => {
                        self.running = false;
                        StepOutcome::Fault(RunFault::BadAccess(ea, pc0))
                    },
                }
            },
            Instruction::Lh(rd, imm, rs1) => {
                let ea = add32(self.rreg(rs1), imm_as_u32(imm));
                match eng_read16(&self.memory, ea) {
                    Option::Some(h) => {
                        let val: u32 = if h >= 0x8000 {
                            h + 0xffff_0000
                        } else {
                            h
                        };
                        self.wreg(rd, val);
                        self.pc = pc1;
                        StepOutcome::Normal
                    },
                    Option::None => {
                        self.running = false;
                        StepOutcome::Fault(RunFault::BadAccess(ea, pc0))
                    },
                }
            },
            Instruction::Lw(rd, imm, rs1) => {
                let ea = add32(self.rreg(rs1), imm_as_u32(imm));
                match eng_read32(&self.memory, ea) {
                    Option::Some(w) => {
                        self.wreg(rd, w);
                        self.pc = pc1;
                        StepOutcome::Normal
                    },
                    Option::None => {
                        self.running = false;
                        StepOutcome::Fault(RunFault::BadAccess(ea, pc0))
                    },
                }
            },
            Instruction::Lbu(rd, imm, rs1) => {
                let ea = add32(self.rreg(rs1), imm_as_u32(imm));
                match eng_read8(&self.memory, ea) {
                    Option::Some(b) => {
                        self.wreg(rd, b as u32);
                        self.pc = pc1;
                        StepOutcome::Normal
                    },
                    Option::None => {
                        self.running = false;
                        StepOutcome::Fault(RunFault::BadAccess(ea, pc0))
                    },
                }
            },
            Instruction::Lhu(rd, imm, rs1) => {
                let ea = add32(self.rreg(rs1), imm_as_u32(imm));
                match eng_read16(&self.memory, ea) {
                    Option::Some(h) => {
                        self.wreg(rd, h);
                        self.pc = pc1;
                        StepOutcome::Normal
                    },
                    Option::None => {
                        self.running = false;
                        StepOutcome::Fault(RunFault::BadAccess(ea, pc0))
                    },
                }
            },
            Instruction::Addi(rd, rs1, imm) => {
                let val = add32(self.rreg(rs1), imm_as_u32(imm));
                self.wreg(rd, val);
                self.pc = pc1;
                StepOutcome::Normal
            },
            Instruction::Slti(rd, rs1, imm) => {
                let val: u32 = if lt_s(self.rreg(rs1), imm_as_u32(imm)) {
                    1
                } else {
                    0
                };
                self.wreg(rd, val);
                self.pc = pc1;
                StepOutcome::Normal
            },
            Instruction::Sltiu(rd, rs1, immu) => {
                let val: u32 = if self.rreg(rs1) < immu {
                    1
                } else {
                    0
                };
                self.wreg(rd, val);
                self.pc = pc1;
                StepOutcome::Normal
            },
            Instruction::Slli(rd, rs1, imm) => {
                let val = sll32(self.rreg(rs1), imm_as_u32(imm) % 32);
                self.wreg(rd, val);
                self.pc = pc1;
                StepOutcome::Normal
            },
            Instruction::Srli(rd, rs1, imm) => {
                let val = srl32(self.rreg(rs1), imm_as_u32(imm) % 32);
                self.wreg(rd, val);
                self.pc = pc1;
                StepOutcome::Normal
            },
            Instruction::Srai(rd, rs1, imm) => {
                let val = sra32(self.rreg(rs1), imm_as_u32(imm) % 32);
                self.wreg(rd, val);
                self.pc = pc1;
                StepOutcome::Normal
            },
            Instruction::Ori(rd, rs1, immu) => {
                let val = self.rreg(rs1) | immu;
                self.wreg(rd, val);
                self.pc = pc1;
                StepOutcome::Normal
            },
            Instruction::Andi(rd, rs1, immu) => {
                let val = self.rreg(rs1) & immu;
                self.wreg(rd, val);
                self.pc = pc1;
                StepOutcome::Normal
            },
            Instruction::Xori(rd, rs1, immu) => {
                let val = self.rreg(rs1) ^ immu;
                self.wreg(rd, val);
                self.pc = pc1;
                StepOutcome::Normal
            },
            Instruction::Sb(rs2, imm, rs1) => {
                let ea = add32(self.rreg(rs1), imm_as_u32(imm));
                let bval = (self.rreg(rs2) % 256) as u8;
                let ok = self.memory.write8(ea, bval);
                if ok {
                    self.pc = pc1;
                    StepOutcome::Normal
                } else {
                    self.running = false;
                    StepOutcome::Fault(RunFault::BadAccess(ea, pc0))
                }
            },
            Instruction::Sh(rs2, imm, rs1) => {
                let ea = add32(self.rreg(rs1), imm_as_u32(imm));
                let v = self.rreg(rs2);
                let ok = eng_store16(&mut self.memory, ea, v);
                if ok {
                    self.pc = pc1;
                    StepOutcome::Normal
                } else {
                    self.running = false;
                    StepOutcome::Fault(RunFault::BadAccess(ea, pc0))
                }
            },
            Instruction::Sw(rs2, imm, rs1) => {
                let ea = add32(self.rreg(rs1), imm_as_u32(imm));
                let v = self.rreg(rs2);
                let ok = eng_store32(&mut self.memory, ea, v);
                if ok {
                    self.pc = pc1;
                    StepOutcome::Normal
                } else {
                    self.running = false;
                    StepOutcome::Fault(RunFault::BadAccess(ea, pc0))
                }
            },
            Instruction::Beq(a, b, t) => {
                self.pc = if self.rreg(a) == self.rreg(b) {
                    t / 4
                } else {
                    pc1
                };
                StepOutcome::Normal
            },
            Instruction::Bne(a, b, t) => {
                self.pc = if self.rreg(a) != self.rreg(b) {
                    t / 4
                } else {
                    pc1
                };
                StepOutcome::Normal
            },
            Instruction::Blt(a, b, t) => {
                self.pc = if lt_s(self.rreg(a), self.rreg(b)) {
                    t / 4
                } else {
                    pc1
                };
                StepOutcome::Normal
            },
            Instruction::Bge(a, b, t) => {
                self.pc = if !lt_s(self.rreg(a), self.rreg(b)) {
                    t / 4
                } else {
                    pc1
                };
                StepOutcome::Normal
            },
            Instruction::Bltu(a, b, t) => {
                self.pc = if self.rreg(a) < self.rreg(b) {
                    t / 4
                } else {
                    pc1
                };
                StepOutcome::Normal
            },
            Instruction::Bgeu(a, b, t) => {
                self.pc = if self.rreg(a) >= self.rreg(b) {
                    t / 4
                } else {
                    pc1
                };
                StepOutcome::Normal
            },
            Instruction::Jalr(rd, rs1, imm) => {
                let t = add32(self.rreg(rs1), imm_as_u32(imm));
                self.wreg(rd, 4 * (pc1 as u32));
                self.pc = (t / 4) as usize;
                StepOutcome::Normal
            },
            Instruction::Jal(rd, t) => {
                self.wreg(rd, 4 * (pc1 as u32));
                self.pc = t / 4;
                StepOutcome::Normal
            },
            Instruction::Li(rd, imm) => {
                let val = imm_as_u32(imm);
                self.wreg(rd, val);
                self.pc = pc1;
                StepOutcome::Normal
            },
            Instruction::Mv(rd, rs1) => {
                let val = self.rreg(rs1);
                self.wreg(rd, val);
                self.pc = pc1;
                StepOutcome::Normal
            },
            Instruction::La(rd, t) => {
                let val = (t as u64 % 0x1_0000_0000) as u32;
                self.wreg(rd, val);
                self.pc = pc1;
                StepOutcome::Normal
            },
            Instruction::Ret => {
                self.pc = (self.rreg(1) / 4) as usize;
                StepOutcome::Normal
            },
        }
    }

    /// Step until the machine reports anything but a normal step, or until
    /// the step budget runs out; returns the last outcome. The caller handles
    /// a returned syscall (its external effect) and calls again.
    #[verifier::rlimit(100)]
    pub fn run_steps(&mut self, max_steps: usize) -> (r: StepOutcome)
        requires
            old(self).wf(),
        ensures
            final(self).wf(),
            final(self)@ == spec_run(old(self)@, max_steps as nat).0,
            r == spec_run(old(self)@, max_steps as nat).1,
    {
        let mut n: usize = 0;
        while n < max_steps
            invariant
                n <= max_steps,
                self.wf(),
                spec_run(old(self)@, max_steps as nat) == spec_run(self@, (max_steps - n) as nat),
            decreases max_steps - n,
        {
            let ghost before = self@;
            let o = self.step();
            proof {
                assert(spec_step(before) == (self@, o));
            }
            match o {
                StepOutcome::Normal => {},
                _ => {
                    proof {
                        assert(spec_run(before, (max_steps - n) as nat) == spec_step(before));
                        assert(spec_run(old(self)@, max_steps as nat) == (self@, o));
                    }
                    return o;
                },
            }
            n = n + 1;
        }
        StepOutcome::Normal
    }
}

/// Stepping up to `fuel` times, stopping at the first outcome that is not a
/// normal step.
pub open spec fn spec_run(v: SimView, fuel: nat) -> (SimView, StepOutcome)
    decreases fuel,
{
    if fuel == 0 {
        (v, StepOutcome::Normal)
    } else {
        let s = spec_step(v);
        if s.1 == StepOutcome::Normal {
            spec_run(s.0, (fuel - 1) as nat)
        } else {
            s
        }
    }
}

/// Division by zero is not a fault: for every dividend the quotient is all
/// ones and the remainder is the dividend, signed or unsigned.
pub proof fn lemma_division_by_zero(a: u32)
    ensures
        spec_divs(a, 0) == 0xffff_ffffu32,
        spec_rems(a, 0) == a,
        spec_divu(a, 0) == 0xffff_ffffu32,
        spec_remu(a, 0) == a,
{
}

/// A finalized program that falls off the end of its own code halts cleanly
/// instead of reading past the end of the instruction sequence: from the
/// first epilogue instruction, three steps reach the terminate syscall, the
/// program counter stays inside the sequence throughout, and the machine is
/// halted afterwards.
#[verifier::rlimit(80)]
pub proof fn lemma_fall_through_halts(v: SimView, user: Seq<Instruction>)
    requires
        sim_wf(v),
        v.running,
        v.code == user + crate::pipeline::epilogue(user.len()),
        v.pc == user.len(),
    ensures
        ({
            let s1 = spec_step(v);
            let s2 = spec_step(s1.0);
            let s3 = spec_step(s2.0);
            &&& s1.1 == StepOutcome::Normal
            &&& s2.1 == StepOutcome::Normal
            &&& s3.1 == StepOutcome::Halt
            &&& !s3.0.running
            &&& s1.0.pc < v.code.len()
            &&& s2.0.pc < v.code.len()
        }),
{
    reveal(spec_step);
    let n = user.len();
    assert(v.code.len() == n + 3);
    assert(v.code[n as int] == crate::pipeline::epilogue(n)[0]);
    assert(v.code[n as int] == Instruction::Jal(0, (4 * (n + 1)) as usize));
    let s1 = spec_step(v);
    assert(s1.0.pc == n + 1 && s1.0.regs == v.regs && s1.0.running);
    assert(v.code[n + 1 as int] == crate::pipeline::epilogue(n)[1]);
    let s2 = spec_step(s1.0);
    assert(s2.0.pc == n + 2 && s2.0.running);
    assert(reg_of(s2.0, 17) == 10);
    assert(v.code[n + 2 as int] == crate::pipeline::epilogue(n)[2]);
}

} // verus!
