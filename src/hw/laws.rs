use vstd::prelude::*;

use super::instruction::{bit, sext, OpCode};
use super::machine::{
    imm5, imm_mode, pc_offset9, reg_a, reg_b, trap_vector, wrap_add, EventModel, MachineState, TRAP_HALT,
};
use super::register::{flag_of, ConditionFlag};

verus! {

/// Register fields are three bits wide.
proof fn lemma_reg_a_small(i: u16)
    ensures
        reg_a(i) < 8,
{
    assert((i >> 9u16) & 7 < 8) by (bit_vector);
}

/// AND with the immediate 0 yields 0 and the ZERO flag, whatever the
/// operand.
pub proof fn lemma_and_immediate_zero(s: MachineState, i: u16)
    requires
        s.wf(),
        imm_mode(i),
        i & 0x1f == 0,
    ensures
        s.and(i).reg(reg_a(i)) == 0,
        s.and(i).cond() == ConditionFlag::ZERO.spec_value(),
{
    lemma_reg_a_small(i);
    assert(sext(0, 5) == 0) by (bit_vector);
    let a = s.reg(reg_b(i));
    assert(a & 0 == 0) by (bit_vector);
}

/// BR moves the PC to the PC plus its offset exactly when its n bit is set
/// and the flag is NEG, its z bit and ZERO, or its p bit and POS; it changes
/// nothing else.
pub proof fn lemma_branch_iff_flag_matches(s: MachineState, i: u16)
    requires
        s.wf(),
        one_flag(s),
    ensures
        (reg_a(i) & s.cond() != 0) == ((bit(i, 11) && s.cond() == ConditionFlag::NEG.spec_value())
            || (bit(i, 10) && s.cond() == ConditionFlag::ZERO.spec_value()) || (bit(i, 9)
            && s.cond() == ConditionFlag::POS.spec_value())),
        s.br(i).pc() == if (reg_a(i) & s.cond()) != 0 {
            wrap_add(s.pc(), pc_offset9(i))
        } else {
            s.pc()
        },
        forall|r: u16| r < 10 && r != 8 ==> #[trigger] s.br(i).reg(r) == s.reg(r),
        s.br(i).mem == s.mem,
{
    let c = s.cond();
    assert((((i >> 9u16) & 7) & c != 0) == ((bit(i, 11) && c == 4) || (bit(i, 10) && c == 2) || (
    bit(i, 9) && c == 1))) by (bit_vector)
        requires
            c == 1 || c == 2 || c == 4,
    ;
}

/// After `ADD R7,R7,#3` a return (`JMP R7`) moves the PC to R7 plus 3,
/// that is to 3 from a zero R7.
pub proof fn lemma_return_after_add(s: MachineState)
    requires
        s.wf(),
    ensures
        s.add(0x1fe3).jmp(0xc1c0).pc() == wrap_add(s.reg(7), 3),
        s.reg(7) == 0 ==> s.add(0x1fe3).jmp(0xc1c0).pc() == 3,
{
    assert(reg_a(0x1fe3) == 7) by (bit_vector);
    assert(reg_b(0x1fe3) == 7) by (bit_vector);
    assert(imm_mode(0x1fe3)) by (bit_vector);
    assert(imm5(0x1fe3) == 3) by (bit_vector);
    assert(reg_b(0xc1c0) == 7) by (bit_vector);
}

/// A JSR or JSRR executed by the fetch loop leaves in R7 the address of
/// the instruction after it.
pub proof fn lemma_jsr_links_return_address(s: MachineState)
    requires
        s.wf(),
        !s.halted,
        s.pc() != 0xffff,
        OpCode::decode(s.load(s.pc())) == OpCode::OpJsr,
    ensures
        s.step().0.reg(7) == s.pc() + 1,
        s.step().1 == EventModel::Continue,
{
}

/// LD, LDI, LDR and LEA set the condition register from the loaded value;
/// ST, STI and STR leave the registers as they were.
pub proof fn lemma_flags_of_loads_and_stores(s: MachineState, i: u16)
    requires
        s.wf(),
    ensures
        s.ld(i).cond() == flag_of(s.ld(i).reg(reg_a(i))).spec_value(),
        s.ldi(i).cond() == flag_of(s.ldi(i).reg(reg_a(i))).spec_value(),
        s.ldr(i).cond() == flag_of(s.ldr(i).reg(reg_a(i))).spec_value(),
        s.lea(i).cond() == flag_of(s.lea(i).reg(reg_a(i))).spec_value(),
        s.st(i).regs == s.regs,
        s.sti(i).regs == s.regs,
        s.str(i).regs == s.regs,
{
    lemma_reg_a_small(i);
}

/// A load from the address a store wrote reads the stored value: ST then
/// LD, STR then LDR, STI then LDI.
pub proof fn lemma_store_load_round_trip(s: MachineState, st: u16, ld: u16)
    requires
        s.wf(),
    ensures
        s.st(st).pc_relative(ld) == s.pc_relative(st) ==> s.st(st).ld(ld).reg(reg_a(ld)) == s.reg(
            reg_a(st),
        ),
        s.str(st).base_offset(ld) == s.base_offset(st) ==> s.str(st).ldr(ld).reg(reg_a(ld))
            == s.reg(reg_a(st)),
        s.sti(st).load(s.sti(st).pc_relative(ld)) == s.load(s.pc_relative(st)) ==> s.sti(st).ldi(
            ld,
        ).reg(reg_a(ld)) == s.reg(reg_a(st)),
{
    lemma_reg_a_small(st);
    lemma_reg_a_small(ld);
}

/// A halted machine stays halted: running it changes nothing, and any
/// step reports the halt.
pub proof fn lemma_halted_is_terminal(s: MachineState, n: nat)
    requires
        s.halted,
    ensures
        s.run(n).0 == s,
        n >= 1 ==> s.run(n).1 == EventModel::Halt,
{
}

/// The HALT trap ends the fetch loop: a run that reaches it stops there,
/// and running on from the result executes nothing more.
pub proof fn lemma_halt_trap_ends_run(s: MachineState, n: nat, m: nat)
    requires
        s.wf(),
        !s.halted,
        s.pc() != 0xffff,
        OpCode::decode(s.load(s.pc())) == OpCode::OpTrap,
        trap_vector(s.load(s.pc())) == TRAP_HALT,
        n >= 1,
    ensures
        s.run(n) == s.step(),
        s.step().0 == (MachineState {
            regs: s.regs.update(8, (s.pc() + 1) as u16).update(7, (s.pc() + 1) as u16),
            mem: s.mem,
            halted: true,
        }),
        s.step().0.halted,
        s.step().1 == EventModel::Halt,
        s.step().0.run(m).0 == s.step().0,
{
    lemma_halted_is_terminal(s.step().0, m);
}

/// The condition register holds exactly one of the POS, NEG and ZERO flags.
pub open spec fn one_flag(s: MachineState) -> bool {
    s.cond() == ConditionFlag::POS.spec_value() || s.cond() == ConditionFlag::NEG.spec_value()
        || s.cond() == ConditionFlag::ZERO.spec_value()
}

/// Every step keeps the machine well formed and exactly one condition flag
/// set.
pub proof fn lemma_step_keeps_one_flag(s: MachineState)
    requires
        s.wf(),
        one_flag(s),
    ensures
        s.step().0.wf(),
        one_flag(s.step().0),
{
    if !s.halted && s.pc() != 0xffff {
        let i = s.load(s.pc());
        lemma_reg_a_small(i);
    }
}

/// Any run keeps the machine well formed and exactly one condition flag
/// set.
pub proof fn lemma_run_keeps_one_flag(s: MachineState, n: nat)
    requires
        s.wf(),
        one_flag(s),
    ensures
        s.run(n).0.wf(),
        one_flag(s.run(n).0),
    decreases n,
{
    if n > 0 {
        lemma_step_keeps_one_flag(s);
        lemma_run_keeps_one_flag(s.step().0, (n - 1) as nat);
    }
}

} // verus!
