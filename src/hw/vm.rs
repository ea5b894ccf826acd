use vstd::prelude::*;

use super::instruction::{sign_extend, OpCode};
use super::machine::{
    imm5, imm_mode, packed_bytes, reg_c, string_bytes, wrap_add, EventModel, Fault, MachineState,
    TRAP_GETC, TRAP_HALT, TRAP_IN, TRAP_OUT, TRAP_PUTS, TRAP_PUTSP,
};
use super::memory::{Memory, MEMORY_SIZE};
use super::register::{ConditionFlag, Registers, COND_REG, PC_REG, PC_START};

verus! {

/// What a step hands to the host that runs the machine.
#[derive(Debug, PartialEq, Eq)]
pub enum Event {
    /// Nothing for the host to do; the machine can go on.
    Continue,
    /// These bytes are to be written out.
    Output(Vec<u8>),
    /// One character is to be read and handed back through `supply_char`;
    /// `echo` asks for the prompt and echo of the IN routine.
    ReadChar { echo: bool },
    /// The machine has halted: output is to be flushed and the run ended.
    Halt,
    /// The machine has faulted.
    Fault(Fault),
}

impl View for Event {
    type V = EventModel;

    open spec fn view(&self) -> EventModel {
        match self {
            Event::Continue => EventModel::Continue,
            Event::Output(b) => EventModel::Output(b@),
            Event::ReadChar { echo } => EventModel::ReadChar { echo: *echo },
            Event::Halt => EventModel::Halt,
            Event::Fault(f) => EventModel::Fault(*f),
        }
    }
}

/// The machine: memory, register file and run state.
pub struct VM {
    pub memory: Memory,
    pub registers: Registers,
    pub halted: bool,
}

impl View for VM {
    type V = MachineState;

    open spec fn view(&self) -> MachineState {
        MachineState { regs: self.registers@, mem: self.memory@, halted: self.halted }
    }
}

/// The state of a machine just built.
pub open spec fn initial_state() -> MachineState {
    MachineState {
        regs: seq![0u16, 0, 0, 0, 0, 0, 0, 0, PC_START, ConditionFlag::ZERO.spec_value()],
        mem: Seq::new(MEMORY_SIZE as nat, |a: int| 0u16),
        halted: false,
    }
}

/// The three-bit register field of `i` that starts at bit `shift`.
fn reg_field(i: u16, shift: u16) -> (r: u8)
    requires
        shift < 16,
    ensures
        r < 8,
        r as u16 == (i >> shift) & 7,
{
    let v: u16 = (i >> shift) & 7;
    assert(v < 8) by (bit_vector)
        requires
            v == (i >> shift) & 7,
    ;
    v as u8
}

/// Bits 2 to 0 of `i`.
fn low_reg_field(i: u16) -> (r: u8)
    ensures
        r < 8,
        r as u16 == i & 7,
{
    let v: u16 = i & 7;
    assert(v < 8) by (bit_vector)
        requires
            v == i & 7,
    ;
    v as u8
}

/// The sum of two words modulo 2^16.
fn wadd(a: u16, b: u16) -> (r: u16)
    ensures
        r == wrap_add(a, b),
{
    ((a as u32 + b as u32) % 65536) as u16
}

impl VM {
    /// A machine with zeroed memory and general registers, the PC at the
    /// start address and the condition register ZERO.
    pub fn new() -> (r: Self)
        ensures
            r@ == initial_state(),
    {
        VM { memory: Memory::new(), registers: Registers::new(), halted: false }
    }

    /// Overwrites the word at `addr_to_write`; addresses wrap modulo the
    /// size of the address space.
    pub fn write_memory(&mut self, addr_to_write: usize, value: u16)
        ensures
            final(self)@ == old(self)@.store((addr_to_write % MEMORY_SIZE) as u16, value),
    {
        self.memory.write((addr_to_write % MEMORY_SIZE) as u16, value);
    }

    /// The word at `addr_to_read`; addresses wrap modulo the size of the
    /// address space, so there is always one.
    pub fn read_memory(&self, addr_to_read: usize) -> (r: Option<u16>)
        ensures
            r == Some(self@.mem[(addr_to_read % MEMORY_SIZE) as int]),
    {
        Some(self.memory.read((addr_to_read % MEMORY_SIZE) as u16))
    }

    /// Stores a character read by the host in R0.
    pub fn supply_char(&mut self, c: u8)
        ensures
            final(self)@ == old(self)@.set_reg(0, c as u16),
    {
        self.registers.update_register(0, c as u16);
    }

    /// Writes `v` to register `r` and sets the condition register from it.
    fn set_result(&mut self, r: u8, v: u16)
        requires
            r < 8,
        ensures
            final(self)@ == old(self)@.set_result(r as u16, v),
    {
        self.registers.update_register(r, v);
        self.registers.update_cond_register(r);
    }

    /// The PC plus the sign-extended nine-bit offset of `i`.
    fn pc_relative(&self, i: u16) -> (r: u16)
        ensures
            r == self@.pc_relative(i),
    {
        wadd(self.registers.get_val(PC_REG), sign_extend(i & 0x1ff, 9))
    }

    /// The base register of `i` plus its sign-extended six-bit offset.
    fn base_offset(&self, i: u16) -> (r: u16)
        ensures
            r == self@.base_offset(i),
    {
        let base_r: u8 = reg_field(i, 6);
        wadd(self.registers.get_val(base_r), sign_extend(i & 0x3f, 6))
    }

    /// The second operand of ADD and AND: the immediate or register SR2.
    fn second_operand(&self, i: u16) -> (r: u16)
        ensures
            r == (if imm_mode(i) {
                imm5(i)
            } else {
                self@.reg(reg_c(i))
            }),
    {
        if (i >> 5u16) & 1 == 1 {
            sign_extend(i & 0x1f, 5)
        } else {
            self.registers.get_val(low_reg_field(i))
        }
    }

    /// ADD: DR = SR1 + SR2 or SR1 + imm5; sets the condition register.
    pub fn add(&mut self, full_instruction: u16)
        ensures
            final(self)@ == old(self)@.add(full_instruction),
    {
        let dest_reg: u8 = reg_field(full_instruction, 9);
        let source_reg_1: u8 = reg_field(full_instruction, 6);
        let a: u16 = self.registers.get_val(source_reg_1);
        let b: u16 = self.second_operand(full_instruction);
        self.set_result(dest_reg, wadd(a, b));
    }

    /// AND: DR = SR1 & SR2 or SR1 & imm5; sets the condition register.
    pub fn and(&mut self, full_instruction: u16)
        ensures
            final(self)@ == old(self)@.and(full_instruction),
    {
        let dest_reg: u8 = reg_field(full_instruction, 9);
        let source_reg_1: u8 = reg_field(full_instruction, 6);
        let a: u16 = self.registers.get_val(source_reg_1);
        let b: u16 = self.second_operand(full_instruction);
        self.set_result(dest_reg, a & b);
    }

    /// BR: moves the PC by the nine-bit offset when the n bit is set and
    /// the flag is NEG, the z bit and ZERO, or the p bit and POS.
    pub fn br(&mut self, full_instruction: u16)
        ensures
            final(self)@ == old(self)@.br(full_instruction),
    {
        let conds: u16 = (full_instruction >> 9u16) & 7;
        if (conds & self.registers.get_val(COND_REG)) != 0 {
            let new_pc: u16 = self.pc_relative(full_instruction);
            self.registers.update_register(PC_REG, new_pc);
        }
    }

    /// JMP: PC = BaseR (RET when BaseR is R7).
    pub fn jmp(&mut self, full_instruction: u16)
        ensures
            final(self)@ == old(self)@.jmp(full_instruction),
    {
        let to_jmp: u8 = reg_field(full_instruction, 6);
        let target: u16 = self.registers.get_val(to_jmp);
        self.registers.update_register(PC_REG, target);
    }

    /// JSR and JSRR: R7 = PC; then PC += offset11 (bit 11 set) or
    /// PC = BaseR.
    pub fn jsr(&mut self, full_instruction: u16)
        ensures
            final(self)@ == old(self)@.jsr(full_instruction),
    {
        let pc: u16 = self.registers.get_val(PC_REG);
        self.registers.update_register(7, pc);
        if ((full_instruction >> 11u16) & 1) == 1 {
            let new_pc: u16 = wadd(
                self.registers.get_val(PC_REG),
                sign_extend(full_instruction & 0x7ff, 11),
            );
            self.registers.update_register(PC_REG, new_pc);
        } else {
            let base_r: u8 = reg_field(full_instruction, 6);
            let target: u16 = self.registers.get_val(base_r);
            self.registers.update_register(PC_REG, target);
        }
    }

    /// LD: DR = mem[PC + offset9]; sets the condition register.
    pub fn ld(&mut self, full_instruction: u16)
        ensures
            final(self)@ == old(self)@.ld(full_instruction),
    {
        let mem_addr: u16 = self.pc_relative(full_instruction);
        let dr: u8 = reg_field(full_instruction, 9);
        let v: u16 = self.memory.read(mem_addr);
        self.set_result(dr, v);
    }

    /// LDI: DR = mem[mem[PC + offset9]]; sets the condition register.
    pub fn ldi(&mut self, full_instruction: u16)
        ensures
            final(self)@ == old(self)@.ldi(full_instruction),
    {
        let mem_addr_1: u16 = self.pc_relative(full_instruction);
        let mem_addr_2: u16 = self.memory.read(mem_addr_1);
        let dr: u8 = reg_field(full_instruction, 9);
        let v: u16 = self.memory.read(mem_addr_2);
        self.set_result(dr, v);
    }

    /// LDR: DR = mem[BaseR + offset6]; sets the condition register.
    pub fn ldr(&mut self, full_instruction: u16)
        ensures
            final(self)@ == old(self)@.ldr(full_instruction),
    {
        let mem_addr: u16 = self.base_offset(full_instruction);
        let dr: u8 = reg_field(full_instruction, 9);
        let v: u16 = self.memory.read(mem_addr);
        self.set_result(dr, v);
    }

    /// LEA: DR = PC + offset9; sets the condition register.
    pub fn lea(&mut self, full_instruction: u16)
        ensures
            final(self)@ == old(self)@.lea(full_instruction),
    {
        let new_addr: u16 = self.pc_relative(full_instruction);
        let dr: u8 = reg_field(full_instruction, 9);
        self.set_result(dr, new_addr);
    }

    /// NOT: DR = !SR; sets the condition register.
    pub fn not(&mut self, full_instruction: u16)
        ensures
            final(self)@ == old(self)@.not(full_instruction),
    {
        let dr: u8 = reg_field(full_instruction, 9);
        let sr: u8 = reg_field(full_instruction, 6);
        let v: u16 = self.registers.get_val(sr);
        self.set_result(dr, !v);
    }

    /// RES: the reserved opcode faults and changes nothing.
    pub fn res(&mut self, _full_instruction: u16) -> (f: Fault)
        ensures
            f == Fault::Reserved,
            final(self)@ == old(self)@,
    {
        Fault::Reserved
    }

    /// RTI: privileged outside supervisor mode; faults and changes nothing.
    pub fn rti(&mut self, _full_instruction: u16) -> (f: Fault)
        ensures
            f == Fault::Privileged,
            final(self)@ == old(self)@,
    {
        Fault::Privileged
    }

    /// ST: mem[PC + offset9] = SR.
    pub fn st(&mut self, full_instruction: u16)
        ensures
            final(self)@ == old(self)@.st(full_instruction),
    {
        let sr: u8 = reg_field(full_instruction, 9);
        let new_addr: u16 = self.pc_relative(full_instruction);
        let v: u16 = self.registers.get_val(sr);
        self.memory.write(new_addr, v);
    }

    /// STI: mem[mem[PC + offset9]] = SR.
    pub fn sti(&mut self, full_instruction: u16)
        ensures
            final(self)@ == old(self)@.sti(full_instruction),
    {
        let sr: u8 = reg_field(full_instruction, 9);
        let mem_addr_1: u16 = self.pc_relative(full_instruction);
        let mem_addr_2: u16 = self.memory.read(mem_addr_1);
        let v: u16 = self.registers.get_val(sr);
        self.memory.write(mem_addr_2, v);
    }

    /// STR: mem[BaseR + offset6] = SR.
    pub fn str(&mut self, full_instruction: u16)
        ensures
            final(self)@ == old(self)@.str(full_instruction),
    {
        let sr: u8 = reg_field(full_instruction, 9);
        let mem_addr: u16 = self.base_offset(full_instruction);
        let v: u16 = self.registers.get_val(sr);
        self.memory.write(mem_addr, v);
    }

    /// The characters of the zero-terminated string stored one per word
    /// from `start` on, over at most the whole address space.
    fn string_at(&self, start: u16) -> (r: Vec<u8>)
        ensures
            r@ == string_bytes(self@.mem, start, 65536),
    {
        let ghost mem = self@.mem;
        let mut out: Vec<u8> = Vec::new();
        let mut addr: u16 = start;
        let mut left: u32 = 65536;
        let mut done: bool = false;
        while left > 0 && !done
            invariant
                mem == self@.mem,
                left <= 65536,
                done ==> string_bytes(mem, addr, left as nat) == Seq::<u8>::empty(),
                out@ + string_bytes(mem, addr, left as nat) == string_bytes(mem, start, 65536),
            decreases left, if done { 0int } else { 1int },
        {
            let w: u16 = self.memory.read(addr);
            if w == 0 {
                done = true;
            } else {
                let ghost rest = string_bytes(mem, wrap_add(addr, 1), (left - 1) as nat);
                assert(out@.push(w as u8) + rest =~= out@ + (seq![w as u8] + rest));
                out.push(w as u8);
                addr = wadd(addr, 1);
                left = left - 1;
            }
        }
        assert(out@ + Seq::<u8>::empty() =~= out@);
        out
    }

    /// The characters of the zero-terminated string stored two per word
    /// (low byte first, a zero high byte skipped) from `start` on, over at
    /// most the whole address space.
    fn packed_string_at(&self, start: u16) -> (r: Vec<u8>)
        ensures
            r@ == packed_bytes(self@.mem, start, 65536),
    {
        let ghost mem = self@.mem;
        let mut out: Vec<u8> = Vec::new();
        let mut addr: u16 = start;
        let mut left: u32 = 65536;
        let mut done: bool = false;
        while left > 0 && !done
            invariant
                mem == self@.mem,
                left <= 65536,
                done ==> packed_bytes(mem, addr, left as nat) == Seq::<u8>::empty(),
                out@ + packed_bytes(mem, addr, left as nat) == packed_bytes(mem, start, 65536),
            decreases left, if done { 0int } else { 1int },
        {
            let w: u16 = self.memory.read(addr);
            if w == 0 {
                done = true;
            } else {
                let ghost before = out@;
                let ghost rest = packed_bytes(mem, wrap_add(addr, 1), (left - 1) as nat);
                let hi: u8 = (w >> 8u16) as u8;
                out.push(w as u8);
                if hi != 0 {
                    out.push(hi);
                }
                let ghost mid = if hi != 0 {
                    seq![hi]
                } else {
                    Seq::<u8>::empty()
                };
                assert(out@ =~= before + seq![w as u8] + mid);
                assert(out@ + rest =~= before + (seq![w as u8] + mid + rest));
                addr = wadd(addr, 1);
                left = left - 1;
            }
        }
        assert(out@ + Seq::<u8>::empty() =~= out@);
        out
    }

    /// TRAP: R7 = PC, then the routine of the trap vector (bits 7 to 0):
    /// GETC and IN ask the host for a character, OUT, PUTS and PUTSP hand
    /// it bytes to write, HALT halts the machine; any other vector faults.
    pub fn trap(&mut self, full_instruction: u16) -> (e: Event)
        ensures
            (final(self)@, e@) == old(self)@.trap(full_instruction),
    {
        let pc: u16 = self.registers.get_val(PC_REG);
        self.registers.update_register(7, pc);
        let vector: u16 = full_instruction & 0xff;
        if vector == TRAP_GETC {
            Event::ReadChar { echo: false }
        } else if vector == TRAP_OUT {
            let c: u16 = self.registers.get_val(0);
            let out: Vec<u8> = vec![c as u8];
            assert(out@ =~= seq![c as u8]);
            Event::Output(out)
        } else if vector == TRAP_PUTS {
            let start: u16 = self.registers.get_val(0);
            Event::Output(self.string_at(start))
        } else if vector == TRAP_IN {
            Event::ReadChar { echo: true }
        } else if vector == TRAP_PUTSP {
            let start: u16 = self.registers.get_val(0);
            Event::Output(self.packed_string_at(start))
        } else if vector == TRAP_HALT {
            self.halted = true;
            Event::Halt
        } else {
            Event::Fault(Fault::TrapNotFound(vector))
        }
    }

    /// Executes one instruction word, the PC already advanced past it.
    pub fn perform_instruction(&mut self, instruction: u16) -> (e: Event)
        ensures
            (final(self)@, e@) == old(self)@.execute(instruction),
    {
        match OpCode::from_u16(&instruction) {
            Some(OpCode::OpAdd) => {
                self.add(instruction);
                Event::Continue
            },
            Some(OpCode::OpAnd) => {
                self.and(instruction);
                Event::Continue
            },
            Some(OpCode::OpBr) => {
                self.br(instruction);
                Event::Continue
            },
            Some(OpCode::OpJmp) => {
                self.jmp(instruction);
                Event::Continue
            },
            Some(OpCode::OpJsr) => {
                self.jsr(instruction);
                Event::Continue
            },
            Some(OpCode::OpLd) => {
                self.ld(instruction);
                Event::Continue
            },
            Some(OpCode::OpLdi) => {
                self.ldi(instruction);
                Event::Continue
            },
            Some(OpCode::OpLdr) => {
                self.ldr(instruction);
                Event::Continue
            },
            Some(OpCode::OpLea) => {
                self.lea(instruction);
                Event::Continue
            },
            Some(OpCode::OpNot) => {
                self.not(instruction);
                Event::Continue
            },
            Some(OpCode::OpRes) => Event::Fault(self.res(instruction)),
            Some(OpCode::OpRti) => Event::Fault(self.rti(instruction)),
            Some(OpCode::OpSt) => {
                self.st(instruction);
                Event::Continue
            },
            Some(OpCode::OpSti) => {
                self.sti(instruction);
                Event::Continue
            },
            Some(OpCode::OpStr) => {
                self.str(instruction);
                Event::Continue
            },
            Some(OpCode::OpTrap) => self.trap(instruction),
            None => Event::Continue,
        }
    }

    /// One turn of the fetch loop: a halted machine stays halted, a PC at
    /// the top of the address space halts it; otherwise the word at the PC
    /// is fetched, the PC advanced past it and the word executed.
    pub fn step(&mut self) -> (e: Event)
        ensures
            (final(self)@, e@) == old(self)@.step(),
    {
        if self.halted {
            return Event::Halt;
        }
        let pc: u16 = self.registers.get_val(PC_REG);
        if pc == 0xffff {
            self.halted = true;
            return Event::Halt;
        }
        let instruction: u16 = self.memory.read(pc);
        self.registers.update_register(PC_REG, pc + 1);
        self.perform_instruction(instruction)
    }

    /// Runs the fetch loop for at most `max_steps` steps. It returns the
    /// first event that is not `Continue` (output to write, a character to
    /// read, the halt, a fault), or `Continue` when the steps ran out.
    pub fn execute_program(&mut self, max_steps: u64) -> (e: Event)
        ensures
            (final(self)@, e@) == old(self)@.run(max_steps as nat),
    {
        let ghost goal = self@.run(max_steps as nat);
        let mut left: u64 = max_steps;
        while left > 0
            invariant
                self@.run(left as nat) == goal,
                goal == old(self)@.run(max_steps as nat),
            decreases left,
        {
            let ghost before = self@;
            let e: Event = self.step();
            assert(before.run(left as nat) == (match e@ {
                EventModel::Continue => self@.run((left - 1) as nat),
                _ => (self@, e@),
            }));
            match e {
                Event::Continue => {},
                _ => {
                    return e;
                },
            }
            left = left - 1;
        }
        Event::Continue
    }
}

} // verus!
