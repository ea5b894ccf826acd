use vstd::prelude::*;

use super::instruction::{sext, OpCode};
use super::register::flag_of;

verus! {

/// The whole state of the machine, as the instruction semantics see it.
pub struct MachineState {
    /// The ten register slots: R0 to R7, the program counter, the
    /// condition register.
    pub regs: Seq<u16>,
    /// The 65536 words of memory.
    pub mem: Seq<u16>,
    /// Whether the machine has halted.
    pub halted: bool,
}

/// A fault that stops the machine.
#[derive(PartialEq, Eq, Structural, Clone, Copy, Debug)]
pub enum Fault {
    /// The reserved opcode was executed.
    Reserved,
    /// Return from interrupt was executed outside supervisor mode.
    Privileged,
    /// A trap vector that names no routine.
    TrapNotFound(u16),
}

/// What a step hands to its host, as a value of the model.
pub enum EventModel {
    /// Nothing for the host to do; the machine can go on.
    Continue,
    /// These bytes are to be written out.
    Output(Seq<u8>),
    /// One character is to be read into R0; `echo` asks for the prompt and
    /// echo of the IN routine.
    ReadChar { echo: bool },
    /// The machine has halted.
    Halt,
    /// The machine has faulted.
    Fault(Fault),
}

/// The sum of two words modulo 2^16.
pub open spec fn wrap_add(a: u16, b: u16) -> u16 {
    ((a as int + b as int) % 65536) as u16
}

/// Bits 11 to 9: destination or source register.
pub open spec fn reg_a(i: u16) -> u16 {
    (i >> 9u16) & 7
}

/// Bits 8 to 6: first source or base register.
pub open spec fn reg_b(i: u16) -> u16 {
    (i >> 6u16) & 7
}

/// Bits 2 to 0: second source register.
pub open spec fn reg_c(i: u16) -> u16 {
    i & 7
}

/// Bit 5: immediate mode of ADD and AND.
pub open spec fn imm_mode(i: u16) -> bool {
    (i >> 5u16) & 1 == 1
}

/// The sign-extended five-bit immediate.
pub open spec fn imm5(i: u16) -> u16 {
    sext(i & 0x1f, 5)
}

/// The sign-extended six-bit offset.
pub open spec fn offset6(i: u16) -> u16 {
    sext(i & 0x3f, 6)
}

/// The sign-extended nine-bit PC offset.
pub open spec fn pc_offset9(i: u16) -> u16 {
    sext(i & 0x1ff, 9)
}

/// The sign-extended eleven-bit PC offset.
pub open spec fn pc_offset11(i: u16) -> u16 {
    sext(i & 0x7ff, 11)
}

/// The eight-bit trap vector.
pub open spec fn trap_vector(i: u16) -> u16 {
    i & 0xff
}

/// Trap vectors of the system routines.
pub const TRAP_GETC: u16 = 0x20;
pub const TRAP_OUT: u16 = 0x21;
pub const TRAP_PUTS: u16 = 0x22;
pub const TRAP_IN: u16 = 0x23;
pub const TRAP_PUTSP: u16 = 0x24;
pub const TRAP_HALT: u16 = 0x25;

/// The characters of a zero-terminated string stored one per word from
/// `addr` on, reading at most `n` words.
pub open spec fn string_bytes(mem: Seq<u16>, addr: u16, n: nat) -> Seq<u8>
    decreases n,
{
    if n == 0 || mem[addr as int] == 0 {
        Seq::empty()
    } else {
        seq![mem[addr as int] as u8] + string_bytes(mem, wrap_add(addr, 1), (n - 1) as nat)
    }
}

/// The characters of a zero-terminated string stored two per word (low
/// byte first, a zero high byte skipped) from `addr` on, reading at most
/// `n` words.
pub open spec fn packed_bytes(mem: Seq<u16>, addr: u16, n: nat) -> Seq<u8>
    decreases n,
{
    if n == 0 || mem[addr as int] == 0 {
        Seq::empty()
    } else {
        let w = mem[addr as int];
        let hi = (w >> 8u16) as u8;
        seq![w as u8] + (if hi != 0 {
            seq![hi]
        } else {
            Seq::empty()
        }) + packed_bytes(mem, wrap_add(addr, 1), (n - 1) as nat)
    }
}

impl MachineState {
    /// Ten registers and 65536 words of memory.
    pub open spec fn wf(self) -> bool {
        self.regs.len() == 10 && self.mem.len() == 65536
    }

    pub open spec fn reg(self, r: u16) -> u16 {
        self.regs[r as int]
    }

    pub open spec fn pc(self) -> u16 {
        self.regs[8]
    }

    pub open spec fn cond(self) -> u16 {
        self.regs[9]
    }

    pub open spec fn set_reg(self, r: u16, v: u16) -> MachineState {
        MachineState { regs: self.regs.update(r as int, v), ..self }
    }

    /// Writes `v` to register `r` and sets the condition register from it.
    pub open spec fn set_result(self, r: u16, v: u16) -> MachineState {
        self.set_reg(r, v).set_reg(9, flag_of(v).spec_value())
    }

    pub open spec fn load(self, a: u16) -> u16 {
        self.mem[a as int]
    }

    pub open spec fn store(self, a: u16, v: u16) -> MachineState {
        MachineState { mem: self.mem.update(a as int, v), ..self }
    }

    /// Address of LD, ST and LEA: the PC plus the nine-bit offset.
    pub open spec fn pc_relative(self, i: u16) -> u16 {
        wrap_add(self.pc(), pc_offset9(i))
    }

    /// Address of LDR and STR: the base register plus the six-bit offset.
    pub open spec fn base_offset(self, i: u16) -> u16 {
        wrap_add(self.reg(reg_b(i)), offset6(i))
    }

    pub open spec fn add(self, i: u16) -> MachineState {
        let b = if imm_mode(i) {
            imm5(i)
        } else {
            self.reg(reg_c(i))
        };
        self.set_result(reg_a(i), wrap_add(self.reg(reg_b(i)), b))
    }

    pub open spec fn and(self, i: u16) -> MachineState {
        let b = if imm_mode(i) {
            imm5(i)
        } else {
            self.reg(reg_c(i))
        };
        self.set_result(reg_a(i), self.reg(reg_b(i)) & b)
    }

    pub open spec fn not(self, i: u16) -> MachineState {
        self.set_result(reg_a(i), !self.reg(reg_b(i)))
    }

    /// Branch when one of the n, z, p bits (11 to 9) is set together with
    /// its flag (NEG 4, ZERO 2, POS 1) in the condition register.
    pub open spec fn br(self, i: u16) -> MachineState {
        if (reg_a(i) & self.cond()) != 0 {
            self.set_reg(8, self.pc_relative(i))
        } else {
            self
        }
    }

    pub open spec fn jmp(self, i: u16) -> MachineState {
        self.set_reg(8, self.reg(reg_b(i)))
    }

    /// R7 takes the PC first; then the PC moves by the eleven-bit offset
    /// (bit 11 set) or to the base register.
    pub open spec fn jsr(self, i: u16) -> MachineState {
        let s = self.set_reg(7, self.pc());
        if (i >> 11u16) & 1 == 1 {
            s.set_reg(8, wrap_add(s.pc(), pc_offset11(i)))
        } else {
            s.set_reg(8, s.reg(reg_b(i)))
        }
    }

    pub open spec fn ld(self, i: u16) -> MachineState {
        self.set_result(reg_a(i), self.load(self.pc_relative(i)))
    }

    pub open spec fn ldi(self, i: u16) -> MachineState {
        self.set_result(reg_a(i), self.load(self.load(self.pc_relative(i))))
    }

    pub open spec fn ldr(self, i: u16) -> MachineState {
        self.set_result(reg_a(i), self.load(self.base_offset(i)))
    }

    pub open spec fn lea(self, i: u16) -> MachineState {
        self.set_result(reg_a(i), self.pc_relative(i))
    }

    pub open spec fn st(self, i: u16) -> MachineState {
        self.store(self.pc_relative(i), self.reg(reg_a(i)))
    }

    pub open spec fn sti(self, i: u16) -> MachineState {
        self.store(self.load(self.pc_relative(i)), self.reg(reg_a(i)))
    }

    pub open spec fn str(self, i: u16) -> MachineState {
        self.store(self.base_offset(i), self.reg(reg_a(i)))
    }

    /// R7 takes the PC; then the routine named by the trap vector runs.
    pub open spec fn trap(self, i: u16) -> (MachineState, EventModel) {
        let s = self.set_reg(7, self.pc());
        let v = trap_vector(i);
        if v == TRAP_GETC {
            (s, EventModel::ReadChar { echo: false })
        } else if v == TRAP_OUT {
            (s, EventModel::Output(seq![s.reg(0) as u8]))
        } else if v == TRAP_PUTS {
            (s, EventModel::Output(string_bytes(s.mem, s.reg(0), 65536)))
        } else if v == TRAP_IN {
            (s, EventModel::ReadChar { echo: true })
        } else if v == TRAP_PUTSP {
            (s, EventModel::Output(packed_bytes(s.mem, s.reg(0), 65536)))
        } else if v == TRAP_HALT {
            (MachineState { halted: true, ..s }, EventModel::Halt)
        } else {
            (s, EventModel::Fault(Fault::TrapNotFound(v)))
        }
    }

    /// Executes one instruction word, the PC already advanced past it.
    pub open spec fn execute(self, i: u16) -> (MachineState, EventModel) {
        match OpCode::decode(i) {
            OpCode::OpBr => (self.br(i), EventModel::Continue),
            OpCode::OpAdd => (self.add(i), EventModel::Continue),
            OpCode::OpLd => (self.ld(i), EventModel::Continue),
            OpCode::OpSt => (self.st(i), EventModel::Continue),
            OpCode::OpJsr => (self.jsr(i), EventModel::Continue),
            OpCode::OpAnd => (self.and(i), EventModel::Continue),
            OpCode::OpLdr => (self.ldr(i), EventModel::Continue),
            OpCode::OpStr => (self.str(i), EventModel::Continue),
            OpCode::OpRti => (self, EventModel::Fault(Fault::Privileged)),
            OpCode::OpNot => (self.not(i), EventModel::Continue),
            OpCode::OpLdi => (self.ldi(i), EventModel::Continue),
            OpCode::OpSti => (self.sti(i), EventModel::Continue),
            OpCode::OpJmp => (self.jmp(i), EventModel::Continue),
            OpCode::OpRes => (self, EventModel::Fault(Fault::Reserved)),
            OpCode::OpLea => (self.lea(i), EventModel::Continue),
            OpCode::OpTrap => self.trap(i),
        }
    }

    /// One turn of the fetch loop: a halted machine stays halted; a PC at
    /// the top of the address space halts it; otherwise the word at the PC
    /// is fetched, the PC advanced, and the word executed.
    pub open spec fn step(self) -> (MachineState, EventModel) {
        if self.halted {
            (self, EventModel::Halt)
        } else if self.pc() == 0xffff {
            (MachineState { halted: true, ..self }, EventModel::Halt)
        } else {
            self.set_reg(8, (self.pc() + 1) as u16).execute(self.load(self.pc()))
        }
    }

    /// At most `n` steps, stopping at the first step that hands the host
    /// something other than `Continue`.
    pub open spec fn run(self, n: nat) -> (MachineState, EventModel)
        decreases n,
    {
        if n == 0 {
            (self, EventModel::Continue)
        } else {
            let (s, e) = self.step();
            match e {
                EventModel::Continue => s.run((n - 1) as nat),
                _ => (s, e),
            }
        }
    }
}

} // verus!
