use vstd::prelude::*;

verus! {

/// Number of register slots: eight general registers, the program counter
/// and the condition register.
pub const NUM_REGISTERS: u8 = 10;

/// Slot of the program counter.
pub const PC_REG: u8 = 8;

/// Address at which programs start.
pub const PC_START: u16 = 0x3000;

/// Slot of the condition register.
pub const COND_REG: u8 = 9;

/// The three condition codes, one of which is held in the condition register.
#[derive(PartialEq, Eq, Structural, Clone, Copy, Debug)]
pub enum ConditionFlag {
    POS,
    NEG,
    ZERO,
}

impl ConditionFlag {
    /// The bit pattern of a flag in the condition register: POS is bit 0,
    /// ZERO bit 1, NEG bit 2, matching BR's p, z and n bits (9, 10, 11).
    pub open spec fn spec_value(self) -> u16 {
        match self {
            ConditionFlag::POS => 1,
            ConditionFlag::ZERO => 2,
            ConditionFlag::NEG => 4,
        }
    }

    /// The bit pattern of this flag in the condition register
    /// (POS 1, ZERO 2, NEG 4), the bits that BR's p, z
    /// and n bits test.
    pub fn value(&self) -> (r: u16)
        ensures
            r == self.spec_value(),
    {
        match self {
            ConditionFlag::POS => 1,
            ConditionFlag::ZERO => 2,
            ConditionFlag::NEG => 4,
        }
    }
}

/// The condition flag that classifies a word: ZERO for 0, NEG when the sign
/// bit is set, POS otherwise.
pub open spec fn flag_of(v: u16) -> ConditionFlag {
    if v == 0 {
        ConditionFlag::ZERO
    } else if v >> 15u16 != 0 {
        ConditionFlag::NEG
    } else {
        ConditionFlag::POS
    }
}

/// The register file: slots 0 to 7 are general registers, then the program
/// counter and the condition register.
pub struct Registers {
    regs: Vec<u16>,
}

impl View for Registers {
    type V = Seq<u16>;

    closed spec fn view(&self) -> Seq<u16> {
        self.regs@
    }
}

impl Registers {
    #[verifier::type_invariant]
    spec fn inv(self) -> bool {
        self.regs@.len() == NUM_REGISTERS as nat
    }

    /// General registers zeroed, program counter at the start address,
    /// condition register ZERO.
    pub fn new() -> (r: Self)
        ensures
            r@ == seq![0u16, 0, 0, 0, 0, 0, 0, 0, PC_START, ConditionFlag::ZERO.spec_value()],
    {
        let mut regs: Vec<u16> = Vec::new();
        let mut r: u8 = 0;
        while r < PC_REG
            invariant
                r <= PC_REG,
                regs@.len() == r as nat,
                forall|i: int| 0 <= i < r ==> regs@[i] == 0,
            decreases PC_REG - r,
        {
            regs.push(0);
            r = r + 1;
        }
        regs.push(PC_START);
        regs.push(ConditionFlag::ZERO.value());
        assert(regs@ =~= seq![0u16, 0, 0, 0, 0, 0, 0, 0, PC_START, ConditionFlag::ZERO.spec_value()]);
        Registers { regs }
    }

    /// Stores `value` in slot `register`.
    pub fn update_register(&mut self, register: u8, value: u16)
        requires
            register < NUM_REGISTERS,
        ensures
            final(self)@ == old(self)@.update(register as int, value),
            final(self)@.len() == NUM_REGISTERS as nat,
            final(self)@[register as int] == value,
    {
        proof {
            use_type_invariant(&*self);
        }
        self.regs[register as usize] = value;
    }

    /// The word in slot `register`.
    pub fn get_val(&self, register: u8) -> (r: u16)
        requires
            register < NUM_REGISTERS,
        ensures
            r == self@[register as int],
            self@.len() == NUM_REGISTERS as nat,
    {
        proof {
            use_type_invariant(self);
        }
        self.regs[register as usize]
    }

    /// Sets the condition register to the flag of the word in `register`.
    pub fn update_cond_register(&mut self, register: u8)
        requires
            register < NUM_REGISTERS,
        ensures
            final(self)@ == old(self)@.update(
                COND_REG as int,
                flag_of(old(self)@[register as int]).spec_value(),
            ),
    {
        let val: u16 = self.get_val(register);
        let flag: ConditionFlag = if val == 0 {
            ConditionFlag::ZERO
        } else if (val >> 15u16) != 0 {
            ConditionFlag::NEG
        } else {
            ConditionFlag::POS
        };
        self.update_register(COND_REG, flag.value());
    }
}

} // verus!
