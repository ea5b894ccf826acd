use vstd::prelude::*;

verus! {

/// The sixteen operations selected by the top four bits of an instruction word.
#[derive(PartialEq, Eq, Structural, Clone, Copy, Debug)]
pub enum OpCode {
    /// Conditional branch (0).
    OpBr,
    /// Addition (1).
    OpAdd,
    /// Load, PC-relative (2).
    OpLd,
    /// Store, PC-relative (3).
    OpSt,
    /// Jump to subroutine (4).
    OpJsr,
    /// Bitwise and (5).
    OpAnd,
    /// Load, base plus offset (6).
    OpLdr,
    /// Store, base plus offset (7).
    OpStr,
    /// Return from interrupt, privileged (8).
    OpRti,
    /// Bitwise complement (9).
    OpNot,
    /// Load indirect (10).
    OpLdi,
    /// Store indirect (11).
    OpSti,
    /// Jump (12).
    OpJmp,
    /// Reserved (13).
    OpRes,
    /// Load effective address (14).
    OpLea,
    /// Trap (15).
    OpTrap,
}

impl OpCode {
    /// The operation encoded by the four-bit value `code`.
    pub open spec fn of_code(code: u16) -> OpCode {
        if code == 0 {
            OpCode::OpBr
        } else if code == 1 {
            OpCode::OpAdd
        } else if code == 2 {
            OpCode::OpLd
        } else if code == 3 {
            OpCode::OpSt
        } else if code == 4 {
            OpCode::OpJsr
        } else if code == 5 {
            OpCode::OpAnd
        } else if code == 6 {
            OpCode::OpLdr
        } else if code == 7 {
            OpCode::OpStr
        } else if code == 8 {
            OpCode::OpRti
        } else if code == 9 {
            OpCode::OpNot
        } else if code == 10 {
            OpCode::OpLdi
        } else if code == 11 {
            OpCode::OpSti
        } else if code == 12 {
            OpCode::OpJmp
        } else if code == 13 {
            OpCode::OpRes
        } else if code == 14 {
            OpCode::OpLea
        } else {
            OpCode::OpTrap
        }
    }

    /// The operation of an instruction word: its bits 15 to 12.
    pub open spec fn decode(instruction: u16) -> OpCode {
        Self::of_code(instruction >> 12)
    }

    /// Decodes the operation of an instruction word. Every four-bit value
    /// names an operation, so the result is always `Some`.
    pub fn from_u16(instruction: &u16) -> (r: Option<Self>)
        ensures
            r == Some(Self::decode(*instruction)),
    {
        let code: u16 = *instruction >> 12;
        assert(code < 16) by (bit_vector)
            requires
                code == *instruction >> 12,
        ;
        match code {
            0 => Some(Self::OpBr),
            1 => Some(Self::OpAdd),
            2 => Some(Self::OpLd),
            3 => Some(Self::OpSt),
            4 => Some(Self::OpJsr),
            5 => Some(Self::OpAnd),
            6 => Some(Self::OpLdr),
            7 => Some(Self::OpStr),
            8 => Some(Self::OpRti),
            9 => Some(Self::OpNot),
            10 => Some(Self::OpLdi),
            11 => Some(Self::OpSti),
            12 => Some(Self::OpJmp),
            13 => Some(Self::OpRes),
            14 => Some(Self::OpLea),
            15 => Some(Self::OpTrap),
            _ => None,
        }
    }
}

/// Whether bit `i` of `x` is set.
pub open spec fn bit(x: u16, i: u16) -> bool {
    (x >> i) & 1 == 1
}

/// The mask of the low `n` bits of a word.
pub open spec fn low_mask(n: u16) -> u16 {
    if n >= 16 {
        0xffffu16
    } else {
        ((1u16 << n) - 1) as u16
    }
}

/// The low `n` bits of `v` read as a two's-complement number and widened
/// to sixteen bits.
pub open spec fn sext(v: u16, n: u16) -> u16 {
    if bit(v, (n - 1) as u16) {
        v | !low_mask(n)
    } else {
        v & low_mask(n)
    }
}

/// Sign extension keeps bits below `n` and copies bit `n - 1` into every
/// bit from `n` up to 15.
pub proof fn lemma_sign_extend_bits(v: u16, n: u16)
    requires
        1 <= n <= 16,
    ensures
        forall|i: u16| i < n ==> bit(#[trigger] sext(v, n), i) == bit(v, i),
        forall|i: u16| n <= i < 16 ==> bit(#[trigger] sext(v, n), i) == bit(v, (n - 1) as u16),
{
    assert(forall|i: u16| i < n ==> bit(#[trigger] sext(v, n), i) == bit(v, i)) by (bit_vector)
        requires
            1 <= n <= 16,
    ;
    assert(forall|i: u16| n <= i < 16 ==> bit(#[trigger] sext(v, n), i) == bit(
        v,
        (n - 1) as u16,
    )) by (bit_vector)
        requires
            1 <= n <= 16,
    ;
}

/// Treats the low `bit_count` bits of `num` as a two's-complement number
/// and extends its sign through bit 15.
pub fn sign_extend(num: u16, bit_count: u8) -> (r: u16)
    requires
        1 <= bit_count <= 16,
    ensures
        r == sext(num, bit_count as u16),
        forall|i: u16| i < bit_count ==> bit(r, i) == bit(num, i),
        forall|i: u16| bit_count <= i < 16 ==> bit(r, i) == bit(num, (bit_count - 1) as u16),
{
    let n: u16 = bit_count as u16;
    let mask: u16 = if n >= 16 {
        0xffff
    } else {
        assert(1u16 << n >= 1) by (bit_vector)
            requires
                n < 16,
        ;
        (1u16 << n) - 1
    };
    let r: u16 = if ((num >> (n - 1)) & 1) == 1 {
        num | !mask
    } else {
        num & mask
    };
    proof {
        lemma_sign_extend_bits(num, n);
    }
    r
}

} // verus!
