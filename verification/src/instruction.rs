//! Instruction words, their bit fields and the closed table of instructions.

use vstd::prelude::*;

verus! {

/// One entry of the instruction table, with its operands.
///
/// `x` and `y` are register indices, `kk` is an 8-bit immediate and `addr` a
/// 12-bit memory address.
#[derive(Clone, Copy, Debug, PartialEq, Eq, Structural)]
pub enum Instruction {
    /// `0x0000`: stop the run loop.
    Halt,
    /// `0x00EE`: return from a subroutine.
    Ret,
    /// `0x1nnn`: continue at `addr`.
    Jmp { addr: u16 },
    /// `0x2nnn`: call the subroutine at `addr`.
    Call { addr: u16 },
    /// `0x3xkk`: skip the next instruction if register `x` equals `kk`.
    SkipEqImm { x: u8, kk: u8 },
    /// `0x4xkk`: skip the next instruction if register `x` differs from `kk`.
    SkipNeImm { x: u8, kk: u8 },
    /// `0x5xy0`: skip the next instruction if registers `x` and `y` are equal.
    SkipEqReg { x: u8, y: u8 },
    /// `0x6xkk`: load `kk` into register `x`.
    LoadImm { x: u8, kk: u8 },
    /// `0x7xkk`: add `kk` to register `x`, wrapping, without touching the flag.
    AddImm { x: u8, kk: u8 },
    /// `0x8xy0`: copy register `y` into register `x`.
    LoadReg { x: u8, y: u8 },
    /// `0x8xy1`: bitwise or of registers `x` and `y` into `x`.
    Or { x: u8, y: u8 },
    /// `0x8xy2`: bitwise and of registers `x` and `y` into `x`.
    And { x: u8, y: u8 },
    /// `0x8xy3`: bitwise exclusive or of registers `x` and `y` into `x`.
    Xor { x: u8, y: u8 },
    /// `0x8xy4`: add register `y` to register `x`, wrapping, carry into the flag.
    AddReg { x: u8, y: u8 },
}

/// The top four bits of an instruction word: the instruction family.
pub open spec fn op_class(word: u16) -> int {
    word as int / 0x1000
}

/// Bits 8 to 11 of an instruction word: the first register index.
pub open spec fn operand_x(word: u16) -> int {
    (word as int / 0x100) % 0x10
}

/// Bits 4 to 7 of an instruction word: the second register index.
pub open spec fn operand_y(word: u16) -> int {
    (word as int / 0x10) % 0x10
}

/// The bottom four bits of an instruction word: the member of family `0x8`.
pub open spec fn op_minor(word: u16) -> int {
    word as int % 0x10
}

/// The bottom twelve bits of an instruction word: an address operand.
pub open spec fn operand_addr(word: u16) -> int {
    word as int % 0x1000
}

/// The bottom eight bits of an instruction word: an immediate operand.
pub open spec fn operand_kk(word: u16) -> int {
    word as int % 0x100
}

/// The bit fields of one instruction word.
#[derive(Clone, Copy, Debug, PartialEq, Eq, Structural)]
pub struct Fields {
    pub op_class: u8,
    pub x: u8,
    pub y: u8,
    pub op_minor: u8,
    pub addr: u16,
    pub kk: u8,
}

impl Fields {
    /// Whether these are the fields of `word`.
    pub open spec fn of(self, word: u16) -> bool {
        &&& self.op_class as int == op_class(word)
        &&& self.x as int == operand_x(word)
        &&& self.y as int == operand_y(word)
        &&& self.op_minor as int == op_minor(word)
        &&& self.addr as int == operand_addr(word)
        &&& self.kk as int == operand_kk(word)
    }

    /// Splits an instruction word into its bit fields by masking and shifting.
    pub fn split(word: u16) -> (fields: Fields)
        ensures
            fields.of(word),
            fields.op_class < 16,
            fields.x < 16,
            fields.y < 16,
            fields.op_minor < 16,
            fields.addr < 0x1000,
    {
        assert((word & 0xF000) >> 12 == word / 0x1000) by (bit_vector);
        assert(((word & 0x0F00) >> 8) == (word / 0x100) % 0x10) by (bit_vector);
        assert(((word & 0x00F0) >> 4) == (word / 0x10) % 0x10) by (bit_vector);
        assert(word & 0x000F == word % 0x10) by (bit_vector);
        assert(word & 0x0FFF == word % 0x1000) by (bit_vector);
        assert(word & 0x00FF == word % 0x100) by (bit_vector);
        Fields {
            op_class: ((word & 0xF000) >> 12) as u8,
            x: ((word & 0x0F00) >> 8) as u8,
            y: ((word & 0x00F0) >> 4) as u8,
            op_minor: (word & 0x000F) as u8,
            addr: word & 0x0FFF,
            kk: (word & 0x00FF) as u8,
        }
    }
}

impl Instruction {
    /// Whether every register index is below 16 and every address below 4096,
    /// as holds of each instruction that an instruction word encodes.
    pub open spec fn well_formed(self) -> bool {
        match self {
            Instruction::Halt | Instruction::Ret => true,
            Instruction::Jmp { addr } | Instruction::Call { addr } => addr < 0x1000,
            Instruction::SkipEqImm { x, kk }
            | Instruction::SkipNeImm { x, kk }
            | Instruction::LoadImm { x, kk }
            | Instruction::AddImm { x, kk } => x < 16,
            Instruction::SkipEqReg { x, y }
            | Instruction::LoadReg { x, y }
            | Instruction::Or { x, y }
            | Instruction::And { x, y }
            | Instruction::Xor { x, y }
            | Instruction::AddReg { x, y } => x < 16 && y < 16,
        }
    }
}

/// The instruction that a word encodes, or `None` where the word matches no
/// entry of the instruction table.
///
/// The words `0x0000` and `0x00EE` are matched whole; families `0x1` to `0x4`,
/// `0x6` and `0x7` by their class alone; `0x5` and `0x8` by class and minor.
pub open spec fn spec_decode(word: u16) -> Option<Instruction> {
    let x = operand_x(word) as u8;
    let y = operand_y(word) as u8;
    let kk = operand_kk(word) as u8;
    let addr = operand_addr(word) as u16;
    let class = op_class(word);
    let minor = op_minor(word);
    if word == 0x0000 {
        Some(Instruction::Halt)
    } else if word == 0x00EE {
        Some(Instruction::Ret)
    } else if class == 0x1 {
        Some(Instruction::Jmp { addr })
    } else if class == 0x2 {
        Some(Instruction::Call { addr })
    } else if class == 0x3 {
        Some(Instruction::SkipEqImm { x, kk })
    } else if class == 0x4 {
        Some(Instruction::SkipNeImm { x, kk })
    } else if class == 0x5 && minor == 0 {
        Some(Instruction::SkipEqReg { x, y })
    } else if class == 0x6 {
        Some(Instruction::LoadImm { x, kk })
    } else if class == 0x7 {
        Some(Instruction::AddImm { x, kk })
    } else if class == 0x8 && minor == 0 {
        Some(Instruction::LoadReg { x, y })
    } else if class == 0x8 && minor == 1 {
        Some(Instruction::Or { x, y })
    } else if class == 0x8 && minor == 2 {
        Some(Instruction::And { x, y })
    } else if class == 0x8 && minor == 3 {
        Some(Instruction::Xor { x, y })
    } else if class == 0x8 && minor == 4 {
        Some(Instruction::AddReg { x, y })
    } else {
        None
    }
}

/// Decodes an instruction word. Decoding reads nothing but the word and
/// changes nothing; a word outside the instruction table gives `None`.
pub fn decode(word: u16) -> (instruction: Option<Instruction>)
    ensures
        instruction == spec_decode(word),
        instruction matches Some(i) ==> i.well_formed(),
{
    let f = Fields::split(word);
    let x = f.x;
    let y = f.y;
    let kk = f.kk;
    let addr = f.addr;
    if word == 0x0000 {
        return Some(Instruction::Halt);
    }
    if word == 0x00EE {
        return Some(Instruction::Ret);
    }
    match (f.op_class, f.op_minor) {
        (0x1, _) => Some(Instruction::Jmp { addr }),
        (0x2, _) => Some(Instruction::Call { addr }),
        (0x3, _) => Some(Instruction::SkipEqImm { x, kk }),
        (0x4, _) => Some(Instruction::SkipNeImm { x, kk }),
        (0x5, 0) => Some(Instruction::SkipEqReg { x, y }),
        (0x6, _) => Some(Instruction::LoadImm { x, kk }),
        (0x7, _) => Some(Instruction::AddImm { x, kk }),
        (0x8, 0) => Some(Instruction::LoadReg { x, y }),
        (0x8, 1) => Some(Instruction::Or { x, y }),
        (0x8, 2) => Some(Instruction::And { x, y }),
        (0x8, 3) => Some(Instruction::Xor { x, y }),
        (0x8, 4) => Some(Instruction::AddReg { x, y }),
        _ => None,
    }
}

/// Every instruction that a word encodes is well formed.
pub proof fn lemma_decoded_well_formed(word: u16)
    ensures
        spec_decode(word) matches Some(i) ==> i.well_formed(),
{
}

} // verus!
