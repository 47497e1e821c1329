use vstd::prelude::*;

verus! {

/// A decoded instruction: one variant for each behaviour of the machine.
///
/// `x` and `y` name registers, `kk` is an immediate byte, `addr` a twelve-bit
/// address and `n` a four-bit count.
#[derive(Clone, Copy, Debug, PartialEq, Eq, Structural)]
pub enum Instruction {
    /// `0000`: do nothing.
    Nop,
    /// `00E0`: turn every pixel off.
    ClearScreen,
    /// `00EE`: return from a subroutine.
    Return,
    /// `1NNN`: jump to `addr`.
    Jump { addr: u16 },
    /// `2NNN`: call the subroutine at `addr`.
    Call { addr: u16 },
    /// `3XKK`: skip the next instruction if `Vx == kk`.
    SkipEqImm { x: u8, kk: u8 },
    /// `4XKK`: skip the next instruction if `Vx != kk`.
    SkipNeImm { x: u8, kk: u8 },
    /// `5XY0`: skip the next instruction if `Vx == Vy`.
    SkipEqReg { x: u8, y: u8 },
    /// `6XKK`: `Vx = kk`.
    LoadImm { x: u8, kk: u8 },
    /// `7XKK`: `Vx = Vx + kk` modulo 256; no flag is written.
    AddImm { x: u8, kk: u8 },
    /// `8XY0`: `Vx = Vy`.
    Move { x: u8, y: u8 },
    /// `8XY1`: `Vx = Vx | Vy`.
    Or { x: u8, y: u8 },
    /// `8XY2`: `Vx = Vx & Vy`.
    And { x: u8, y: u8 },
    /// `8XY3`: `Vx = Vx ^ Vy`.
    Xor { x: u8, y: u8 },
    /// `8XY4`: `Vx = Vx + Vy` modulo 256; `VF` is the carry.
    AddCarry { x: u8, y: u8 },
    /// `8XY5`: `Vx = Vx - Vy` modulo 256; `VF` is 1 unless a borrow occurred.
    Sub { x: u8, y: u8 },
    /// `8XY6`: shift right by one bit; `VF` is the bit shifted out.
    ShiftRight { x: u8, y: u8 },
    /// `8XY7`: `Vx = Vy - Vx` modulo 256; `VF` is 1 unless a borrow occurred.
    SubReverse { x: u8, y: u8 },
    /// `8XYE`: shift left by one bit; `VF` is the bit shifted out.
    ShiftLeft { x: u8, y: u8 },
    /// `9XY0`: skip the next instruction if `Vx != Vy`.
    SkipNeReg { x: u8, y: u8 },
    /// `ANNN`: `I = addr`.
    LoadIndex { addr: u16 },
    /// `BNNN`: jump to `addr + V0`.
    JumpOffset { addr: u16 },
    /// `CXKK`: `Vx = random byte & kk`.
    Random { x: u8, kk: u8 },
    /// `DXYN`: draw the `n`-row sprite at `I` at `(Vx, Vy)`; `VF` is the collision flag.
    Draw { x: u8, y: u8, n: u8 },
    /// `EX9E`: skip the next instruction if the key named by `Vx` is pressed.
    SkipKeyPressed { x: u8 },
    /// `EXA1`: skip the next instruction if the key named by `Vx` is not pressed.
    SkipKeyNotPressed { x: u8 },
    /// `FX07`: `Vx = delay timer`.
    ReadDelay { x: u8 },
    /// `FX0A`: wait for a key and store its index in `Vx`.
    WaitKey { x: u8 },
    /// `FX15`: `delay timer = Vx`.
    SetDelay { x: u8 },
    /// `FX18`: `sound timer = Vx`.
    SetSound { x: u8 },
    /// `FX1E`: `I = I + Vx` modulo 65536.
    AddIndex { x: u8 },
    /// `FX29`: `I =` address of the glyph for the low nibble of `Vx`.
    FontAddr { x: u8 },
    /// `FX33`: store the three decimal digits of `Vx` at `I`, `I + 1`, `I + 2`.
    Bcd { x: u8 },
    /// `FX55`: store `V0..=Vx` at `I..=I + x`.
    StoreRegs { x: u8 },
    /// `FX65`: load `V0..=Vx` from `I..=I + x`.
    LoadRegs { x: u8 },
}

impl Instruction {
    /// The register operands, in the order `x`, `y`; 0 where the
    /// instruction has no such operand.
    pub open spec fn operands(self) -> (u8, u8) {
        match self {
            Instruction::Nop | Instruction::ClearScreen | Instruction::Return => (0, 0),
            Instruction::Jump { .. } | Instruction::Call { .. } => (0, 0),
            Instruction::LoadIndex { .. } | Instruction::JumpOffset { .. } => (0, 0),
            Instruction::SkipEqImm { x, .. } | Instruction::SkipNeImm { x, .. } => (x, 0),
            Instruction::LoadImm { x, .. } | Instruction::AddImm { x, .. } => (x, 0),
            Instruction::Random { x, .. } => (x, 0),
            Instruction::SkipEqReg { x, y } | Instruction::SkipNeReg { x, y } => (x, y),
            Instruction::Move { x, y } | Instruction::Or { x, y } => (x, y),
            Instruction::And { x, y } | Instruction::Xor { x, y } => (x, y),
            Instruction::AddCarry { x, y } | Instruction::Sub { x, y } => (x, y),
            Instruction::SubReverse { x, y } => (x, y),
            Instruction::ShiftRight { x, y } | Instruction::ShiftLeft { x, y } => (x, y),
            Instruction::Draw { x, y, .. } => (x, y),
            Instruction::SkipKeyPressed { x } | Instruction::SkipKeyNotPressed { x } => (x, 0),
            Instruction::ReadDelay { x } | Instruction::WaitKey { x } => (x, 0),
            Instruction::SetDelay { x } | Instruction::SetSound { x } => (x, 0),
            Instruction::AddIndex { x } | Instruction::FontAddr { x } => (x, 0),
            Instruction::Bcd { x } | Instruction::StoreRegs { x } => (x, 0),
            Instruction::LoadRegs { x } => (x, 0),
        }
    }

    /// Every operand fits the opcode field it is read from: registers and
    /// the row count in four bits, addresses in twelve.
    pub open spec fn wf(self) -> bool {
        &&& self.operands().0 < 16
        &&& self.operands().1 < 16
        &&& match self {
            Instruction::Jump { addr } | Instruction::Call { addr } => addr < 0x1000,
            Instruction::LoadIndex { addr } | Instruction::JumpOffset { addr } => addr < 0x1000,
            Instruction::Draw { n, .. } => n < 16,
            _ => true,
        }
    }
}

/// The instruction that the opcode `op` encodes, read off its four
/// hexadecimal digits; `None` where the digits match no instruction.
pub open spec fn decode_spec(op: u16) -> Option<Instruction> {
    let family = op / 0x1000;
    let x = ((op / 0x100) % 0x10) as u8;
    let y = ((op / 0x10) % 0x10) as u8;
    let n = (op % 0x10) as u8;
    let kk = (op % 0x100) as u8;
    let addr = op % 0x1000;
    if family == 0x0 {
        if op == 0x0000 {
            Some(Instruction::Nop)
        } else if op == 0x00E0 {
            Some(Instruction::ClearScreen)
        } else if op == 0x00EE {
            Some(Instruction::Return)
        } else {
            None
        }
    } else if family == 0x1 {
        Some(Instruction::Jump { addr })
    } else if family == 0x2 {
        Some(Instruction::Call { addr })
    } else if family == 0x3 {
        Some(Instruction::SkipEqImm { x, kk })
    } else if family == 0x4 {
        Some(Instruction::SkipNeImm { x, kk })
    } else if family == 0x5 {
        if n == 0 {
            Some(Instruction::SkipEqReg { x, y })
        } else {
            None
        }
    } else if family == 0x6 {
        Some(Instruction::LoadImm { x, kk })
    } else if family == 0x7 {
        Some(Instruction::AddImm { x, kk })
    } else if family == 0x8 {
        if n == 0x0 {
            Some(Instruction::Move { x, y })
        } else if n == 0x1 {
            Some(Instruction::Or { x, y })
        } else if n == 0x2 {
            Some(Instruction::And { x, y })
        } else if n == 0x3 {
            Some(Instruction::Xor { x, y })
        } else if n == 0x4 {
            Some(Instruction::AddCarry { x, y })
        } else if n == 0x5 {
            Some(Instruction::Sub { x, y })
        } else if n == 0x6 {
            Some(Instruction::ShiftRight { x, y })
        } else if n == 0x7 {
            Some(Instruction::SubReverse { x, y })
        } else if n == 0xE {
            Some(Instruction::ShiftLeft { x, y })
        } else {
            None
        }
    } else if family == 0x9 {
        if n == 0 {
            Some(Instruction::SkipNeReg { x, y })
        } else {
            None
        }
    } else if family == 0xA {
        Some(Instruction::LoadIndex { addr })
    } else if family == 0xB {
        Some(Instruction::JumpOffset { addr })
    } else if family == 0xC {
        Some(Instruction::Random { x, kk })
    } else if family == 0xD {
        Some(Instruction::Draw { x, y, n })
    } else if family == 0xE {
        if kk == 0x9E {
            Some(Instruction::SkipKeyPressed { x })
        } else if kk == 0xA1 {
            Some(Instruction::SkipKeyNotPressed { x })
        } else {
            None
        }
    } else {
        if kk == 0x07 {
            Some(Instruction::ReadDelay { x })
        } else if kk == 0x0A {
            Some(Instruction::WaitKey { x })
        } else if kk == 0x15 {
            Some(Instruction::SetDelay { x })
        } else if kk == 0x18 {
            Some(Instruction::SetSound { x })
        } else if kk == 0x1E {
            Some(Instruction::AddIndex { x })
        } else if kk == 0x29 {
            Some(Instruction::FontAddr { x })
        } else if kk == 0x33 {
            Some(Instruction::Bcd { x })
        } else if kk == 0x55 {
            Some(Instruction::StoreRegs { x })
        } else if kk == 0x65 {
            Some(Instruction::LoadRegs { x })
        } else {
            None
        }
    }
}

/// Masking and shifting an opcode yields its hexadecimal digits.
proof fn lemma_opcode_fields(op: u16)
    ensures
        (op & 0xF000) >> 12 == op / 0x1000,
        (op & 0x0F00) >> 8 == (op / 0x100) % 0x10,
        (op & 0x00F0) >> 4 == (op / 0x10) % 0x10,
        op & 0x000F == op % 0x10,
        op & 0x00FF == op % 0x100,
        op & 0x0FFF == op % 0x1000,
{
    assert((op & 0xF000) >> 12 == op / 0x1000) by (bit_vector);
    assert((op & 0x0F00) >> 8 == (op / 0x100) % 0x10) by (bit_vector);
    assert((op & 0x00F0) >> 4 == (op / 0x10) % 0x10) by (bit_vector);
    assert(op & 0x000F == op % 0x10) by (bit_vector);
    assert(op & 0x00FF == op % 0x100) by (bit_vector);
    assert(op & 0x0FFF == op % 0x1000) by (bit_vector);
}

/// Decodes one opcode into the instruction it encodes.
pub fn decode(op: u16) -> (r: Option<Instruction>)
    ensures
        r == decode_spec(op),
        r matches Some(instr) ==> instr.wf(),
{
    proof {
        lemma_opcode_fields(op);
    }
    let digit1: u16 = (op & 0xF000) >> 12;
    let digit2: u16 = (op & 0x0F00) >> 8;
    let digit3: u16 = (op & 0x00F0) >> 4;
    let digit4: u16 = op & 0x000F;
    let x: u8 = digit2 as u8;
    let y: u8 = digit3 as u8;
    let n: u8 = digit4 as u8;
    let kk: u8 = (op & 0x00FF) as u8;
    let addr: u16 = op & 0x0FFF;
    match (digit1, digit2, digit3, digit4) {
        (0, 0, 0, 0) => Some(Instruction::Nop),
        (0, 0, 0xE, 0) => Some(Instruction::ClearScreen),
        (0, 0, 0xE, 0xE) => Some(Instruction::Return),
        (1, _, _, _) => Some(Instruction::Jump { addr }),
        (2, _, _, _) => Some(Instruction::Call { addr }),
        (3, _, _, _) => Some(Instruction::SkipEqImm { x, kk }),
        (4, _, _, _) => Some(Instruction::SkipNeImm { x, kk }),
        (5, _, _, 0) => Some(Instruction::SkipEqReg { x, y }),
        (6, _, _, _) => Some(Instruction::LoadImm { x, kk }),
        (7, _, _, _) => Some(Instruction::AddImm { x, kk }),
        (8, _, _, 0) => Some(Instruction::Move { x, y }),
        (8, _, _, 1) => Some(Instruction::Or { x, y }),
        (8, _, _, 2) => Some(Instruction::And { x, y }),
        (8, _, _, 3) => Some(Instruction::Xor { x, y }),
        (8, _, _, 4) => Some(Instruction::AddCarry { x, y }),
        (8, _, _, 5) => Some(Instruction::Sub { x, y }),
        (8, _, _, 6) => Some(Instruction::ShiftRight { x, y }),
        (8, _, _, 7) => Some(Instruction::SubReverse { x, y }),
        (8, _, _, 0xE) => Some(Instruction::ShiftLeft { x, y }),
        (9, _, _, 0) => Some(Instruction::SkipNeReg { x, y }),
        (0xA, _, _, _) => Some(Instruction::LoadIndex { addr }),
        (0xB, _, _, _) => Some(Instruction::JumpOffset { addr }),
        (0xC, _, _, _) => Some(Instruction::Random { x, kk }),
        (0xD, _, _, _) => Some(Instruction::Draw { x, y, n }),
        (0xE, _, 9, 0xE) => Some(Instruction::SkipKeyPressed { x }),
        (0xE, _, 0xA, 1) => Some(Instruction::SkipKeyNotPressed { x }),
        (0xF, _, 0, 7) => Some(Instruction::ReadDelay { x }),
        (0xF, _, 0, 0xA) => Some(Instruction::WaitKey { x }),
        (0xF, _, 1, 5) => Some(Instruction::SetDelay { x }),
        (0xF, _, 1, 8) => Some(Instruction::SetSound { x }),
        (0xF, _, 1, 0xE) => Some(Instruction::AddIndex { x }),
        (0xF, _, 2, 9) => Some(Instruction::FontAddr { x }),
        (0xF, _, 3, 3) => Some(Instruction::Bcd { x }),
        (0xF, _, 5, 5) => Some(Instruction::StoreRegs { x }),
        (0xF, _, 6, 5) => Some(Instruction::LoadRegs { x }),
        _ => None,
    }
}

} // verus!
