use vstd::prelude::*;

verus! {

/// A decoded instruction. `x` and `y` name registers (always below 16), `nn` is
/// an 8-bit immediate, `n` a 4-bit immediate and `addr` a 12-bit address.
#[derive(Clone, Copy, Debug, PartialEq, Eq, Structural)]
pub enum Instr {
    /// `00E0`: clear the display.
    Clear,
    /// `00EE`: return from a subroutine.
    Return,
    /// `1NNN`: jump.
    Jump { addr: u16 },
    /// `2NNN`: call a subroutine.
    Call { addr: u16 },
    /// `3XNN`: skip if `Vx == NN`.
    SkipEqImm { x: u8, nn: u8 },
    /// `4XNN`: skip if `Vx != NN`.
    SkipNeImm { x: u8, nn: u8 },
    /// `5XY0`: skip if `Vx == Vy`.
    SkipEqReg { x: u8, y: u8 },
    /// `6XNN`: `Vx = NN`.
    SetImm { x: u8, nn: u8 },
    /// `7XNN`: `Vx += NN`, wrapping, flag untouched.
    AddImm { x: u8, nn: u8 },
    /// `8XY0`: `Vx = Vy`.
    Move { x: u8, y: u8 },
    /// `8XY1`: `Vx |= Vy`.
    Or { x: u8, y: u8 },
    /// `8XY2`: `Vx &= Vy`.
    And { x: u8, y: u8 },
    /// `8XY3`: `Vx ^= Vy`.
    Xor { x: u8, y: u8 },
    /// `8XY4`: `Vx += Vy`, flag set on carry.
    AddReg { x: u8, y: u8 },
    /// `8XY5`: `Vx -= Vy`, flag set when no borrow.
    SubReg { x: u8, y: u8 },
    /// `8XY6`: shift `Vx` right, flag gets the bit shifted out.
    ShiftRight { x: u8 },
    /// `8XY7`: `Vx = Vy - Vx`, flag set when no borrow.
    SubRev { x: u8, y: u8 },
    /// `8XYE`: shift `Vx` left, flag gets the bit shifted out.
    ShiftLeft { x: u8 },
    /// `9XY0`: skip if `Vx != Vy`.
    SkipNeReg { x: u8, y: u8 },
    /// `ANNN`: `I = NNN`.
    SetIndex { addr: u16 },
    /// `BNNN`: jump to `V0 + NNN`.
    JumpOffset { addr: u16 },
    /// `CXNN`: `Vx = random & NN`.
    Random { x: u8, nn: u8 },
    /// `DXYN`: draw an `N`-row sprite at `(Vx, Vy)`.
    Draw { x: u8, y: u8, n: u8 },
    /// `EX9E`: skip if key `Vx` is down.
    SkipKey { x: u8 },
    /// `EXA1`: skip if key `Vx` is up.
    SkipNoKey { x: u8 },
    /// `FX07`: `Vx = delay timer`.
    ReadDelay { x: u8 },
    /// `FX0A`: wait for a key and store its index in `Vx`.
    WaitKey { x: u8 },
    /// `FX15`: `delay timer = Vx`.
    SetDelay { x: u8 },
    /// `FX18`: `sound timer = Vx`.
    SetSound { x: u8 },
    /// `FX1E`: `I += Vx`, wrapping at 16 bits.
    AddIndex { x: u8 },
    /// `FX29`: `I` = address of the font glyph for `Vx`.
    FontGlyph { x: u8 },
    /// `FX33`: store the decimal digits of `Vx` at `I`, `I+1`, `I+2`.
    Bcd { x: u8 },
    /// `FX55`: store `V0..=Vx` at `I..`.
    StoreRegs { x: u8 },
    /// `FX65`: load `V0..=Vx` from `I..`.
    LoadRegs { x: u8 },
    /// Any other instruction word.
    Unknown { op: u16 },
}

impl Instr {
    /// Flow control, the index register, random bytes, drawing, and unknown words.
    pub open spec fn is_control(self) -> bool {
        !self.is_arith() && !self.is_io()
    }

    /// Register loads and arithmetic: `6XNN`, `7XNN` and `8XY_`.
    pub open spec fn is_arith(self) -> bool {
        match self {
            Instr::SetImm { .. } | Instr::AddImm { .. } | Instr::Move { .. } | Instr::Or { .. }
            | Instr::And { .. } | Instr::Xor { .. } | Instr::AddReg { .. } | Instr::SubReg { .. }
            | Instr::ShiftRight { .. } | Instr::SubRev { .. } | Instr::ShiftLeft { .. } => true,
            _ => false,
        }
    }

    /// Keys, timers, and the `FX__` instructions on the index register and memory.
    pub open spec fn is_io(self) -> bool {
        match self {
            Instr::SkipKey { .. } | Instr::SkipNoKey { .. } | Instr::ReadDelay { .. }
            | Instr::WaitKey { .. } | Instr::SetDelay { .. } | Instr::SetSound { .. }
            | Instr::AddIndex { .. } | Instr::FontGlyph { .. } | Instr::Bcd { .. }
            | Instr::StoreRegs { .. } | Instr::LoadRegs { .. } => true,
            _ => false,
        }
    }
}

/// Nibble `k` of `op`, counting from the least significant (`k` in `0..4`).
pub open spec fn nibble(op: u16, k: int) -> u16 {
    if k == 0 {
        op % 16
    } else if k == 1 {
        (op / 16) % 16
    } else if k == 2 {
        (op / 256) % 16
    } else {
        op / 4096
    }
}

/// The instruction that the word `op` encodes.
pub open spec fn decoded(op: u16) -> Instr {
    let x = nibble(op, 2) as u8;
    let y = nibble(op, 1) as u8;
    let n = nibble(op, 0) as u8;
    let nn = (op % 256) as u8;
    let addr = (op % 4096) as u16;
    let lo = op % 256;
    match nibble(op, 3) {
        0 => if op == 0x00E0 {
            Instr::Clear
        } else if op == 0x00EE {
            Instr::Return
        } else {
            Instr::Unknown { op }
        },
        1 => Instr::Jump { addr },
        2 => Instr::Call { addr },
        3 => Instr::SkipEqImm { x, nn },
        4 => Instr::SkipNeImm { x, nn },
        5 => if n == 0 {
            Instr::SkipEqReg { x, y }
        } else {
            Instr::Unknown { op }
        },
        6 => Instr::SetImm { x, nn },
        7 => Instr::AddImm { x, nn },
        8 => if n == 0 {
            Instr::Move { x, y }
        } else if n == 1 {
            Instr::Or { x, y }
        } else if n == 2 {
            Instr::And { x, y }
        } else if n == 3 {
            Instr::Xor { x, y }
        } else if n == 4 {
            Instr::AddReg { x, y }
        } else if n == 5 {
            Instr::SubReg { x, y }
        } else if n == 6 {
            Instr::ShiftRight { x }
        } else if n == 7 {
            Instr::SubRev { x, y }
        } else if n == 0xE {
            Instr::ShiftLeft { x }
        } else {
            Instr::Unknown { op }
        },
        9 => if n == 0 {
            Instr::SkipNeReg { x, y }
        } else {
            Instr::Unknown { op }
        },
        0xA => Instr::SetIndex { addr },
        0xB => Instr::JumpOffset { addr },
        0xC => Instr::Random { x, nn },
        0xD => Instr::Draw { x, y, n },
        0xE => if lo == 0x9E {
            Instr::SkipKey { x }
        } else if lo == 0xA1 {
            Instr::SkipNoKey { x }
        } else {
            Instr::Unknown { op }
        },
        _ => if lo == 0x07 {
            Instr::ReadDelay { x }
        } else if lo == 0x0A {
            Instr::WaitKey { x }
        } else if lo == 0x15 {
            Instr::SetDelay { x }
        } else if lo == 0x18 {
            Instr::SetSound { x }
        } else if lo == 0x1E {
            Instr::AddIndex { x }
        } else if lo == 0x29 {
            Instr::FontGlyph { x }
        } else if lo == 0x33 {
            Instr::Bcd { x }
        } else if lo == 0x55 {
            Instr::StoreRegs { x }
        } else if lo == 0x65 {
            Instr::LoadRegs { x }
        } else {
            Instr::Unknown { op }
        },
    }
}

/// Register operands below 16, immediates within their field widths.
pub open spec fn operands_in_range(i: Instr) -> bool {
    match i {
        Instr::Jump { addr } | Instr::Call { addr } | Instr::SetIndex { addr } | Instr::JumpOffset {
            addr,
        } => addr < 4096,
        Instr::SkipEqImm { x, .. } | Instr::SkipNeImm { x, .. } | Instr::SetImm { x, .. }
        | Instr::AddImm { x, .. } | Instr::Random { x, .. } | Instr::ShiftRight { x }
        | Instr::ShiftLeft { x } | Instr::SkipKey { x } | Instr::SkipNoKey { x }
        | Instr::ReadDelay { x } | Instr::WaitKey { x } | Instr::SetDelay { x }
        | Instr::SetSound { x } | Instr::AddIndex { x } | Instr::FontGlyph { x } | Instr::Bcd {
            x,
        } | Instr::StoreRegs { x } | Instr::LoadRegs { x } => x < 16,
        Instr::SkipEqReg { x, y } | Instr::Move { x, y } | Instr::Or { x, y } | Instr::And { x, y }
        | Instr::Xor { x, y } | Instr::AddReg { x, y } | Instr::SubReg { x, y } | Instr::SubRev {
            x,
            y,
        } | Instr::SkipNeReg { x, y } => x < 16 && y < 16,
        Instr::Draw { x, y, n } => x < 16 && y < 16 && n < 16,
        _ => true,
    }
}

/// Every decoded word has its operands in range.
pub proof fn lemma_decoded_in_range(op: u16)
    ensures
        operands_in_range(decoded(op)),
{
}

/// Splits an instruction word into its operation and operands.
pub fn decode(op: u16) -> (r: Instr)
    ensures
        r == decoded(op),
        operands_in_range(r),
{
    let x = ((op / 256) % 16) as u8;
    let y = ((op / 16) % 16) as u8;
    let n = (op % 16) as u8;
    let nn = (op % 256) as u8;
    let addr = op % 4096;
    let lo = op % 256;
    proof {
        lemma_decoded_in_range(op);
    }
    match op / 4096 {
        0 => if op == 0x00E0 {
            Instr::Clear
        } else if op == 0x00EE {
            Instr::Return
        } else {
            Instr::Unknown { op }
        },
        1 => Instr::Jump { addr },
        2 => Instr::Call { addr },
        3 => Instr::SkipEqImm { x, nn },
        4 => Instr::SkipNeImm { x, nn },
        5 => if n == 0 {
            Instr::SkipEqReg { x, y }
        } else {
            Instr::Unknown { op }
        },
        6 => Instr::SetImm { x, nn },
        7 => Instr::AddImm { x, nn },
        8 => match n {
            0 => Instr::Move { x, y },
            1 => Instr::Or { x, y },
            2 => Instr::And { x, y },
            3 => Instr::Xor { x, y },
            4 => Instr::AddReg { x, y },
            5 => Instr::SubReg { x, y },
            6 => Instr::ShiftRight { x },
            7 => Instr::SubRev { x, y },
            0xE => Instr::ShiftLeft { x },
            _ => Instr::Unknown { op },
        },
        9 => if n == 0 {
            Instr::SkipNeReg { x, y }
        } else {
            Instr::Unknown { op }
        },
        0xA => Instr::SetIndex { addr },
        0xB => Instr::JumpOffset { addr },
        0xC => Instr::Random { x, nn },
        0xD => Instr::Draw { x, y, n },
        0xE => match lo {
            0x9E => Instr::SkipKey { x },
            0xA1 => Instr::SkipNoKey { x },
            _ => Instr::Unknown { op },
        },
        _ => match lo {
            0x07 => Instr::ReadDelay { x },
            0x0A => Instr::WaitKey { x },
            0x15 => Instr::SetDelay { x },
            0x18 => Instr::SetSound { x },
            0x1E => Instr::AddIndex { x },
            0x29 => Instr::FontGlyph { x },
            0x33 => Instr::Bcd { x },
            0x55 => Instr::StoreRegs { x },
            0x65 => Instr::LoadRegs { x },
            _ => Instr::Unknown { op },
        },
    }
}

} // verus!
