use vstd::prelude::*;
use crate::font::font_spec;
use crate::instr::{Instr, decoded};

verus! {

/// Bytes of memory.
pub const MEMORY_SIZE: usize = 4096;
/// Number of general registers, `V0` to `VF`.
pub const REGISTERS: usize = 16;
/// Depth of the return-address stack.
pub const STACK_SIZE: usize = 16;
/// Display width in pixels.
pub const DISPLAY_WIDTH: usize = 64;
/// Display height in pixels.
pub const DISPLAY_HEIGHT: usize = 32;
/// Number of display cells, row-major.
pub const DISPLAY_SIZE: usize = 2048;
/// Number of keys on the keypad.
pub const KEYPAD_SIZE: usize = 16;
/// Address at which programs are loaded and execution starts.
pub const START_ADDRESS: u16 = 0x200;

/// A condition that stops execution.
#[derive(Clone, Copy, Debug, PartialEq, Eq, Structural)]
pub enum Fault {
    /// An access at or past the end of memory; holds the base address of the
    /// access (the program counter for a fetch, the index register otherwise).
    MemoryFault { address: u16 },
    /// A call with all sixteen stack entries in use.
    StackOverflow,
    /// A return with an empty stack.
    StackUnderflow,
    /// A key instruction named a key index outside `0..16`.
    InvalidKey { key: u8 },
    /// A program too large to fit in memory after the start address.
    RomTooLarge { len: usize },
}

/// What a successful step did.
#[derive(Clone, Copy, Debug, PartialEq, Eq, Structural)]
pub enum Step {
    /// The instruction was carried out.
    Executed,
    /// The word encodes no instruction; nothing but the fetch happened.
    Unknown { op: u16 },
}

/// The abstract machine: every value the interpreter holds.
pub struct EmuState {
    /// Program counter.
    pub pc: u16,
    /// Memory, 4096 bytes.
    pub ram: Seq<u8>,
    /// Index register `I`.
    pub index: u16,
    /// Display cells, row-major, `true` when lit.
    pub display: Seq<bool>,
    /// Return addresses; entries below `sp` are in use.
    pub stack: Seq<u16>,
    /// Number of stack entries in use.
    pub sp: u16,
    /// Registers `V0` to `VF`.
    pub regs: Seq<u8>,
    /// Which keys are held down.
    pub keypad: Seq<bool>,
    /// Delay timer.
    pub delay: u8,
    /// Sound timer.
    pub sound: u8,
}

impl EmuState {
    /// Sizes of the memories are fixed and the stack pointer stays within the stack.
    pub open spec fn wf(self) -> bool {
        &&& self.ram.len() == MEMORY_SIZE
        &&& self.display.len() == DISPLAY_SIZE
        &&& self.stack.len() == STACK_SIZE
        &&& self.regs.len() == REGISTERS
        &&& self.keypad.len() == KEYPAD_SIZE
        &&& self.sp <= STACK_SIZE
    }

    /// The state of a freshly built interpreter.
    pub open spec fn initial() -> EmuState {
        EmuState {
            pc: START_ADDRESS,
            ram: font_spec() + Seq::new((MEMORY_SIZE - font_spec().len()) as nat, |i: int| 0u8),
            index: 0,
            display: Seq::new(DISPLAY_SIZE as nat, |i: int| false),
            stack: Seq::new(STACK_SIZE as nat, |i: int| 0u16),
            sp: 0,
            regs: Seq::new(REGISTERS as nat, |i: int| 0u8),
            keypad: Seq::new(KEYPAD_SIZE as nat, |i: int| false),
            delay: 0,
            sound: 0,
        }
    }

    /// Register `Vx`.
    pub open spec fn reg(self, x: u8) -> u8 {
        self.regs[x as int]
    }

    /// `Vx = v`.
    pub open spec fn with_reg(self, x: u8, v: u8) -> EmuState {
        EmuState { regs: self.regs.update(x as int, v), ..self }
    }

    /// `Vx = v`, then `VF = flag`.
    pub open spec fn with_reg_flag(self, x: u8, v: u8, flag: u8) -> EmuState {
        EmuState { regs: self.regs.update(x as int, v).update(15, flag), ..self }
    }

    /// Skips the next instruction when `c` holds.
    pub open spec fn skip_if(self, c: bool) -> EmuState {
        if c {
            EmuState { pc: ((self.pc + 2) % 0x10000) as u16, ..self }
        } else {
            self
        }
    }
}

/// Bit `col` (0 = most significant) of a sprite row.
pub open spec fn sprite_bit(b: u8, col: u8) -> bool {
    (b >> (7 - col) as u8) & 1u8 == 1u8
}

/// The sprite row that reaches display cell `p` when drawn at `(x, y)`, counted
/// modulo the display height.
pub open spec fn row_of(x: u8, y: u8, p: int) -> int {
    (p / DISPLAY_WIDTH as int - y as int) % (DISPLAY_HEIGHT as int)
}

/// The sprite column that reaches display cell `p` when drawn at `(x, y)`,
/// counted modulo the display width.
pub open spec fn col_of(x: u8, y: u8, p: int) -> int {
    (p % DISPLAY_WIDTH as int - x as int) % (DISPLAY_WIDTH as int)
}

/// Whether an `n`-row sprite read from `ram` at `i` and drawn at `(x, y)` has a
/// set bit on display cell `p`; the sprite wraps around both screen edges.
pub open spec fn covers(ram: Seq<u8>, i: u16, x: u8, y: u8, n: u8, p: int) -> bool {
    let row = row_of(x, y, p);
    let col = col_of(x, y, p);
    row < n && col < 8 && sprite_bit(ram[i + row], col as u8)
}

/// The display after XOR-drawing the sprite.
pub open spec fn drawn(d: Seq<bool>, ram: Seq<u8>, i: u16, x: u8, y: u8, n: u8) -> Seq<bool> {
    Seq::new(d.len(), |p: int| d[p] != covers(ram, i, x, y, n, p))
}

/// Whether drawing the sprite turns off a cell that was on.
pub open spec fn collides(d: Seq<bool>, ram: Seq<u8>, i: u16, x: u8, y: u8, n: u8) -> bool {
    exists|p: int| 0 <= p < d.len() && #[trigger] covers(ram, i, x, y, n, p) && d[p]
}

/// The lowest index at or after `k` of a pressed key.
pub open spec fn first_pressed(keys: Seq<bool>, k: int) -> Option<int>
    decreases keys.len() - k,
{
    if k < 0 || k >= keys.len() {
        None
    } else if keys[k] {
        Some(k)
    } else {
        first_pressed(keys, k + 1)
    }
}

/// Whether `len` bytes starting at `base` lie inside memory.
pub open spec fn in_memory(base: u16, len: int) -> bool {
    base + len <= MEMORY_SIZE
}

/// The effect of one instruction on a well-formed state whose program counter
/// already points past it, given the random byte that `CXNN` would use.
pub open spec fn next(s: EmuState, ins: Instr, rnd: u8) -> Result<EmuState, Fault> {
    match ins {
        Instr::Clear => Ok(EmuState { display: Seq::new(DISPLAY_SIZE as nat, |p: int| false), ..s }),
        Instr::Return => if s.sp == 0 {
            Err(Fault::StackUnderflow)
        } else {
            Ok(EmuState { pc: s.stack[s.sp - 1], sp: (s.sp - 1) as u16, ..s })
        },
        Instr::Jump { addr } => Ok(EmuState { pc: addr, ..s }),
        Instr::Call { addr } => if s.sp >= STACK_SIZE {
            Err(Fault::StackOverflow)
        } else {
            Ok(
                EmuState {
                    stack: s.stack.update(s.sp as int, s.pc),
                    sp: (s.sp + 1) as u16,
                    pc: addr,
                    ..s
                },
            )
        },
        Instr::SkipEqImm { x, nn } => Ok(s.skip_if(s.reg(x) == nn)),
        Instr::SkipNeImm { x, nn } => Ok(s.skip_if(s.reg(x) != nn)),
        Instr::SkipEqReg { x, y } => Ok(s.skip_if(s.reg(x) == s.reg(y))),
        Instr::SetImm { x, nn } => Ok(s.with_reg(x, nn)),
        Instr::AddImm { x, nn } => Ok(s.with_reg(x, ((s.reg(x) + nn) % 256) as u8)),
        Instr::Move { x, y } => Ok(s.with_reg(x, s.reg(y))),
        Instr::Or { x, y } => Ok(s.with_reg(x, s.reg(x) | s.reg(y))),
        Instr::And { x, y } => Ok(s.with_reg(x, s.reg(x) & s.reg(y))),
        Instr::Xor { x, y } => Ok(s.with_reg(x, s.reg(x) ^ s.reg(y))),
        Instr::AddReg { x, y } => {
            let sum = s.reg(x) + s.reg(y);
            Ok(s.with_reg_flag(x, (sum % 256) as u8, if sum > 255 { 1 } else { 0 }))
        },
        Instr::SubReg { x, y } => {
            let (a, b) = (s.reg(x), s.reg(y));
            Ok(s.with_reg_flag(x, ((a - b) % 256) as u8, if a >= b { 1 } else { 0 }))
        },
        Instr::ShiftRight { x } => Ok(s.with_reg_flag(x, s.reg(x) / 2, s.reg(x) % 2)),
        Instr::SubRev { x, y } => {
            let (a, b) = (s.reg(y), s.reg(x));
            Ok(s.with_reg_flag(x, ((a - b) % 256) as u8, if a >= b { 1 } else { 0 }))
        },
        Instr::ShiftLeft { x } => Ok(
            s.with_reg_flag(x, ((s.reg(x) * 2) % 256) as u8, s.reg(x) / 128),
        ),
        Instr::SkipNeReg { x, y } => Ok(s.skip_if(s.reg(x) != s.reg(y))),
        Instr::SetIndex { addr } => Ok(EmuState { index: addr, ..s }),
        Instr::JumpOffset { addr } => Ok(EmuState { pc: (s.reg(0) + addr) as u16, ..s }),
        Instr::Random { x, nn } => Ok(s.with_reg(x, rnd & nn)),
        Instr::Draw { x, y, n } => if n > 0 && !in_memory(s.index, n as int) {
            Err(Fault::MemoryFault { address: s.index })
        } else {
            let (vx, vy) = (s.reg(x), s.reg(y));
            let hit = collides(s.display, s.ram, s.index, vx, vy, n);
            Ok(
                EmuState {
                    display: drawn(s.display, s.ram, s.index, vx, vy, n),
                    regs: s.regs.update(15, if hit { 1u8 } else { 0u8 }),
                    ..s
                },
            )
        },
        Instr::SkipKey { x } => if s.reg(x) >= KEYPAD_SIZE {
            Err(Fault::InvalidKey { key: s.reg(x) })
        } else {
            Ok(s.skip_if(s.keypad[s.reg(x) as int]))
        },
        Instr::SkipNoKey { x } => if s.reg(x) >= KEYPAD_SIZE {
            Err(Fault::InvalidKey { key: s.reg(x) })
        } else {
            Ok(s.skip_if(!s.keypad[s.reg(x) as int]))
        },
        Instr::ReadDelay { x } => Ok(s.with_reg(x, s.delay)),
        Instr::WaitKey { x } => match first_pressed(s.keypad, 0) {
            Some(k) => Ok(s.with_reg(x, k as u8)),
            None => Ok(EmuState { pc: ((s.pc + 0x10000 - 2) % 0x10000) as u16, ..s }),
        },
        Instr::SetDelay { x } => Ok(EmuState { delay: s.reg(x), ..s }),
        Instr::SetSound { x } => Ok(EmuState { sound: s.reg(x), ..s }),
        Instr::AddIndex { x } => Ok(EmuState { index: ((s.index + s.reg(x)) % 0x10000) as u16, ..s }),
        Instr::FontGlyph { x } => Ok(EmuState { index: (s.reg(x) * 5) as u16, ..s }),
        Instr::Bcd { x } => if !in_memory(s.index, 3) {
            Err(Fault::MemoryFault { address: s.index })
        } else {
            let v = s.reg(x);
            let i = s.index as int;
            Ok(
                EmuState {
                    ram: s.ram.update(i, v / 100).update(i + 1, (v / 10) % 10).update(i + 2, v % 10),
                    ..s
                },
            )
        },
        Instr::StoreRegs { x } => if !in_memory(s.index, x + 1) {
            Err(Fault::MemoryFault { address: s.index })
        } else {
            Ok(
                EmuState {
                    ram: Seq::new(
                        s.ram.len(),
                        |a: int|
                            if s.index <= a <= s.index + x {
                                s.regs[a - s.index]
                            } else {
                                s.ram[a]
                            },
                    ),
                    ..s
                },
            )
        },
        Instr::LoadRegs { x } => if !in_memory(s.index, x + 1) {
            Err(Fault::MemoryFault { address: s.index })
        } else {
            Ok(
                EmuState {
                    regs: Seq::new(
                        s.regs.len(),
                        |r: int|
                            if r <= x {
                                s.ram[s.index + r]
                            } else {
                                s.regs[r]
                            },
                    ),
                    ..s
                },
            )
        },
        Instr::Unknown { .. } => Ok(s),
    }
}

/// How a step is reported when it succeeds.
pub open spec fn step_of(ins: Instr) -> Step {
    match ins {
        Instr::Unknown { op } => Step::Unknown { op },
        _ => Step::Executed,
    }
}

/// One instruction: the new state and the report. A fault leaves the state as it was.
pub open spec fn executed(s: EmuState, ins: Instr, rnd: u8) -> (EmuState, Result<Step, Fault>) {
    match next(s, ins, rnd) {
        Ok(t) => (t, Ok(step_of(ins))),
        Err(e) => (s, Err(e)),
    }
}

/// Whether the two bytes at the program counter lie inside memory.
pub open spec fn can_fetch(s: EmuState) -> bool {
    s.pc + 1 < MEMORY_SIZE
}

/// The big-endian word at the program counter.
pub open spec fn word_at_pc(s: EmuState) -> u16 {
    (s.ram[s.pc as int] * 256 + s.ram[s.pc + 1]) as u16
}

/// The state after fetching: the program counter moves past the word.
pub open spec fn fetched(s: EmuState) -> EmuState {
    EmuState { pc: (s.pc + 2) as u16, ..s }
}

/// A full cycle: fetch, decode and execute.
pub open spec fn cycled(s: EmuState, rnd: u8) -> (EmuState, Result<Step, Fault>) {
    if !can_fetch(s) {
        (s, Err(Fault::MemoryFault { address: s.pc }))
    } else {
        executed(fetched(s), decoded(word_at_pc(s)), rnd)
    }
}

/// One timer tick: each timer counts down by one unless already zero.
pub open spec fn ticked(s: EmuState) -> EmuState {
    EmuState {
        delay: if s.delay > 0 { (s.delay - 1) as u8 } else { 0 },
        sound: if s.sound > 0 { (s.sound - 1) as u8 } else { 0 },
        ..s
    }
}

} // verus!
