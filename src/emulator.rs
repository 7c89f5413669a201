use vstd::prelude::*;
use crate::font::{font_bytes, font_spec, FONT_SIZE};
use crate::instr::{Instr, decode, decoded, operands_in_range};
use crate::machine::{
    DISPLAY_SIZE, DISPLAY_WIDTH, DISPLAY_HEIGHT, EmuState, Fault, KEYPAD_SIZE, MEMORY_SIZE, REGISTERS, STACK_SIZE,
    START_ADDRESS, Step, can_fetch, collides, covers, cycled, col_of, drawn, executed, fetched,
    first_pressed, row_of, ticked, word_at_pc,
};

verus! {

/// A CHIP-8 interpreter: memory, registers, stack, display, keypad and timers.
pub struct Emulator {
    pc: u16,
    ram: Vec<u8>,
    index: u16,
    display: Vec<bool>,
    stack: Vec<u16>,
    sp: u16,
    registers: Vec<u8>,
    keypad: Vec<bool>,
    delay_timer: u8,
    sound_timer: u8,
}

impl View for Emulator {
    type V = EmuState;

    closed spec fn view(&self) -> EmuState {
        EmuState {
            pc: self.pc,
            ram: self.ram@,
            index: self.index,
            display: self.display@,
            stack: self.stack@,
            sp: self.sp,
            regs: self.registers@,
            keypad: self.keypad@,
            delay: self.delay_timer,
            sound: self.sound_timer,
        }
    }
}

/// Memory as it is at start-up: the font, then zeros.
fn initial_memory() -> (r: Vec<u8>)
    ensures
        r@ == EmuState::initial().ram,
{
    let mut ram = font_bytes();
    while ram.len() < MEMORY_SIZE
        invariant
            FONT_SIZE <= ram@.len() <= MEMORY_SIZE,
            ram@ == font_spec() + Seq::new((ram@.len() - FONT_SIZE) as nat, |i: int| 0u8),
        decreases MEMORY_SIZE - ram@.len(),
    {
        ram.push(0);
        assert(ram@ =~= font_spec() + Seq::new((ram@.len() - FONT_SIZE) as nat, |i: int| 0u8));
    }
    ram
}

/// The display cell that sprite pixel `(row, col)` lands on when drawn at `(x, y)`.
spec fn target(x: u8, y: u8, row: int, col: int) -> int {
    (x + col) % (DISPLAY_WIDTH as int) + DISPLAY_WIDTH * ((y + row) % (DISPLAY_HEIGHT as int))
}

proof fn lemma_target_inverse(x: u8, y: u8, row: int, col: int)
    requires
        0 <= row < DISPLAY_HEIGHT,
        0 <= col < DISPLAY_WIDTH,
    ensures
        0 <= target(x, y, row, col) < DISPLAY_SIZE,
        row_of(x, y, target(x, y, row, col)) == row,
        col_of(x, y, target(x, y, row, col)) == col,
{
    let a = (x + col) % 64;
    let b = (y + row) % 32;
    assert(0 <= a < 64 && 0 <= b < 32);
    assert((a + 64 * b) / 64 == b && (a + 64 * b) % 64 == a) by (nonlinear_arith)
        requires
            0 <= a < 64,
            0 <= b < 32,
    ;
}

proof fn lemma_cell_coords(x: u8, y: u8, p: int)
    requires
        0 <= p < DISPLAY_SIZE,
    ensures
        target(x, y, row_of(x, y, p), col_of(x, y, p)) == p,
        0 <= row_of(x, y, p) < DISPLAY_HEIGHT,
        0 <= col_of(x, y, p) < DISPLAY_WIDTH,
{
    let a = p % 64;
    let b = p / 64;
    assert(p == a + 64 * b && 0 <= a < 64 && 0 <= b < 32) by (nonlinear_arith)
        requires
            0 <= p < 2048,
            a == p % 64,
            b == p / 64,
    ;
}

/// Whether sprite pixel `(row_of(p), col_of(p))` comes before `(row, col)` in
/// drawing order.
spec fn before(x: u8, y: u8, p: int, row: int, col: int) -> bool {
    row_of(x, y, p) < row || (row_of(x, y, p) == row && col_of(x, y, p) < col)
}

/// The display once the sprite pixels before `(row, col)` have been drawn.
spec fn drawn_upto(d: Seq<bool>, ram: Seq<u8>, i: u16, x: u8, y: u8, n: u8, row: int, col: int) -> Seq<bool> {
    Seq::new(d.len(), |p: int| d[p] != (covers(ram, i, x, y, n, p) && before(x, y, p, row, col)))
}

/// Whether a sprite pixel before `(row, col)` turned off a lit cell.
spec fn collides_upto(d: Seq<bool>, ram: Seq<u8>, i: u16, x: u8, y: u8, n: u8, row: int, col: int) -> bool {
    exists|p: int|
        0 <= p < d.len() && #[trigger] covers(ram, i, x, y, n, p) && before(x, y, p, row, col) && d[p]
}

/// XOR-draws an `n`-row sprite read from `ram` at `i` onto `display` at
/// `(x, y)`, wrapping around the edges. Returns whether a lit cell went dark.
fn draw_sprite(display: &mut Vec<bool>, ram: &Vec<u8>, i: u16, x: u8, y: u8, n: u8) -> (hit: bool)
    requires
        old(display)@.len() == DISPLAY_SIZE,
        ram@.len() == MEMORY_SIZE,
        n < 16,
        n == 0 || i + n <= MEMORY_SIZE,
    ensures
        final(display)@ == drawn(old(display)@, ram@, i, x, y, n),
        hit == collides(old(display)@, ram@, i, x, y, n),
{
    let ghost d0 = display@;
    let mut hit = false;
    let mut row: u8 = 0;
    assert(display@ =~= drawn_upto(d0, ram@, i, x, y, n, 0, 0));
    while row < n
        invariant
            row <= n < 16,
            d0 == old(display)@,
            d0.len() == DISPLAY_SIZE,
            ram@.len() == MEMORY_SIZE,
            n == 0 || i + n <= MEMORY_SIZE,
            display@ == drawn_upto(d0, ram@, i, x, y, n, row as int, 0),
            hit == collides_upto(d0, ram@, i, x, y, n, row as int, 0),
        decreases n - row,
    {
        let byte = ram[i as usize + row as usize];
        let mut col: u8 = 0;
        while col < 8
            invariant
                row < n < 16,
                col <= 8,
                d0.len() == DISPLAY_SIZE,
                ram@.len() == MEMORY_SIZE,
                i + n <= MEMORY_SIZE,
                byte == ram@[i + row],
                display@ == drawn_upto(d0, ram@, i, x, y, n, row as int, col as int),
                hit == collides_upto(d0, ram@, i, x, y, n, row as int, col as int),
            decreases 8 - col,
        {
            let ghost before_hit = hit;
            let ghost t = target(x, y, row as int, col as int);
            proof {
                lemma_target_inverse(x, y, row as int, col as int);
                assert forall|p: int| 0 <= p < DISPLAY_SIZE && p != t implies before(x, y, p, row as int, col as int + 1)
                    == before(x, y, p, row as int, col as int) by {
                    lemma_cell_coords(x, y, p);
                }
            }
            if (byte >> (7 - col)) & 1 == 1 {
                let tt = (x as usize + col as usize) % DISPLAY_WIDTH + DISPLAY_WIDTH * ((y as usize
                    + row as usize) % DISPLAY_HEIGHT);
                assert(tt == t);
                let cur = display[tt];
                assert(covers(ram@, i, x, y, n, t));
                hit = hit || cur;
                display.set(tt, !cur);
                proof {
                    if cur {
                        assert(before(x, y, t, row as int, col as int + 1));
                    }
                    if collides_upto(d0, ram@, i, x, y, n, row as int, col as int + 1) {
                        let p = choose|p: int|
                            0 <= p < d0.len() && #[trigger] covers(ram@, i, x, y, n, p) && before(
                                x,
                                y,
                                p,
                                row as int,
                                col as int + 1,
                            ) && d0[p];
                        if p != t {
                            assert(before(x, y, p, row as int, col as int));
                        }
                    }
                }
            } else {
                proof {
                    assert(!covers(ram@, i, x, y, n, t));
                    if collides_upto(d0, ram@, i, x, y, n, row as int, col as int + 1) {
                        let p = choose|p: int|
                            0 <= p < d0.len() && #[trigger] covers(ram@, i, x, y, n, p) && before(
                                x,
                                y,
                                p,
                                row as int,
                                col as int + 1,
                            ) && d0[p];
                        assert(before(x, y, p, row as int, col as int));
                    }
                    if before_hit {
                        let p = choose|p: int|
                            0 <= p < d0.len() && #[trigger] covers(ram@, i, x, y, n, p) && before(
                                x,
                                y,
                                p,
                                row as int,
                                col as int,
                            ) && d0[p];
                        assert(before(x, y, p, row as int, col as int + 1));
                    }
                }
            }
            col += 1;
            assert(display@ =~= drawn_upto(d0, ram@, i, x, y, n, row as int, col as int));
        }
        row += 1;
        proof {
            assert forall|p: int| 0 <= p < DISPLAY_SIZE implies (covers(ram@, i, x, y, n, p) && before(
                x,
                y,
                p,
                row as int,
                0,
            )) == (covers(ram@, i, x, y, n, p) && before(x, y, p, row - 1, 8)) by {}
            assert(display@ =~= drawn_upto(d0, ram@, i, x, y, n, row as int, 0));
            if hit {
                let p = choose|p: int|
                    0 <= p < d0.len() && #[trigger] covers(ram@, i, x, y, n, p) && before(
                        x,
                        y,
                        p,
                        row - 1,
                        8,
                    ) && d0[p];
                assert(before(x, y, p, row as int, 0));
            }
        }
    }
    proof {
        assert forall|p: int| 0 <= p < DISPLAY_SIZE implies (covers(ram@, i, x, y, n, p) && before(
            x,
            y,
            p,
            n as int,
            0,
        )) == covers(ram@, i, x, y, n, p) by {}
        assert(display@ =~= drawn(d0, ram@, i, x, y, n));
        if hit {
            let p = choose|p: int|
                0 <= p < d0.len() && #[trigger] covers(ram@, i, x, y, n, p) && before(x, y, p, n as int, 0) && d0[p];
            assert(d0[p] && covers(ram@, i, x, y, n, p));
        }
        if collides(d0, ram@, i, x, y, n) {
            let p = choose|p: int| 0 <= p < d0.len() && #[trigger] covers(ram@, i, x, y, n, p) && d0[p];
            assert(before(x, y, p, n as int, 0));
        }
    }
    hit
}

/// Relies on `rand::random::<u8>`, which draws from the thread-local generator;
/// nothing is known of the byte.
#[verifier::external_body]
fn random_byte() -> u8 {
    rand::random::<u8>()
}

impl Emulator {
    /// The interpreter's buffers have their fixed sizes and the stack pointer
    /// lies within the stack.
    pub open spec fn wf(&self) -> bool {
        self@.wf()
    }

    /// A fresh interpreter: font installed, everything else zero, `pc` at the
    /// start address.
    pub fn new() -> (r: Emulator)
        ensures
            r@ == EmuState::initial(),
            r.wf(),
    {
        let display: Vec<bool> = vec![false; DISPLAY_SIZE];
        let stack: Vec<u16> = vec![0u16; STACK_SIZE];
        let registers: Vec<u8> = vec![0u8; REGISTERS];
        let keypad: Vec<bool> = vec![false; KEYPAD_SIZE];
        let r = Emulator {
            pc: START_ADDRESS,
            ram: initial_memory(),
            index: 0,
            display,
            stack,
            sp: 0,
            registers,
            keypad,
            delay_timer: 0,
            sound_timer: 0,
        };
        assert(r@.display =~= EmuState::initial().display);
        assert(r@.stack =~= EmuState::initial().stack);
        assert(r@.regs =~= EmuState::initial().regs);
        assert(r@.keypad =~= EmuState::initial().keypad);
        r
    }

    /// Returns the interpreter to the state that `new` builds.
    pub fn reset(&mut self)
        ensures
            final(self)@ == EmuState::initial(),
            final(self).wf(),
    {
        *self = Emulator::new();
    }

    /// Copies a program into memory at the start address. Fails, leaving the
    /// interpreter unchanged, when it does not fit.
    pub fn load(&mut self, data: &[u8]) -> (r: Result<(), Fault>)
        requires
            old(self).wf(),
        ensures
            final(self).wf(),
            START_ADDRESS + data@.len() > MEMORY_SIZE ==> r == Err::<(), Fault>(
                Fault::RomTooLarge { len: data@.len() as usize },
            ) && final(self)@ == old(self)@,
            START_ADDRESS + data@.len() <= MEMORY_SIZE ==> r is Ok && final(self)@ == (EmuState {
                ram: Seq::new(
                    MEMORY_SIZE as nat,
                    |a: int|
                        if START_ADDRESS <= a < START_ADDRESS + data@.len() {
                            data@[a - START_ADDRESS]
                        } else {
                            old(self)@.ram[a]
                        },
                ),
                ..old(self)@
            }),
    {
        let start = START_ADDRESS as usize;
        if data.len() > MEMORY_SIZE - start {
            return Err(Fault::RomTooLarge { len: data.len() });
        }
        let mut k: usize = 0;
        while k < data.len()
            invariant
                k <= data@.len(),
                start + data@.len() <= MEMORY_SIZE,
                start == START_ADDRESS,
                self.wf(),
                self@ == (EmuState { ram: self@.ram, ..old(self)@ }),
                forall|a: int|
                    0 <= a < MEMORY_SIZE ==> #[trigger] self@.ram[a] == if start <= a < start + k {
                        data@[a - start]
                    } else {
                        old(self)@.ram[a]
                    },
            decreases data@.len() - k,
        {
            self.ram.set(start + k, data[k]);
            k += 1;
        }
        assert(self@.ram =~= Seq::new(
            MEMORY_SIZE as nat,
            |a: int|
                if START_ADDRESS <= a < START_ADDRESS + data@.len() {
                    data@[a - START_ADDRESS]
                } else {
                    old(self)@.ram[a]
                },
        ));
        Ok(())
    }

    /// Records whether key `key` is held down.
    pub fn keypress(&mut self, key: usize, pressed: bool)
        requires
            old(self).wf(),
            key < KEYPAD_SIZE,
        ensures
            final(self).wf(),
            final(self)@ == (EmuState { keypad: old(self)@.keypad.update(key as int, pressed), ..old(self)@ }),
    {
        self.keypad.set(key, pressed);
    }

    /// The display, row-major: cell `y * 64 + x` is pixel `(x, y)`, `true` when lit.
    pub fn get_display(&self) -> (r: &[bool])
        ensures
            r@ == self@.display,
    {
        self.display.as_slice()
    }

    /// The program counter.
    pub fn pc(&self) -> (r: u16)
        ensures
            r == self@.pc,
    {
        self.pc
    }

    /// The index register `I`.
    pub fn index(&self) -> (r: u16)
        ensures
            r == self@.index,
    {
        self.index
    }

    /// Register `V{x}`.
    pub fn register(&self, x: usize) -> (r: u8)
        requires
            self.wf(),
            x < REGISTERS,
        ensures
            r == self@.regs[x as int],
    {
        self.registers[x]
    }

    /// The byte at memory address `addr`.
    pub fn memory(&self, addr: usize) -> (r: u8)
        requires
            self.wf(),
            addr < MEMORY_SIZE,
        ensures
            r == self@.ram[addr as int],
    {
        self.ram[addr]
    }

    /// The delay timer.
    pub fn delay_timer(&self) -> (r: u8)
        ensures
            r == self@.delay,
    {
        self.delay_timer
    }

    /// The sound timer.
    pub fn sound_timer(&self) -> (r: u8)
        ensures
            r == self@.sound,
    {
        self.sound_timer
    }

    /// Reads the big-endian word at the program counter and moves past it.
    /// Fails, changing nothing, when the word is not wholly inside memory.
    pub fn fetch(&mut self) -> (r: Result<u16, Fault>)
        requires
            old(self).wf(),
        ensures
            final(self).wf(),
            can_fetch(old(self)@) ==> r == Ok::<u16, Fault>(word_at_pc(old(self)@))
                && final(self)@ == fetched(old(self)@),
            !can_fetch(old(self)@) ==> r == Err::<u16, Fault>(
                Fault::MemoryFault { address: old(self)@.pc },
            ) && final(self)@ == old(self)@,
    {
        if self.pc as usize + 1 >= MEMORY_SIZE {
            return Err(Fault::MemoryFault { address: self.pc });
        }
        let hi = self.ram[self.pc as usize] as u16;
        let lo = self.ram[self.pc as usize + 1] as u16;
        self.pc = self.pc + 2;
        Ok(hi * 256 + lo)
    }

    /// Pushes a return address; fails when the stack is full.
    fn push(&mut self, value: u16) -> (r: Result<(), Fault>)
        requires
            old(self).wf(),
        ensures
            final(self).wf(),
            old(self)@.sp >= STACK_SIZE ==> r == Err::<(), Fault>(Fault::StackOverflow)
                && final(self)@ == old(self)@,
            old(self)@.sp < STACK_SIZE ==> r is Ok && final(self)@ == (EmuState {
                stack: old(self)@.stack.update(old(self)@.sp as int, value),
                sp: (old(self)@.sp + 1) as u16,
                ..old(self)@
            }),
    {
        if self.sp as usize >= STACK_SIZE {
            return Err(Fault::StackOverflow);
        }
        self.stack.set(self.sp as usize, value);
        self.sp = self.sp + 1;
        Ok(())
    }

    /// Pops the latest return address; fails when the stack is empty.
    fn pop(&mut self) -> (r: Result<u16, Fault>)
        requires
            old(self).wf(),
        ensures
            final(self).wf(),
            old(self)@.sp == 0 ==> r == Err::<u16, Fault>(Fault::StackUnderflow)
                && final(self)@ == old(self)@,
            old(self)@.sp > 0 ==> r == Ok::<u16, Fault>(old(self)@.stack[old(self)@.sp - 1])
                && final(self)@ == (EmuState { sp: (old(self)@.sp - 1) as u16, ..old(self)@ }),
    {
        if self.sp == 0 {
            return Err(Fault::StackUnderflow);
        }
        self.sp = self.sp - 1;
        Ok(self.stack[self.sp as usize])
    }

    /// One timer tick, meant to run once per displayed frame. Returns whether
    /// sound is wanted: the sound timer was nonzero before the tick.
    pub fn timer(&mut self) -> (sound: bool)
        requires
            old(self).wf(),
        ensures
            final(self).wf(),
            final(self)@ == ticked(old(self)@),
            sound == (old(self)@.sound > 0),
    {
        if self.delay_timer > 0 {
            self.delay_timer = self.delay_timer - 1;
        }
        if self.sound_timer > 0 {
            self.sound_timer = self.sound_timer - 1;
            return true;
        }
        false
    }
    /// `FX0A`: stores the lowest pressed key in `Vx`, or rewinds the program
    /// counter so that the same instruction runs again.
    fn wait_key(&mut self, x: u8) -> (r: Result<Step, Fault>)
        requires
            old(self).wf(),
            x < REGISTERS,
        ensures
            final(self).wf(),
            (final(self)@, r) == executed(old(self)@, Instr::WaitKey { x }, 0),
    {
        let mut k: usize = 0;
        while k < KEYPAD_SIZE
            invariant
                self.wf(),
                self@ == old(self)@,
                x < REGISTERS,
                k <= KEYPAD_SIZE,
                first_pressed(self@.keypad, 0) == first_pressed(self@.keypad, k as int),
            decreases KEYPAD_SIZE - k,
        {
            if self.keypad[k] {
                self.registers.set(x as usize, k as u8);
                return Ok(Step::Executed);
            }
            k += 1;
        }
        self.pc = self.pc.wrapping_sub(2);
        Ok(Step::Executed)
    }

    /// `FX55`: copies `V0..=Vx` to memory at `I`.
    fn store_regs(&mut self, x: u8) -> (r: Result<Step, Fault>)
        requires
            old(self).wf(),
            x < REGISTERS,
        ensures
            final(self).wf(),
            (final(self)@, r) == executed(old(self)@, Instr::StoreRegs { x }, 0),
    {
        let base = self.index as usize;
        if base + x as usize + 1 > MEMORY_SIZE {
            return Err(Fault::MemoryFault { address: self.index });
        }
        let ghost s0 = self@;
        let mut k: usize = 0;
        while k <= x as usize
            invariant
                self.wf(),
                s0 == old(self)@,
                base == s0.index,
                base + x + 1 <= MEMORY_SIZE,
                x < REGISTERS,
                k <= x + 1,
                self@ == (EmuState { ram: self@.ram, ..s0 }),
                forall|a: int|
                    0 <= a < MEMORY_SIZE ==> #[trigger] self@.ram[a] == if base <= a < base + k {
                        s0.regs[a - base]
                    } else {
                        s0.ram[a]
                    },
            decreases x + 1 - k,
        {
            let v = self.registers[k];
            self.ram.set(base + k, v);
            k += 1;
        }
        assert(self@.ram =~= Seq::new(
            s0.ram.len(),
            |a: int|
                if s0.index <= a <= s0.index + x {
                    s0.regs[a - s0.index]
                } else {
                    s0.ram[a]
                },
        ));
        Ok(Step::Executed)
    }

    /// `FX65`: copies memory at `I` into `V0..=Vx`.
    fn load_regs(&mut self, x: u8) -> (r: Result<Step, Fault>)
        requires
            old(self).wf(),
            x < REGISTERS,
        ensures
            final(self).wf(),
            (final(self)@, r) == executed(old(self)@, Instr::LoadRegs { x }, 0),
    {
        let base = self.index as usize;
        if base + x as usize + 1 > MEMORY_SIZE {
            return Err(Fault::MemoryFault { address: self.index });
        }
        let ghost s0 = self@;
        let mut k: usize = 0;
        while k <= x as usize
            invariant
                self.wf(),
                s0 == old(self)@,
                base == s0.index,
                base + x + 1 <= MEMORY_SIZE,
                x < REGISTERS,
                k <= x + 1,
                self@ == (EmuState { regs: self@.regs, ..s0 }),
                forall|r: int|
                    0 <= r < REGISTERS ==> #[trigger] self@.regs[r] == if r < k {
                        s0.ram[base + r]
                    } else {
                        s0.regs[r]
                    },
            decreases x + 1 - k,
        {
            let v = self.ram[base + k];
            self.registers.set(k, v);
            k += 1;
        }
        assert(self@.regs =~= Seq::new(
            s0.regs.len(),
            |r: int|
                if r <= x {
                    s0.ram[s0.index + r]
                } else {
                    s0.regs[r]
                },
        ));
        Ok(Step::Executed)
    }

    /// `FX33`: writes the hundreds, tens and ones digits of `Vx` at `I`,
    /// `I + 1` and `I + 2`.
    fn store_bcd(&mut self, x: u8) -> (r: Result<Step, Fault>)
        requires
            old(self).wf(),
            x < REGISTERS,
        ensures
            final(self).wf(),
            (final(self)@, r) == executed(old(self)@, Instr::Bcd { x }, 0),
    {
        let base = self.index as usize;
        if base + 3 > MEMORY_SIZE {
            return Err(Fault::MemoryFault { address: self.index });
        }
        let v = self.registers[x as usize];
        self.ram.set(base, v / 100);
        self.ram.set(base + 1, (v / 10) % 10);
        self.ram.set(base + 2, v % 10);
        Ok(Step::Executed)
    }

    /// `DXYN`: draws the sprite at `I` and sets `VF` to the collision flag.
    fn draw(&mut self, x: u8, y: u8, n: u8) -> (r: Result<Step, Fault>)
        requires
            old(self).wf(),
            x < REGISTERS,
            y < REGISTERS,
            n < 16,
        ensures
            final(self).wf(),
            (final(self)@, r) == executed(old(self)@, Instr::Draw { x, y, n }, 0),
    {
        if n > 0 && self.index as usize + n as usize > MEMORY_SIZE {
            return Err(Fault::MemoryFault { address: self.index });
        }
        let vx = self.registers[x as usize];
        let vy = self.registers[y as usize];
        let hit = draw_sprite(&mut self.display, &self.ram, self.index, vx, vy, n);
        self.registers.set(15, if hit { 1 } else { 0 });
        Ok(Step::Executed)
    }

    /// Sets `Vx = v`, then `VF = flag`.
    fn set_with_flag(&mut self, x: u8, v: u8, flag: u8)
        requires
            old(self).wf(),
            x < REGISTERS,
        ensures
            final(self).wf(),
            final(self)@ == old(self)@.with_reg_flag(x, v, flag),
    {
        self.registers.set(x as usize, v);
        self.registers.set(15, flag);
    }

    /// Moves past the next instruction when `c` holds.
    fn skip_if(&mut self, c: bool)
        ensures
            final(self)@ == old(self)@.skip_if(c),
    {
        if c {
            self.pc = self.pc.wrapping_add(2);
        }
    }

    /// Jumps, calls, skips, the index register, random bytes and drawing.
    fn run_control(&mut self, ins: Instr, rnd: u8) -> (r: Result<Step, Fault>)
        requires
            old(self).wf(),
            operands_in_range(ins),
            ins.is_control(),
        ensures
            final(self).wf(),
            (final(self)@, r) == executed(old(self)@, ins, rnd),
    {
        match ins {
            Instr::Clear => {
                self.display = vec![false; DISPLAY_SIZE];
                assert(self@.display =~= Seq::new(DISPLAY_SIZE as nat, |p: int| false));
            },
            Instr::Return => match self.pop() {
                Ok(a) => self.pc = a,
                Err(e) => return Err(e),
            },
            Instr::Jump { addr } => self.pc = addr,
            Instr::Call { addr } => {
                let here = self.pc;
                match self.push(here) {
                    Ok(()) => self.pc = addr,
                    Err(e) => return Err(e),
                }
            },
            Instr::SkipEqImm { x, nn } => {
                let c = self.registers[x as usize] == nn;
                self.skip_if(c);
            },
            Instr::SkipNeImm { x, nn } => {
                let c = self.registers[x as usize] != nn;
                self.skip_if(c);
            },
            Instr::SkipEqReg { x, y } => {
                let c = self.registers[x as usize] == self.registers[y as usize];
                self.skip_if(c);
            },
            Instr::SkipNeReg { x, y } => {
                let c = self.registers[x as usize] != self.registers[y as usize];
                self.skip_if(c);
            },
            Instr::SetIndex { addr } => self.index = addr,
            Instr::JumpOffset { addr } => self.pc = self.registers[0] as u16 + addr,
            Instr::Random { x, nn } => self.registers.set(x as usize, rnd & nn),
            Instr::Draw { x, y, n } => return self.draw(x, y, n),
            Instr::Unknown { op } => return Ok(Step::Unknown { op }),
            _ => {},
        }
        Ok(Step::Executed)
    }

    /// Register loads and arithmetic.
    fn run_arith(&mut self, ins: Instr, rnd: u8) -> (r: Result<Step, Fault>)
        requires
            old(self).wf(),
            operands_in_range(ins),
            ins.is_arith(),
        ensures
            final(self).wf(),
            (final(self)@, r) == executed(old(self)@, ins, rnd),
    {
        match ins {
            Instr::SetImm { x, nn } => self.registers.set(x as usize, nn),
            Instr::AddImm { x, nn } => {
                let v = self.registers[x as usize].wrapping_add(nn);
                self.registers.set(x as usize, v);
            },
            Instr::Move { x, y } => {
                let v = self.registers[y as usize];
                self.registers.set(x as usize, v);
            },
            Instr::Or { x, y } => {
                let v = self.registers[x as usize] | self.registers[y as usize];
                self.registers.set(x as usize, v);
            },
            Instr::And { x, y } => {
                let v = self.registers[x as usize] & self.registers[y as usize];
                self.registers.set(x as usize, v);
            },
            Instr::Xor { x, y } => {
                let v = self.registers[x as usize] ^ self.registers[y as usize];
                self.registers.set(x as usize, v);
            },
            Instr::AddReg { x, y } => {
                let sum = self.registers[x as usize] as u16 + self.registers[y as usize] as u16;
                self.set_with_flag(x, (sum % 256) as u8, if sum > 255 { 1 } else { 0 });
            },
            Instr::SubReg { x, y } => {
                let a = self.registers[x as usize];
                let b = self.registers[y as usize];
                self.set_with_flag(x, a.wrapping_sub(b), if a >= b { 1 } else { 0 });
            },
            Instr::ShiftRight { x } => {
                let a = self.registers[x as usize];
                self.set_with_flag(x, a / 2, a % 2);
            },
            Instr::SubRev { x, y } => {
                let a = self.registers[y as usize];
                let b = self.registers[x as usize];
                self.set_with_flag(x, a.wrapping_sub(b), if a >= b { 1 } else { 0 });
            },
            Instr::ShiftLeft { x } => {
                let a = self.registers[x as usize];
                self.set_with_flag(x, ((a as u16 * 2) % 256) as u8, a / 128);
            },
            _ => {},
        }
        Ok(Step::Executed)
    }

    /// Keys, timers, and memory transfers through the index register.
    fn run_io(&mut self, ins: Instr, rnd: u8) -> (r: Result<Step, Fault>)
        requires
            old(self).wf(),
            operands_in_range(ins),
            ins.is_io(),
        ensures
            final(self).wf(),
            (final(self)@, r) == executed(old(self)@, ins, rnd),
    {
        match ins {
            Instr::SkipKey { x } => {
                let k = self.registers[x as usize];
                if k as usize >= KEYPAD_SIZE {
                    return Err(Fault::InvalidKey { key: k });
                }
                let c = self.keypad[k as usize];
                self.skip_if(c);
            },
            Instr::SkipNoKey { x } => {
                let k = self.registers[x as usize];
                if k as usize >= KEYPAD_SIZE {
                    return Err(Fault::InvalidKey { key: k });
                }
                let c = !self.keypad[k as usize];
                self.skip_if(c);
            },
            Instr::ReadDelay { x } => self.registers.set(x as usize, self.delay_timer),
            Instr::WaitKey { x } => return self.wait_key(x),
            Instr::SetDelay { x } => self.delay_timer = self.registers[x as usize],
            Instr::SetSound { x } => self.sound_timer = self.registers[x as usize],
            Instr::AddIndex { x } => {
                self.index = self.index.wrapping_add(self.registers[x as usize] as u16);
            },
            Instr::FontGlyph { x } => self.index = self.registers[x as usize] as u16 * 5,
            Instr::Bcd { x } => return self.store_bcd(x),
            Instr::StoreRegs { x } => return self.store_regs(x),
            Instr::LoadRegs { x } => return self.load_regs(x),
            _ => {},
        }
        Ok(Step::Executed)
    }

    /// Carries out one decoded instruction, given the random byte that `CXNN`
    /// uses. A fault leaves the state unchanged.
    fn run(&mut self, ins: Instr, rnd: u8) -> (r: Result<Step, Fault>)
        requires
            old(self).wf(),
            operands_in_range(ins),
        ensures
            final(self).wf(),
            (final(self)@, r) == executed(old(self)@, ins, rnd),
    {
        match ins {
            Instr::SetImm { .. }
            | Instr::AddImm { .. }
            | Instr::Move { .. }
            | Instr::Or { .. }
            | Instr::And { .. }
            | Instr::Xor { .. }
            | Instr::AddReg { .. }
            | Instr::SubReg { .. }
            | Instr::ShiftRight { .. }
            | Instr::SubRev { .. }
            | Instr::ShiftLeft { .. } => self.run_arith(ins, rnd),
            Instr::SkipKey { .. }
            | Instr::SkipNoKey { .. }
            | Instr::ReadDelay { .. }
            | Instr::WaitKey { .. }
            | Instr::SetDelay { .. }
            | Instr::SetSound { .. }
            | Instr::AddIndex { .. }
            | Instr::FontGlyph { .. }
            | Instr::Bcd { .. }
            | Instr::StoreRegs { .. }
            | Instr::LoadRegs { .. } => self.run_io(ins, rnd),
            _ => self.run_control(ins, rnd),
        }
    }

    /// Decodes and carries out the instruction word `op`. `random` is the byte
    /// that `CXNN` masks; every other instruction ignores it. A fault leaves the
    /// state unchanged.
    pub fn execute(&mut self, op: u16, random: u8) -> (r: Result<Step, Fault>)
        requires
            old(self).wf(),
        ensures
            final(self).wf(),
            (final(self)@, r) == executed(old(self)@, decoded(op), random),
    {
        let ins = decode(op);
        self.run(ins, random)
    }

    /// One fetch-decode-execute cycle. The random byte for `CXNN` is drawn
    /// only when that instruction runs; whatever it was, the step is the one
    /// `cycled` describes for it.
    pub fn cycle(&mut self) -> (r: Result<Step, Fault>)
        requires
            old(self).wf(),
        ensures
            final(self).wf(),
            exists|rnd: u8| (final(self)@, r) == cycled(old(self)@, rnd),
            !(can_fetch(old(self)@) && decoded(word_at_pc(old(self)@)) is Random) ==> (
                final(self)@,
                r,
            ) == cycled(old(self)@, 0),
    {
        let op = match self.fetch() {
            Ok(op) => op,
            Err(e) => {
                assert((self@, Err::<Step, Fault>(e)) == cycled(old(self)@, 0));
                return Err(e);
            },
        };
        let ins = decode(op);
        let rnd = if let Instr::Random { .. } = ins {
            random_byte()
        } else {
            0
        };
        let r = self.run(ins, rnd);
        assert((self@, r) == cycled(old(self)@, rnd));
        r
    }
}

} // verus!
