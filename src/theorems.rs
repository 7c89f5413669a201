use vstd::prelude::*;
use crate::instr::{Instr, decoded};
use crate::machine::{
    DISPLAY_SIZE, EmuState, KEYPAD_SIZE, STACK_SIZE, Step, can_fetch, covers, cycled,
    executed, first_pressed, in_memory, ticked, word_at_pc,
};

verus! {

/// `7XNN` adds modulo 256 and leaves every other register, `VF` included,
/// unchanged.
pub proof fn add_immediate_wraps(s: EmuState, x: u8, nn: u8, rnd: u8)
    requires
        s.wf(),
        x < 15,
    ensures
        ({
            let (t, r) = executed(s, Instr::AddImm { x, nn }, rnd);
            &&& r == Ok::<Step, crate::machine::Fault>(Step::Executed)
            &&& t.regs[x as int] == (s.regs[x as int] + nn) % 256
            &&& forall|k: int| 0 <= k < 16 && k != x ==> t.regs[k] == s.regs[k]
        }),
{
}

/// `8XY4` sets `VF` to 1 exactly when the unsigned sum exceeds 255; the sum
/// is kept modulo 256.
pub proof fn add_register_carry(s: EmuState, x: u8, y: u8, rnd: u8)
    requires
        s.wf(),
        x < 16,
        y < 16,
    ensures
        ({
            let (t, r) = executed(s, Instr::AddReg { x, y }, rnd);
            let sum = s.regs[x as int] + s.regs[y as int];
            &&& r is Ok
            &&& (t.regs[15] == 1 <==> sum > 255)
            &&& (t.regs[15] == 0 <==> sum <= 255)
            &&& x != 15 ==> t.regs[x as int] == sum % 256
        }),
{
}

/// `8XY5` computes `Vx - Vy` modulo 256 and sets `VF` to 1 exactly when no
/// borrow occurred.
pub proof fn subtract_borrow(s: EmuState, x: u8, y: u8, rnd: u8)
    requires
        s.wf(),
        x < 16,
        y < 16,
    ensures
        ({
            let (t, r) = executed(s, Instr::SubReg { x, y }, rnd);
            let (a, b) = (s.regs[x as int], s.regs[y as int]);
            &&& r is Ok
            &&& (t.regs[15] == 1 <==> a >= b)
            &&& (t.regs[15] == 0 <==> a < b)
            &&& x != 15 ==> t.regs[x as int] == (a - b) % 256
        }),
{
}

/// `8XY7` computes `Vy - Vx` modulo 256 and sets `VF` to 1 exactly when no
/// borrow occurred.
pub proof fn reverse_subtract_borrow(s: EmuState, x: u8, y: u8, rnd: u8)
    requires
        s.wf(),
        x < 16,
        y < 16,
    ensures
        ({
            let (t, r) = executed(s, Instr::SubRev { x, y }, rnd);
            let (a, b) = (s.regs[y as int], s.regs[x as int]);
            &&& r is Ok
            &&& (t.regs[15] == 1 <==> a >= b)
            &&& (t.regs[15] == 0 <==> a < b)
            &&& x != 15 ==> t.regs[x as int] == (a - b) % 256
        }),
{
}

/// `00E0` turns every display cell off, whatever the display held.
pub proof fn clear_blanks_display(s: EmuState, rnd: u8)
    requires
        s.wf(),
    ensures
        ({
            let (t, r) = executed(s, Instr::Clear, rnd);
            &&& r is Ok
            &&& t.display.len() == DISPLAY_SIZE
            &&& forall|p: int| 0 <= p < DISPLAY_SIZE ==> !t.display[p]
        }),
{
}

/// A `2NNN` call followed by a `00EE` return at its target resumes at the
/// instruction after the call, with the stack as deep as before.
pub proof fn call_then_return(s: EmuState, rnd1: u8, rnd2: u8)
    requires
        s.wf(),
        can_fetch(s),
        decoded(word_at_pc(s)) is Call,
        s.sp < STACK_SIZE,
        can_fetch(cycled(s, rnd1).0),
        word_at_pc(cycled(s, rnd1).0) == 0x00EE,
    ensures
        cycled(s, rnd1).1 == Ok::<Step, crate::machine::Fault>(Step::Executed),
        cycled(cycled(s, rnd1).0, rnd2).1 == Ok::<Step, crate::machine::Fault>(Step::Executed),
        cycled(cycled(s, rnd1).0, rnd2).0.pc == s.pc + 2,
        cycled(cycled(s, rnd1).0, rnd2).0.sp == s.sp,
{
}

/// Drawing a sprite twice at the same place restores the display; the
/// second draw reports a collision exactly when the sprite covers a cell that
/// was off before the first. (`VF` is neither coordinate register.)
pub proof fn draw_twice_restores(s: EmuState, x: u8, y: u8, n: u8, rnd: u8)
    requires
        s.wf(),
        x < 15,
        y < 15,
        n < 16,
        n == 0 || in_memory(s.index, n as int),
    ensures
        ({
            let (s1, r1) = executed(s, Instr::Draw { x, y, n }, rnd);
            let (s2, r2) = executed(s1, Instr::Draw { x, y, n }, rnd);
            &&& r1 is Ok && r2 is Ok
            &&& s2.display == s.display
            &&& (s2.regs[15] == 1 <==> exists|p: int|
                0 <= p < DISPLAY_SIZE && #[trigger] covers(
                    s.ram,
                    s.index,
                    s.regs[x as int],
                    s.regs[y as int],
                    n,
                    p,
                ) && !s.display[p])
        }),
{
    let (s1, r1) = executed(s, Instr::Draw { x, y, n }, rnd);
    let (s2, r2) = executed(s1, Instr::Draw { x, y, n }, rnd);
    assert(s1.regs[x as int] == s.regs[x as int] && s1.regs[y as int] == s.regs[y as int]);
    assert(s2.display =~= s.display);
}

/// The lowest pressed key at or after `k`, if any.
pub proof fn first_pressed_is_lowest(keys: Seq<bool>, k: int)
    requires
        0 <= k,
    ensures
        first_pressed(keys, k) matches Some(j) ==> k <= j < keys.len() && keys[j] && forall|i: int|
            k <= i < j ==> !keys[i],
        first_pressed(keys, k) is None ==> forall|i: int| k <= i < keys.len() ==> !keys[i],
    decreases keys.len() - k,
{
    if k < keys.len() && !keys[k] {
        first_pressed_is_lowest(keys, k + 1);
    }
}

/// `FX0A` with no key down leaves the whole state as it was before the
/// cycle, so the same instruction runs again; with a key down it stores the
/// lowest pressed index in `Vx` and moves on.
pub proof fn wait_key_cycle(s: EmuState, x: u8, rnd: u8)
    requires
        s.wf(),
        can_fetch(s),
        decoded(word_at_pc(s)) == (Instr::WaitKey { x }),
    ensures
        (forall|k: int| 0 <= k < KEYPAD_SIZE ==> !s.keypad[k]) ==> cycled(s, rnd) == (
            s,
            Ok::<Step, crate::machine::Fault>(Step::Executed),
        ),
        (exists|k: int| 0 <= k < KEYPAD_SIZE && s.keypad[k]) ==> ({
            let t = cycled(s, rnd).0;
            let v = t.regs[x as int] as int;
            &&& t.pc == s.pc + 2
            &&& 0 <= v < KEYPAD_SIZE && s.keypad[v]
            &&& forall|i: int| 0 <= i < v ==> !s.keypad[i]
        }),
{
    first_pressed_is_lowest(s.keypad, 0);
    if forall|k: int| 0 <= k < KEYPAD_SIZE ==> !s.keypad[k] {
        assert(first_pressed(s.keypad, 0) is None) by {
            if first_pressed(s.keypad, 0) is Some {
                let j = first_pressed(s.keypad, 0)->0;
                assert(s.keypad[j]);
            }
        }
        assert(cycled(s, rnd).0 == s);
    }
}

/// The random byte matters to `CXNN` alone: every other instruction has the
/// same effect whichever byte is supplied.
pub proof fn random_only_for_cxnn(s: EmuState, ins: Instr, r1: u8, r2: u8)
    requires
        !(ins is Random),
    ensures
        executed(s, ins, r1) == executed(s, ins, r2),
{
}

/// `n` timer ticks in a row.
pub open spec fn ticks(s: EmuState, n: nat) -> EmuState
    decreases n,
{
    if n == 0 {
        s
    } else {
        ticked(ticks(s, (n - 1) as nat))
    }
}

/// Timers count down by one per tick and stop at zero; nothing else changes.
pub proof fn timers_floor_at_zero(s: EmuState, n: nat)
    ensures
        ticks(s, n).delay == if s.delay >= n { s.delay - n } else { 0 },
        ticks(s, n).sound == if s.sound >= n { s.sound - n } else { 0 },
        ticks(s, n) == (EmuState { delay: ticks(s, n).delay, sound: ticks(s, n).sound, ..s }),
    decreases n,
{
    if n > 0 {
        timers_floor_at_zero(s, (n - 1) as nat);
    }
}

} // verus!
