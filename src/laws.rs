use vstd::prelude::*;
use crate::display::blank_screen;
use crate::instruction::Instruction;
use crate::state::{wrap16, CpuState};

verus! {

/// Adding `Vy` to `Vx` sets VF to 1 exactly when the unsigned sum exceeds 255,
/// and leaves the sum modulo 256 in `Vx` (unless `Vx` is VF itself, which the
/// flag overwrites).
pub proof fn law_add_carry(s: CpuState, x: u8, y: u8, r: u8)
    requires
        s.wf(),
        x < 16,
        y < 16,
    ensures
        s.execute(Instruction::AddVyToVx { x, y }, r).v[15] == (if s.reg(x) as u16 + s.reg(y) as u16
            > 255 {
            1u8
        } else {
            0u8
        }),
        x != 15 ==> s.execute(Instruction::AddVyToVx { x, y }, r).v[x as int] == (s.reg(x) + s.reg(
            y,
        )) % 256,
{
}

/// Subtracting sets VF to 1 exactly when there is no borrow: `Vx >= Vy` for
/// `Vx - Vy`, and `Vy >= Vx` for `Vy - Vx`.
pub proof fn law_sub_no_borrow(s: CpuState, x: u8, y: u8, r: u8)
    requires
        s.wf(),
        x < 16,
        y < 16,
    ensures
        s.execute(Instruction::SubVyFromVx { x, y }, r).v[15] == (if s.reg(x) >= s.reg(y) {
            1u8
        } else {
            0u8
        }),
        s.execute(Instruction::SubVxFromVy { x, y }, r).v[15] == (if s.reg(y) >= s.reg(x) {
            1u8
        } else {
            0u8
        }),
{
}

/// Shifting right leaves bit 0 of the source `Vy` in VF; shifting left leaves
/// bit 7 of it there.
pub proof fn law_shift_out_bit(s: CpuState, x: u8, y: u8, r: u8)
    requires
        s.wf(),
        x < 16,
        y < 16,
    ensures
        s.execute(Instruction::ShiftRight { x, y }, r).v[15] == s.reg(y) & 1,
        s.execute(Instruction::ShiftLeft { x, y }, r).v[15] == (s.reg(y) >> 7u8) & 1,
{
    let vy = s.reg(y);
    assert(vy & 1 == vy % 2 && (vy >> 7u8) & 1 == vy / 128) by (bit_vector);
}

/// OR, AND and XOR always leave VF at 0, whatever it held before.
pub proof fn law_logic_clears_flag(s: CpuState, x: u8, y: u8, r: u8)
    requires
        s.wf(),
        x < 16,
        y < 16,
    ensures
        s.execute(Instruction::Or { x, y }, r).v[15] == 0,
        s.execute(Instruction::And { x, y }, r).v[15] == 0,
        s.execute(Instruction::Xor { x, y }, r).v[15] == 0,
{
}

/// Drawing the same sprite at the same place twice, with nothing in between,
/// gives back the screen as it was before the first draw; the second draw
/// reports a collision exactly when the first one lit some pixel, that is when
/// the sprite covers a pixel that was off. (When `Vx` or `Vy` is VF the first
/// draw's flag moves the sprite, so those registers are left out.)
pub proof fn law_draw_twice_restores(s: CpuState, x: u8, y: u8, n: u8, r: u8)
    requires
        s.wf(),
        x < 15,
        y < 15,
        n < 16,
    ensures
        ({
            let once = s.execute(Instruction::Draw { x, y, n }, r);
            let twice = once.execute(Instruction::Draw { x, y, n }, r);
            let x0 = s.reg(x) as int % 64;
            let y0 = s.reg(y) as int % 32;
            &&& twice.screen == s.screen
            &&& twice.v[15] == 1 <==> exists|px: int, py: int|
                0 <= px < 64 && 0 <= py < 32 && #[trigger] s.sprite_covers(x0, y0, n as int, px, py)
                    && s.screen[py][px] == 0
        }),
{
    reveal(CpuState::draw);
    let once = s.execute(Instruction::Draw { x, y, n }, r);
    let twice = once.execute(Instruction::Draw { x, y, n }, r);
    let x0 = s.reg(x) as int % 64;
    let y0 = s.reg(y) as int % 32;
    let ni = n as int;
    assert(once.reg(x) == s.reg(x) && once.reg(y) == s.reg(y));
    assert forall|px: int, py: int|
        0 <= px < 64 && 0 <= py < 32 implies #[trigger] once.sprite_covers(x0, y0, ni, px, py)
        == s.sprite_covers(x0, y0, ni, px, py) by {}
    assert forall|py: int| 0 <= py < 32 implies twice.screen[py] =~= s.screen[py] by {
        assert forall|px: int| 0 <= px < 64 implies twice.screen[py][px] == s.screen[py][px] by {
            assert(once.sprite_covers(x0, y0, ni, px, py) == s.sprite_covers(x0, y0, ni, px, py));
        }
    }
    assert(twice.screen =~= s.screen);
    if once.collides(x0, y0, ni) {
        let (wx, wy) = choose|wx: int, wy: int|
            0 <= wx < 64 && 0 <= wy < 32 && #[trigger] once.sprite_covers(x0, y0, ni, wx, wy)
                && once.screen[wy][wx] == 1;
        assert(s.sprite_covers(x0, y0, ni, wx, wy) && s.screen[wy][wx] == 0);
    }
    if exists|px: int, py: int|
        0 <= px < 64 && 0 <= py < 32 && #[trigger] s.sprite_covers(x0, y0, ni, px, py)
            && s.screen[py][px] == 0 {
        let (wx, wy) = choose|wx: int, wy: int|
            0 <= wx < 64 && 0 <= wy < 32 && #[trigger] s.sprite_covers(x0, y0, ni, wx, wy)
                && s.screen[wy][wx] == 0;
        assert(once.sprite_covers(x0, y0, ni, wx, wy) && once.screen[wy][wx] == 1);
    }
}

/// Clearing the screen after any draw leaves every pixel off.
pub proof fn law_clear_after_draw(s: CpuState, x: u8, y: u8, n: u8, r: u8)
    requires
        s.wf(),
        x < 16,
        y < 16,
        n < 16,
    ensures
        s.execute(Instruction::Draw { x, y, n }, r).execute(Instruction::ClearScreen, r).screen
            == blank_screen(),
{
}

/// The state after running the same instruction `count` times.
pub open spec fn repeat(s: CpuState, ins: Instruction, count: nat) -> CpuState
    decreases count,
{
    if count == 0 {
        s
    } else {
        repeat(s.execute(ins, 0), ins, (count - 1) as nat)
    }
}

/// The keypad with key `k` held or released.
pub open spec fn with_key(s: CpuState, k: u8, down: bool) -> CpuState {
    CpuState { keys: s.keys.update(k as int, down), ..s }
}

/// A wait-for-key instruction that has latched no key, while no key is held,
/// changes nothing, however often it runs: the program counter stays put.
pub proof fn law_wait_idle(s: CpuState, x: u8, count: nat)
    requires
        s.wf(),
        x < 16,
        s.waiting is None,
        forall|k: int| 0 <= k < 16 ==> !s.keys[k],
    ensures
        repeat(s, Instruction::WaitForKey { x }, count) == s,
    decreases count,
{
    reveal(CpuState::wait_for_key);
    assert(s.lowest_pressed() is None);
    if count > 0 {
        law_wait_idle(s, x, (count - 1) as nat);
    }
}

/// A wait-for-key instruction that has latched a key which is still held
/// changes nothing, however often it runs.
pub proof fn law_wait_held(s: CpuState, x: u8, count: nat)
    requires
        s.wf(),
        x < 16,
        s.waiting matches Some(k) && s.keys[k as int],
    ensures
        repeat(s, Instruction::WaitForKey { x }, count) == s,
    decreases count,
{
    reveal(CpuState::wait_for_key);
    if count > 0 {
        law_wait_held(s, x, (count - 1) as nat);
    }
}

/// Waiting for a key, from no key held: after any number of idle runs, a press
/// of key `k`, any number of runs with it held and its release, the next run
/// writes `k` to `Vx` and moves the program counter on by exactly 2.
pub proof fn law_wait_press_release(s: CpuState, x: u8, k: u8, idle: nat, held: nat)
    requires
        s.wf(),
        x < 16,
        k < 16,
        s.waiting is None,
        forall|j: int| 0 <= j < 16 ==> !s.keys[j],
    ensures
        ({
            let ins = Instruction::WaitForKey { x };
            let waited = repeat(s, ins, idle);
            let latched = with_key(waited, k, true).execute(ins, 0);
            let kept = repeat(latched, ins, held);
            let done = with_key(kept, k, false).execute(ins, 0);
            &&& waited.pc == s.pc
            &&& latched.pc == s.pc
            &&& kept.pc == s.pc
            &&& done.v[x as int] == k
            &&& done.pc == wrap16(s.pc + 2)
            &&& done.waiting is None
        }),
{
    reveal(CpuState::wait_for_key);
    let ins = Instruction::WaitForKey { x };
    law_wait_idle(s, x, idle);
    let pressed = with_key(s, k, true);
    assert(pressed.is_lowest_pressed(k as int));
    let c = choose|c: int| pressed.is_lowest_pressed(c);
    assert(c == k);
    let latched = pressed.execute(ins, 0);
    assert(latched == CpuState { waiting: Some(k), ..pressed });
    law_wait_held(latched, x, held);
}

/// A timer after `count` ticks.
pub open spec fn ticks(t: u8, count: nat) -> u8
    decreases count,
{
    if count == 0 {
        t
    } else {
        ticks(CpuState::tick(t), (count - 1) as nat)
    }
}

/// Ticking a timer never takes it below zero: after `count` ticks from `t` it
/// holds `t - count`, or 0 once `count` reaches `t`, and stays there.
pub proof fn law_timer_floor(t: u8, count: nat)
    ensures
        ticks(t, count) == if count >= t {
            0
        } else {
            t - count
        },
    decreases count,
{
    if count > 0 {
        law_timer_floor(CpuState::tick(t), (count - 1) as nat);
    }
}

} // verus!
