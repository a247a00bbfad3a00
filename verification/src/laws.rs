//! Laws of the machine that tie several operations together, each proved
//! from the transition predicates the operations' contracts state.

use vstd::prelude::*;

use crate::display::sprite_collides;
use crate::display::sprite_covers;
use crate::display::sprite_drawn;
use crate::instruction::Opcode;
use crate::instruction::decode;
use crate::state::Chip8State;
use crate::state::spec_call;
use crate::state::spec_key_down;
use crate::state::spec_return;
use crate::state::word_at;

verus! {

broadcast use vstd::array::group_array_axioms;

/// XOR-plotting is its own inverse: drawing the same sprite twice at the
/// same coordinates restores every pixel, and the second draw reports a
/// collision exactly when the first draw turned some covered pixel on —
/// that is, when some covered, in-bounds sprite bit found its pixel off.
pub proof fn lemma_draw_twice_restores(p: Seq<bool>, col: int, row: int, sprite: Seq<u8>)
    requires
        p.len() == 2048,
    ensures
        sprite_drawn(sprite_drawn(p, col, row, sprite), col, row, sprite) == p,
        sprite_collides(sprite_drawn(p, col, row, sprite), col, row, sprite) <==> exists|k: int|
            0 <= k < p.len() && sprite_covers(col, row, sprite, k % 64, k / 64) && !p[k],
{
    let q = sprite_drawn(p, col, row, sprite);
    assert forall|k: int| 0 <= k < 2048 implies #[trigger] sprite_drawn(q, col, row, sprite)[k]
        == p[k] by {}
    assert(sprite_drawn(q, col, row, sprite) =~= p);
    if sprite_collides(q, col, row, sprite) {
        let k = choose|k: int|
            0 <= k < q.len() && sprite_covers(col, row, sprite, k % 64, k / 64) && q[k];
        assert(q[k] == !p[k]);
        assert(sprite_covers(col, row, sprite, k % 64, k / 64) && !p[k]);
    }
    if exists|k: int| 0 <= k < p.len() && sprite_covers(col, row, sprite, k % 64, k / 64) && !p[k] {
        let k = choose|k: int|
            0 <= k < p.len() && sprite_covers(col, row, sprite, k % 64, k / 64) && !p[k];
        assert(q[k]);
        assert(sprite_collides(q, col, row, sprite));
    }
}

/// A suspended engine stalls: executing while the current instruction is
/// wait-key leaves the whole state unchanged but for the recorded wait,
/// and the same wait-key instruction stays current.
pub proof fn lemma_wait_key_stalls(s: Chip8State, t: Chip8State, x: u8)
    requires
        decode(s.spec_word()) == Some(Opcode::WaitKey { x }),
        s.steps_to(t),
    ensures
        t == (Chip8State { waiting_for_key: t.waiting_for_key, ..s }),
        t.waiting_for_key == Some(x),
        t.spec_word() == s.spec_word(),
{
}

/// Stalling twice is still stalling: executing twice in a row from a
/// wait-key instruction, with no key event in between, leaves the
/// program counter and every register unchanged and the wait recorded.
pub proof fn lemma_wait_key_stalls_again(s: Chip8State, t: Chip8State, u: Chip8State, x: u8)
    requires
        decode(s.spec_word()) == Some(Opcode::WaitKey { x }),
        s.steps_to(t),
        t.steps_to(u),
    ensures
        u.pc == s.pc,
        u.reg == s.reg,
        u.waiting_for_key == Some(x),
{
    lemma_wait_key_stalls(s, t, x);
    lemma_wait_key_stalls(t, u, x);
}

/// A key press resolves a pending wait: when the engine awaits a key for
/// register `x`, pressing `key` stores `key` in `Vx`, advances the
/// program counter by 2, and clears the wait.
pub proof fn lemma_press_resolves_wait(s: Chip8State, t: Chip8State, key: u8, x: u8)
    requires
        x < 16,
        s.waiting_for_key == Some(x),
        spec_key_down(s, t, key),
    ensures
        t.reg@[x as int] == key,
        t.pc == s.pc + 2,
        t.waiting_for_key is None,
{
}

/// Call followed immediately by return restores the prior program
/// position: the return address round-trips through the in-memory stack,
/// so the program counter comes back to the instruction after the call
/// and the stack pointer returns to its prior value.
pub proof fn lemma_call_return_round_trip(
    s: Chip8State,
    t: Chip8State,
    u: Chip8State,
    nnn: u16,
)
    requires
        s.sp + 3 < 4096,
        s.pc + 2 <= 0xFFFF,
        spec_call(s, t, nnn),
        spec_return(t, u),
    ensures
        u.pc == s.pc + 2,
        u.sp == s.sp,
        u == (Chip8State { ram: u.ram, sp: u.sp, pc: u.pc, ..s }),
{
    let ret = s.pc + 2;
    assert(t.ram@[t.sp as int] == (ret / 256) as u8);
    assert(t.ram@[t.sp + 1] == (ret % 256) as u8);
    assert(word_at(t.ram@, t.sp as int) == ((ret / 256) * 256 + ret % 256) as u16);
    assert(ret / 256 * 256 + ret % 256 == ret);
}

} // verus!
