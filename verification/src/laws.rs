//! What holds of the instructions taken together.

use vstd::prelude::*;
use crate::cpu::{initial, FONT};
use crate::dispatch::lemma_sprite_bit_is_bit;
use crate::fault::Fault;
use crate::model::Machine;

verus! {

/// A call moves the stack pointer up by one and leaves the target in the
/// slot that the pointer then names. The return that follows brings the
/// stack pointer back to where it stood, and takes the program counter from
/// the slot that the pointer named before the call.
pub proof fn lemma_call_then_ret(m: Machine, nnn: u16)
    requires
        m.shaped(),
        m.sp < 15,
    ensures
        m.call(nnn).sp == m.sp + 1,
        m.call(nnn).stack[m.call(nnn).sp as int] == nnn,
        m.call(nnn).pc == nnn,
        m.call(nnn).ret().sp == m.sp,
        m.call(nnn).ret().pc == m.stack[m.sp as int],
{
}

/// Where the slot that the stack pointer names holds the program counter, a
/// call followed by a return brings both the stack pointer and the program
/// counter back to where they stood.
pub proof fn lemma_call_then_ret_restores(m: Machine, nnn: u16)
    requires
        m.shaped(),
        m.sp < 15,
        m.stack[m.sp as int] == m.pc,
    ensures
        m.call(nnn).ret().sp == m.sp,
        m.call(nnn).ret().pc == m.pc,
{
}

/// Drawing the same sprite twice at the same place, where the first draw
/// meets no collision, leaves every cell that the sprite touches clear and
/// every other cell as it was. The first draw leaves the flag at 0; the
/// second raises it exactly when the sprite has a set bit within the grid.
pub proof fn lemma_draw_twice_clears(m: Machine, x: u8, y: u8, n: u8)
    requires
        m.shaped(),
        !m.collides(x, y, n),
    ensures
        forall|p: int| #[trigger]
            m.touches(x, y, n, p) ==> m.draw(x, y, n).draw(x, y, n).buf[p] == 0,
        forall|p: int|
            0 <= p < 2048 && !#[trigger] m.touches(x, y, n, p) ==> m.draw(x, y, n).draw(
                x,
                y,
                n,
            ).buf[p] == m.buf[p],
        m.draw(x, y, n).vf == 0,
        m.draw(x, y, n).draw(x, y, n).vf == 1 <==> exists|p: int| #[trigger]
            m.touches(x, y, n, p) && m.incoming(x, y, p) == 1,
{
    let once = m.draw(x, y, n);
    let twice = once.draw(x, y, n);
    assert forall|p: int| #[trigger] m.touches(x, y, n, p) implies once.buf[p] == m.incoming(
        x,
        y,
        p,
    ) && m.incoming(x, y, p) <= 1 && once.incoming(x, y, p) == m.incoming(x, y, p)
        && once.touches(x, y, n, p) by {
        let col = p % 64 - m.sprite_left(x);
        lemma_sprite_bit_is_bit(m.mem[m.i_reg + (p / 64 - m.sprite_top(y))], col as u8);
        assert(!m.collides_at(x, y, n, p));
    }
    assert forall|p: int| #[trigger] m.touches(x, y, n, p) implies twice.buf[p] == 0 by {
        assert(once.touches(x, y, n, p));
    }
    assert forall|p: int| 0 <= p < 2048 && !#[trigger] m.touches(x, y, n, p) implies twice.buf[p]
        == m.buf[p] by {
        assert(!once.touches(x, y, n, p));
    }
    if once.collides(x, y, n) {
        let p = choose|p: int| #[trigger] once.collides_at(x, y, n, p);
        assert(m.touches(x, y, n, p) && m.incoming(x, y, p) == 1);
    }
    if exists|p: int| #[trigger] m.touches(x, y, n, p) && m.incoming(x, y, p) == 1 {
        let p = choose|p: int| #[trigger] m.touches(x, y, n, p) && m.incoming(x, y, p) == 1;
        assert(once.collides_at(x, y, n, p));
    }
}

/// Nibbles that name no instruction are reported, all four of them, and the
/// state stays as it was; nibbles that name one are never reported so.
pub proof fn lemma_unknown_opcode_reported(
    m: Machine,
    n0: u8,
    n1: u8,
    n2: u8,
    n3: u8,
    random: u8,
    reading: Option<u128>,
)
    ensures
        !Machine::names_instruction(n0, n1, n2, n3) ==> m.execute(n0, n1, n2, n3, random, reading)
            == (m, Err::<(), Fault>(Fault::UnknownOpcode(n0, n1, n2, n3))),
        Machine::names_instruction(n0, n1, n2, n3) ==> m.execute(
            n0,
            n1,
            n2,
            n3,
            random,
            reading,
        ).1 != Err::<(), Fault>(Fault::UnknownOpcode(n0, n1, n2, n3)),
{
}

/// An instruction that fails leaves the state that it was executed in
/// untouched.
pub proof fn lemma_fault_changes_nothing(
    m: Machine,
    n0: u8,
    n1: u8,
    n2: u8,
    n3: u8,
    random: u8,
    reading: Option<u128>,
)
    ensures
        m.execute(n0, n1, n2, n3, random, reading).1 is Err ==> m.execute(
            n0,
            n1,
            n2,
            n3,
            random,
            reading,
        ).0 == m,
{
}

/// A cycle whose instruction is unknown reports its four nibbles and moves
/// the program counter past it; nothing else changes.
pub proof fn lemma_step_on_unknown_opcode(m: Machine, random: u8, reading: Option<u128>)
    requires
        m.shaped(),
        m.pc + 1 < 4096,
        !Machine::names_instruction(
            m.mem[m.pc as int] / 16,
            m.mem[m.pc as int] % 16,
            m.mem[m.pc + 1] / 16,
            m.mem[m.pc + 1] % 16,
        ),
    ensures
        m.step(random, reading) == (
            m.with_pc((m.pc + 2) as u16),
            Err::<(), Fault>(
                Fault::UnknownOpcode(
                    m.mem[m.pc as int] / 16,
                    m.mem[m.pc as int] % 16,
                    m.mem[m.pc + 1] / 16,
                    m.mem[m.pc + 1] % 16,
                ),
            ),
        ),
{
}

/// No instruction writes slot 0 of the stack: a call moves the stack
/// pointer up before it writes.
pub proof fn lemma_slot_zero_is_never_written(
    m: Machine,
    n0: u8,
    n1: u8,
    n2: u8,
    n3: u8,
    random: u8,
    reading: Option<u128>,
)
    requires
        m.wf(),
    ensures
        m.execute(n0, n1, n2, n3, random, reading).0.stack[0] == m.stack[0],
{
}

/// A machine that has executed nothing satisfies the invariant, holds the
/// glyph table at addresses 0x50 to 0x9F and the program from 0x200 on.
pub proof fn lemma_initial_state(program: Seq<u8>)
    requires
        program.len() <= 4096 - 0x200,
    ensures
        initial(program).wf(),
        forall|k: int| 0 <= k < 80 ==> #[trigger] initial(program).mem[0x50 + k] == FONT@[k],
        forall|k: int|
            0 <= k < program.len() ==> #[trigger] initial(program).mem[0x200 + k] == program[k],
{
}

} // verus!
