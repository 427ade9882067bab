//! The cycle of the machine: fetch, advance, decode, execute.

use vstd::prelude::*;
use crate::cpu::CPU;
use crate::fault::Fault;
use crate::model::{Machine, sprite_bit, USE_NEW_SHIFTING_CONVENTIONS};
use crate::clock::now_ms;
use crate::entropy::random_byte;

verus! {

/// Every sprite bit is 0 or 1.
pub proof fn lemma_sprite_bit_is_bit(row: u8, col: u8)
    requires
        col < 8,
    ensures
        sprite_bit(row, col) <= 1,
{
    assert((row >> ((7 - col) as u8)) & 1 <= 1) by (bit_vector);
}

/// Drawing keeps the invariant: every cell of the grid still holds 0 or 1,
/// and the stack pointer does not move.
pub proof fn lemma_draw_keeps_wf(m: Machine, x: u8, y: u8, n: u8)
    requires
        m.wf(),
    ensures
        m.draw(x, y, n).wf(),
{
    let d = m.draw(x, y, n);
    assert forall|p: int| 0 <= p < 2048 implies #[trigger] d.buf[p] <= 1 by {
        if m.touches(x, y, n, p) {
            let col = p % 64 - m.sprite_left(x);
            lemma_sprite_bit_is_bit(m.mem[m.i_reg + (p / 64 - m.sprite_top(y))], col as u8);
        }
    }
}

/// Executing an instruction keeps the invariant, whether it succeeds or
/// fails, whatever comes from outside.
pub proof fn lemma_execute_keeps_wf(
    m: Machine,
    n0: u8,
    n1: u8,
    n2: u8,
    n3: u8,
    random: u8,
    reading: Option<u128>,
)
    requires
        m.wf(),
        n1 < 16,
        n2 < 16,
    ensures
        m.execute(n0, n1, n2, n3, random, reading).0.wf(),
{
    lemma_draw_keeps_wf(m, n1, n2, n3);
}

/// A cycle keeps the invariant, whether it succeeds or fails.
pub proof fn lemma_step_keeps_wf(m: Machine, random: u8, reading: Option<u128>)
    requires
        m.wf(),
    ensures
        m.step(random, reading).0.wf(),
{
    if m.pc + 1 < 4096 {
        let hi = m.mem[m.pc as int];
        let lo = m.mem[m.pc + 1];
        lemma_execute_keeps_wf(
            m.with_pc((m.pc + 2) as u16),
            hi / 16,
            hi % 16,
            lo / 16,
            lo % 16,
            random,
            reading,
        );
    }
}

/// A run keeps the invariant, however long it is and however it ends.
pub proof fn lemma_run_keeps_wf(m: Machine, outside: Seq<(u8, Option<u128>)>)
    requires
        m.wf(),
    ensures
        m.run(outside).0.wf(),
    decreases outside.len(),
{
    if outside.len() > 0 {
        lemma_run_keeps_wf(m, outside.drop_last());
        let before = m.run(outside.drop_last());
        if before.1 is Ok {
            lemma_step_keeps_wf(before.0, outside.last().0, outside.last().1);
        }
    }
}

impl CPU {
    /// Executes the instruction whose four nibbles are given, with what the
    /// instruction may need from outside handed in: `random` for `Cxnn`,
    /// `reading` for the timer instructions. The program counter must
    /// already stand past the instruction. On a fault the machine is left
    /// unchanged.
    pub fn execute_with(
        &mut self,
        n0: u8,
        n1: u8,
        n2: u8,
        n3: u8,
        random: u8,
        reading: Option<u128>,
    ) -> (r: Result<(), Fault>)
        requires
            old(self).wf(),
            n0 < 16,
            n1 < 16,
            n2 < 16,
            n3 < 16,
        ensures
            (final(self)@, r) == old(self)@.execute(n0, n1, n2, n3, random, reading),
            final(self).wf(),
    {
        proof {
            lemma_execute_keeps_wf(self@, n0, n1, n2, n3, random, reading);
        }
        let nnn: u16 = self.to_nnn(n1, n2, n3);
        let nn: u8 = (n2 << 4) | n3;
        assert(n2 < 16 && n3 < 16 ==> ((n2 << 4) | n3) == n2 * 16 + n3) by (bit_vector);
        let x: u8 = n1;
        let y: u8 = n2;
        match (n0, n1, n2, n3) {
            (0x0, 0x0, 0xE, 0x0) => {
                self.cls00e0();
                Ok(())
            },
            (0x0, 0x0, 0xE, 0xE) => {
                if self.sp == 0 {
                    Err(Fault::StackUnderflow)
                } else {
                    self.ret00ee();
                    Ok(())
                }
            },
            (0x1, _, _, _) => {
                self.jp1nnn(nnn);
                Ok(())
            },
            (0x2, _, _, _) => {
                if self.sp >= 15 {
                    Err(Fault::StackOverflow)
                } else {
                    self.call2nnn(nnn);
                    Ok(())
                }
            },
            (0x3, _, _, _) => {
                if self.registers[x as usize] == nn && self.pc > 0xFFFD {
                    Err(Fault::MemoryOutOfBounds(self.pc))
                } else {
                    self.se3xnn(x, nn);
                    Ok(())
                }
            },
            (0x4, _, _, _) => {
                if self.registers[x as usize] != nn && self.pc > 0xFFFD {
                    Err(Fault::MemoryOutOfBounds(self.pc))
                } else {
                    self.sne4xnn(x, nn);
                    Ok(())
                }
            },
            (0x5, _, _, 0x0) => {
                if self.registers[x as usize] == self.registers[y as usize] && self.pc > 0xFFFD {
                    Err(Fault::MemoryOutOfBounds(self.pc))
                } else {
                    self.se5xy0(x, y);
                    Ok(())
                }
            },
            (0x6, _, _, _) => {
                self.set6xnn(x, nn);
                Ok(())
            },
            (0x7, _, _, _) => {
                self.add7xnn(x, nn);
                Ok(())
            },
            (0x8, _, _, 0x0) => {
                self.ld8xy0(x, y);
                Ok(())
            },
            (0x8, _, _, 0x1) => {
                self.or8xy1(x, y);
                Ok(())
            },
            (0x8, _, _, 0x2) => {
                self.and8xy2(x, y);
                Ok(())
            },
            (0x8, _, _, 0x3) => {
                self.xor8xy3(x, y);
                Ok(())
            },
            (0x8, _, _, 0x4) => {
                self.add8xy4(x, y);
                Ok(())
            },
            (0x8, _, _, 0x5) => {
                self.sub8xy5(x, y);
                Ok(())
            },
            (0x8, _, _, 0x6) => {
                if USE_NEW_SHIFTING_CONVENTIONS {
                    self.shr8xy6_usex(x, y);
                } else {
                    self.shr8xy6_usey(x, y);
                }
                Ok(())
            },
            (0x8, _, _, 0x7) => {
                self.sub8xy7(x, y);
                Ok(())
            },
            (0x8, _, _, 0xE) => {
                if USE_NEW_SHIFTING_CONVENTIONS {
                    self.shl8xye_usex(x, y);
                } else {
                    self.shl8xye_usey(x, y);
                }
                Ok(())
            },
            (0x9, _, _, 0x0) => {
                if self.registers[x as usize] != self.registers[y as usize] && self.pc > 0xFFFD {
                    Err(Fault::MemoryOutOfBounds(self.pc))
                } else {
                    self.sne9xy0(x, y);
                    Ok(())
                }
            },
            (0xA, _, _, _) => {
                self.setannn(nnn);
                Ok(())
            },
            (0xB, _, _, _) => {
                self.jpbnnn(nnn);
                Ok(())
            },
            (0xC, _, _, _) => {
                self.rndcxnn_with(x, nn, random);
                Ok(())
            },
            (0xD, _, _, _) => {
                if self.i_reg as usize + n3 as usize > 4096 {
                    Err(Fault::MemoryOutOfBounds(self.i_reg))
                } else if (self.registers[y as usize] % 32) as usize + n3 as usize > 32 {
                    Err(Fault::PixelOutOfBounds)
                } else {
                    self.drwdxyn(x, y, n3);
                    Ok(())
                }
            },
            (0xE, _, 0x9, 0xE) => self.skpex9e(),
            (0xE, _, 0xA, 0x1) => self.skpexa1(),
            (0xF, _, 0x0, 0x7) => self.ldfx07_on(x, reading),
            (0xF, _, 0x1, 0x5) => self.ldfx15_on(x, reading),
            (0xF, _, 0x1, 0x8) => self.ldfx18_on(x, reading),
            (0xF, _, 0x1, 0xE) => {
                if self.i_reg as u32 + self.registers[x as usize] as u32 > 0xFFFF {
                    Err(Fault::IndexOverflow)
                } else {
                    self.addfx1e(x);
                    Ok(())
                }
            },
            (0xF, _, 0x2, 0x9) => {
                self.ldfx29(x);
                Ok(())
            },
            (0xF, _, 0x3, 0x3) => {
                if self.i_reg as usize + 2 >= 4096 {
                    Err(Fault::MemoryOutOfBounds(self.i_reg))
                } else {
                    self.ldfx33(x);
                    Ok(())
                }
            },
            (0xF, _, 0x5, 0x5) => {
                if self.i_reg as usize + x as usize >= 4096 {
                    Err(Fault::MemoryOutOfBounds(self.i_reg))
                } else {
                    self.ldfx55(x);
                    Ok(())
                }
            },
            (0xF, _, 0x6, 0x5) => {
                if self.i_reg as usize + x as usize >= 4096 {
                    Err(Fault::MemoryOutOfBounds(self.i_reg))
                } else {
                    self.ldfx65(x);
                    Ok(())
                }
            },
            (a, b, c, d) => Err(Fault::UnknownOpcode(a, b, c, d)),
        }
    }

    /// Whether the instruction named by the nibbles looks at anything but
    /// the machine: a random byte or the clock.
    pub fn reads_outside(n0: u8, n2: u8, n3: u8) -> (b: bool)
        ensures
            b == Machine::reads_outside(n0, n2, n3),
    {
        n0 == 0xC || (n0 == 0xF && ((n2 == 0x0 && n3 == 0x7) || (n2 == 0x1 && (n3 == 0x5 || n3
            == 0x8))))
    }

    /// Executes the instruction whose four nibbles are given, drawing a
    /// random byte or reading the clock where the instruction asks for one.
    /// What is drawn or read is left open; an instruction that asks for
    /// neither is executed exactly as the table says.
    pub fn execute(&mut self, n0: u8, n1: u8, n2: u8, n3: u8) -> (r: Result<(), Fault>)
        requires
            old(self).wf(),
            n0 < 16,
            n1 < 16,
            n2 < 16,
            n3 < 16,
        ensures
            exists|random: u8, reading: Option<u128>|
                (final(self)@, r) == #[trigger] old(self)@.execute(
                    n0,
                    n1,
                    n2,
                    n3,
                    random,
                    reading,
                ),
            !Machine::reads_outside(n0, n2, n3) ==> (final(self)@, r) == old(self)@.execute(
                n0,
                n1,
                n2,
                n3,
                0,
                None,
            ),
            final(self).wf(),
    {
        let random: u8 = if n0 == 0xC {
            random_byte()
        } else {
            0
        };
        let reading: Option<u128> = if Self::reads_outside(n0, n2, n3) && n0 == 0xF {
            now_ms()
        } else {
            None
        };
        self.execute_with(n0, n1, n2, n3, random, reading)
    }

    /// One cycle with what it may need from outside handed in: fetches the
    /// instruction at the program counter, moves the counter past it, and
    /// executes it.
    pub fn step_with(&mut self, random: u8, reading: Option<u128>) -> (r: Result<(), Fault>)
        requires
            old(self).wf(),
        ensures
            (final(self)@, r) == old(self)@.step(random, reading),
            final(self).wf(),
    {
        if self.pc as usize + 1 >= 4096 {
            return Err(Fault::MemoryOutOfBounds(self.pc));
        }
        let instruction: (u8, u8, u8, u8) = self.decode(
            self.mem[self.pc as usize],
            self.mem[self.pc as usize + 1],
        );
        self.pc += 2;
        self.execute_with(instruction.0, instruction.1, instruction.2, instruction.3, random, reading)
    }

    /// One cycle: fetches the instruction at the program counter, moves the
    /// counter past it, and executes it.
    pub fn step(&mut self) -> (r: Result<(), Fault>)
        requires
            old(self).wf(),
        ensures
            exists|random: u8, reading: Option<u128>|
                (final(self)@, r) == #[trigger] old(self)@.step(random, reading),
            !old(self)@.next_reads_outside() ==> (final(self)@, r) == old(self)@.step(0, None),
            final(self).wf(),
    {
        if self.pc as usize + 1 >= 4096 {
            assert((self@, Err::<(), Fault>(Fault::MemoryOutOfBounds(self.pc))) == self@.step(
                0,
                None,
            ));
            return Err(Fault::MemoryOutOfBounds(self.pc));
        }
        let instruction: (u8, u8, u8, u8) = self.decode(
            self.mem[self.pc as usize],
            self.mem[self.pc as usize + 1],
        );
        self.pc += 2;
        let ghost advanced = self@;
        let r = self.execute(instruction.0, instruction.1, instruction.2, instruction.3);
        proof {
            let (random, reading) = choose|random: u8, reading: Option<u128>|
                (self@, r) == #[trigger] advanced.execute(
                    instruction.0,
                    instruction.1,
                    instruction.2,
                    instruction.3,
                    random,
                    reading,
                );
            assert((self@, r) == old(self)@.step(random, reading));
        }
        r
    }

    /// Runs the machine for at most `cycles` cycles and stops at the first
    /// fault, which it returns.
    pub fn run(&mut self, cycles: usize) -> (r: Result<(), Fault>)
        requires
            old(self).wf(),
        ensures
            exists|outside: Seq<(u8, Option<u128>)>|
                outside.len() <= cycles && (r is Ok ==> outside.len() == cycles) && (
                final(self)@, r) == #[trigger] old(self)@.run(outside),
            final(self).wf(),
    {
        let ghost mut outside: Seq<(u8, Option<u128>)> = Seq::empty();
        let mut done: usize = 0;
        while done < cycles
            invariant
                done <= cycles,
                outside.len() == done,
                self.wf(),
                (self@, Ok::<(), Fault>(())) == old(self)@.run(outside),
            decreases cycles - done,
        {
            let ghost before = self@;
            let r = self.step();
            proof {
                let (random, reading) = choose|random: u8, reading: Option<u128>|
                    (self@, r) == #[trigger] before.step(random, reading);
                let longer = outside.push((random, reading));
                assert(longer.drop_last() =~= outside);
                assert(longer.last() == (random, reading));
                assert((self@, r) == old(self)@.run(longer));
                outside = longer;
            }
            match r {
                Ok(()) => {},
                Err(fault) => {
                    return Err(fault);
                },
            }
            done += 1;
        }
        Ok(())
    }
}

} // verus!
