//! One operation per instruction. Each changes the machine exactly as the
//! model's function of the same instruction says.

use vstd::prelude::*;
use crate::cpu::CPU;
use crate::fault::Fault;
use crate::model::Machine;
use crate::clock::now_ms;
use crate::entropy::random_byte;

verus! {

impl CPU {
    /// `00E0`: clear the display.
    pub fn cls00e0(&mut self)
        ensures
            final(self)@ == old(self)@.cls(),
    {
        self.clear();
    }

    /// `1nnn`: jump to `nnn`.
    pub fn jp1nnn(&mut self, nnn: u16)
        ensures
            final(self)@ == old(self)@.jp(nnn),
            final(self).pc == nnn,
    {
        self.pc = nnn;
    }

    /// `6xnn`: set `Vx = nn`.
    pub fn set6xnn(&mut self, x: u8, nn: u8)
        requires
            x < 16,
        ensures
            final(self)@ == old(self)@.set(x, nn),
    {
        self.registers[x as usize] = nn;
    }

    /// `7xnn`: set `Vx = Vx + nn`, modulo 256.
    pub fn add7xnn(&mut self, x: u8, nn: u8)
        requires
            x < 16,
        ensures
            final(self)@ == old(self)@.add_byte(x, nn),
    {
        self.registers[x as usize] = self.registers[x as usize].wrapping_add(nn);
    }

    /// `Annn`: set `I = nnn`.
    pub fn setannn(&mut self, nnn: u16)
        ensures
            final(self)@ == old(self)@.set_index(nnn),
    {
        self.i_reg = nnn;
    }

    /// `Dxyn`: draw the `n`-row sprite at `I` at column `Vx`, row `Vy`; the
    /// flag reports a collision.
    pub fn drwdxyn(&mut self, x: u8, y: u8, n: u8)
        requires
            old(self).sprite_fits(x, y, n),
        ensures
            final(self)@ == old(self)@.draw(x, y, n),
    {
        self.draw(x, y, n);
    }

    /// `00EE`: return from a subroutine. The stack pointer moves down first,
    /// then the slot it names gives the program counter.
    pub fn ret00ee(&mut self)
        requires
            1 <= old(self).sp <= 15,
        ensures
            final(self)@ == old(self)@.ret(),
    {
        self.sp -= 1;
        self.pc = self.stack[self.sp as usize];
    }

    /// `2nnn`: call the subroutine at `nnn`.
    pub fn call2nnn(&mut self, nnn: u16)
        requires
            old(self).sp < 15,
        ensures
            final(self)@ == old(self)@.call(nnn),
    {
        self.sp += 1;
        self.stack[self.sp as usize] = nnn;
        self.pc = nnn;
    }

    /// `3xnn`: skip the next instruction if `Vx == nn`.
    pub fn se3xnn(&mut self, x: u8, nn: u8)
        requires
            x < 16,
            old(self).registers@[x as int] == nn ==> old(self).pc <= 0xFFFD,
        ensures
            final(self)@ == old(self)@.se_byte(x, nn),
            final(self).pc == if old(self).registers@[x as int] == nn {
                old(self).pc + 2
            } else {
                old(self).pc as int
            },
    {
        if self.registers[x as usize] == nn {
            self.pc += 2;
        }
    }

    /// `4xnn`: skip the next instruction if `Vx != nn`.
    pub fn sne4xnn(&mut self, x: u8, nn: u8)
        requires
            x < 16,
            old(self).registers@[x as int] != nn ==> old(self).pc <= 0xFFFD,
        ensures
            final(self)@ == old(self)@.sne_byte(x, nn),
            final(self).pc == if old(self).registers@[x as int] != nn {
                old(self).pc + 2
            } else {
                old(self).pc as int
            },
    {
        if self.registers[x as usize] != nn {
            self.pc += 2;
        }
    }

    /// `5xy0`: skip the next instruction if `Vx == Vy`.
    pub fn se5xy0(&mut self, x: u8, y: u8)
        requires
            x < 16,
            y < 16,
            old(self).registers@[x as int] == old(self).registers@[y as int] ==> old(self).pc
                <= 0xFFFD,
        ensures
            final(self)@ == old(self)@.se_reg(x, y),
            final(self).pc == if old(self).registers@[x as int] == old(self).registers@[y as int] {
                old(self).pc + 2
            } else {
                old(self).pc as int
            },
    {
        if self.registers[x as usize] == self.registers[y as usize] {
            self.pc += 2;
        }
    }

    /// `9xy0`: skip the next instruction if `Vx != Vy`.
    pub fn sne9xy0(&mut self, x: u8, y: u8)
        requires
            x < 16,
            y < 16,
            old(self).registers@[x as int] != old(self).registers@[y as int] ==> old(self).pc
                <= 0xFFFD,
        ensures
            final(self)@ == old(self)@.sne_reg(x, y),
            final(self).pc == if old(self).registers@[x as int] != old(self).registers@[y as int] {
                old(self).pc + 2
            } else {
                old(self).pc as int
            },
    {
        if self.registers[x as usize] != self.registers[y as usize] {
            self.pc += 2;
        }
    }

    /// `8xy0`: set `Vx = Vy`.
    pub fn ld8xy0(&mut self, x: u8, y: u8)
        requires
            x < 16,
            y < 16,
        ensures
            final(self)@ == old(self)@.ld(x, y),
    {
        self.registers[x as usize] = self.registers[y as usize];
    }

    /// `8xy1`: set `Vx = Vx OR Vy`. The flag keeps its value.
    pub fn or8xy1(&mut self, x: u8, y: u8)
        requires
            x < 16,
            y < 16,
        ensures
            final(self)@ == old(self)@.or(x, y),
            final(self).registers@[x as int] == old(self).registers@[x as int] | old(self).registers@[
                y as int
            ],
            final(self).vf == old(self).vf,
    {
        self.registers[x as usize] = self.registers[x as usize] | self.registers[y as usize];
    }

    /// `8xy2`: set `Vx = Vx AND Vy`. The flag keeps its value.
    pub fn and8xy2(&mut self, x: u8, y: u8)
        requires
            x < 16,
            y < 16,
        ensures
            final(self)@ == old(self)@.and(x, y),
            final(self).registers@[x as int] == old(self).registers@[x as int] & old(self).registers@[
                y as int
            ],
            final(self).vf == old(self).vf,
    {
        self.registers[x as usize] = self.registers[x as usize] & self.registers[y as usize];
    }

    /// `8xy3`: set `Vx = Vx XOR Vy`. The flag keeps its value.
    pub fn xor8xy3(&mut self, x: u8, y: u8)
        requires
            x < 16,
            y < 16,
        ensures
            final(self)@ == old(self)@.xor(x, y),
            final(self).registers@[x as int] == old(self).registers@[x as int] ^ old(self).registers@[
                y as int
            ],
            final(self).vf == old(self).vf,
    {
        self.registers[x as usize] = self.registers[x as usize] ^ self.registers[y as usize];
    }

    /// `8xy4`: set `Vx = Vx + Vy` modulo 256, flag = carry.
    pub fn add8xy4(&mut self, x: u8, y: u8)
        requires
            x < 16,
            y < 16,
        ensures
            final(self)@ == old(self)@.add_reg(x, y),
    {
        self.vf = 0;
        let sum: u16 = self.registers[x as usize] as u16 + self.registers[y as usize] as u16;
        if sum > 255 {
            self.vf = 1;
            assert((sum & 0xFF) == sum % 256) by (bit_vector);
            self.registers[x as usize] = (sum & 0xFF) as u8;
        } else {
            self.registers[x as usize] = sum as u8;
        }
    }

    /// `8xy5`: set `Vx = Vx - Vy` modulo 256; the flag is 1 exactly when
    /// `Vx` was strictly greater than `Vy`.
    pub fn sub8xy5(&mut self, x: u8, y: u8)
        requires
            x < 16,
            y < 16,
        ensures
            final(self)@ == old(self)@.sub(x, y),
    {
        let a: u8 = self.registers[x as usize];
        let b: u8 = self.registers[y as usize];
        self.vf = 0;
        if a > b {
            self.vf = 1;
        }
        self.registers[x as usize] = a.wrapping_sub(b);
    }

    /// `8xy7`: set `Vx = Vy - Vx` modulo 256; the flag is 1 exactly when
    /// `Vy` was strictly greater than `Vx`.
    pub fn sub8xy7(&mut self, x: u8, y: u8)
        requires
            x < 16,
            y < 16,
        ensures
            final(self)@ == old(self)@.subn(x, y),
    {
        let a: u8 = self.registers[y as usize];
        let b: u8 = self.registers[x as usize];
        self.vf = 0;
        if a > b {
            self.vf = 1;
        }
        self.registers[x as usize] = a.wrapping_sub(b);
    }

    /// `8xy6`, shifting `Vy`: set `Vx = Vy >> 1`, flag = the bit shifted out.
    pub fn shr8xy6_usey(&mut self, x: u8, y: u8)
        requires
            x < 16,
            y < 16,
        ensures
            final(self)@ == old(self)@.shr(x, y),
    {
        let operand: u8 = self.registers[y as usize];
        let last_bit: u8 = operand & 1;
        let y_shifted: u8 = operand >> 1;
        assert(operand & 1 == operand % 2) by (bit_vector);
        assert(operand >> 1 == operand / 2) by (bit_vector);
        self.vf = last_bit;
        self.registers[x as usize] = y_shifted;
    }

    /// `8xy6`, shifting `Vx` in place: set `Vx = Vx >> 1`, flag = the bit
    /// shifted out.
    pub fn shr8xy6_usex(&mut self, x: u8, _y: u8)
        requires
            x < 16,
        ensures
            final(self)@ == old(self)@.shr(x, x),
    {
        let operand: u8 = self.registers[x as usize];
        let last_bit: u8 = operand & 1;
        let x_shifted: u8 = operand >> 1;
        assert(operand & 1 == operand % 2) by (bit_vector);
        assert(operand >> 1 == operand / 2) by (bit_vector);
        self.vf = last_bit;
        self.registers[x as usize] = x_shifted;
    }

    /// `8xyE`, shifting `Vy`: set `Vx = Vy << 1`, flag = the bit shifted out.
    pub fn shl8xye_usey(&mut self, x: u8, y: u8)
        requires
            x < 16,
            y < 16,
        ensures
            final(self)@ == old(self)@.shl(x, y),
    {
        let operand: u8 = self.registers[y as usize];
        let last_bit: u8 = if operand > 127 {
            1
        } else {
            0
        };
        let y_shifted: u8 = operand << 1;
        assert(operand << 1 == (operand as u16 * 2) % 256) by (bit_vector);
        self.vf = last_bit;
        self.registers[x as usize] = y_shifted;
    }

    /// `8xyE`, shifting `Vx` in place: set `Vx = Vx << 1`, flag = the bit
    /// shifted out.
    pub fn shl8xye_usex(&mut self, x: u8, _y: u8)
        requires
            x < 16,
        ensures
            final(self)@ == old(self)@.shl(x, x),
    {
        let operand: u8 = self.registers[x as usize];
        let last_bit: u8 = if operand > 127 {
            1
        } else {
            0
        };
        let x_shifted: u8 = operand << 1;
        assert(operand << 1 == (operand as u16 * 2) % 256) by (bit_vector);
        self.vf = last_bit;
        self.registers[x as usize] = x_shifted;
    }

    /// `Bnnn`: jump to `nnn + V0`.
    pub fn jpbnnn(&mut self, nnn: u16)
        requires
            nnn + old(self).registers@[0] <= 0xFFFF,
        ensures
            final(self)@ == old(self)@.jp_offset(nnn),
    {
        self.pc = nnn + (self.registers[0] as u16);
    }

    /// `Cxnn` with the random byte given: set `Vx = random AND nn`.
    pub fn rndcxnn_with(&mut self, x: u8, nn: u8, random: u8)
        requires
            x < 16,
        ensures
            final(self)@ == old(self)@.rnd(x, nn, random),
    {
        self.registers[x as usize] = random & nn;
    }

    /// `Cxnn`: set `Vx = random byte AND nn`. Which byte is drawn is left
    /// open; whatever it is, the register takes it masked by `nn`.
    pub fn rndcxnn(&mut self, x: u8, nn: u8)
        requires
            x < 16,
        ensures
            exists|random: u8| final(self)@ == #[trigger] old(self)@.rnd(x, nn, random),
    {
        let random_number: u8 = random_byte();
        self.rndcxnn_with(x, nn, random_number);
    }

    /// `Ex9E`: skip if the key in `Vx` is pressed. No keypad is attached, so
    /// this always fails and changes nothing.
    #[allow(dead_code)]
    pub fn skpex9e(&mut self) -> (r: Result<(), Fault>)
        ensures
            r == Err::<(), Fault>(Fault::KeypadUnavailable),
            final(self)@ == old(self)@,
    {
        Err(Fault::KeypadUnavailable)
    }

    /// `ExA1`: skip if the key in `Vx` is not pressed. No keypad is
    /// attached, so this always fails and changes nothing.
    #[allow(dead_code)]
    pub fn skpexa1(&mut self) -> (r: Result<(), Fault>)
        ensures
            r == Err::<(), Fault>(Fault::KeypadUnavailable),
            final(self)@ == old(self)@,
    {
        Err(Fault::KeypadUnavailable)
    }

    /// `Fx07` at a given time: set `Vx` to the milliseconds that have passed
    /// since the delay timer was written, modulo 255.
    pub fn ldfx07_at(&mut self, x: u8, now_ms: u128)
        requires
            x < 16,
            now_ms >= old(self).last_dt_write,
        ensures
            final(self)@ == old(self)@.read_delay(x, now_ms),
    {
        let then: u128 = self.last_dt_write;
        let elapsed_time_wrapped: u8 = ((now_ms - then) % 255) as u8;
        self.registers[x as usize] = elapsed_time_wrapped;
    }

    /// `Fx15` at a given time: set the delay timer to `Vx`.
    pub fn ldfx15_at(&mut self, x: u8, now_ms: u128)
        requires
            x < 16,
        ensures
            final(self)@ == old(self)@.write_delay(x, now_ms),
    {
        self.last_dt_write = now_ms;
        self.delay_timer = self.registers[x as usize];
    }

    /// `Fx18` at a given time: set the sound timer to `Vx`.
    pub fn ldfx18_at(&mut self, x: u8, now_ms: u128)
        requires
            x < 16,
        ensures
            final(self)@ == old(self)@.write_sound(x, now_ms),
    {
        self.last_st_write = now_ms;
        self.sound_timer = self.registers[x as usize];
    }

    /// `Fx07` with the reading of the clock given, `None` standing for a
    /// clock that could not be read. Fails, and changes nothing, when there
    /// is no reading or when it lies before the last write of the delay
    /// timer.
    pub fn ldfx07_on(&mut self, x: u8, reading: Option<u128>) -> (r: Result<(), Fault>)
        requires
            x < 16,
        ensures
            (final(self)@, r) == old(self)@.read_delay_on(x, reading),
    {
        match reading {
            Some(now) => {
                if now >= self.last_dt_write {
                    self.ldfx07_at(x, now);
                    Ok(())
                } else {
                    Err(Fault::ClockUnavailable)
                }
            },
            None => Err(Fault::ClockUnavailable),
        }
    }

    /// `Fx15` with the reading of the clock given. Fails, and changes
    /// nothing, when there is no reading.
    pub fn ldfx15_on(&mut self, x: u8, reading: Option<u128>) -> (r: Result<(), Fault>)
        requires
            x < 16,
        ensures
            (final(self)@, r) == old(self)@.write_delay_on(x, reading),
    {
        match reading {
            Some(now) => {
                self.ldfx15_at(x, now);
                Ok(())
            },
            None => Err(Fault::ClockUnavailable),
        }
    }

    /// `Fx18` with the reading of the clock given. Fails, and changes
    /// nothing, when there is no reading.
    pub fn ldfx18_on(&mut self, x: u8, reading: Option<u128>) -> (r: Result<(), Fault>)
        requires
            x < 16,
        ensures
            (final(self)@, r) == old(self)@.write_sound_on(x, reading),
    {
        match reading {
            Some(now) => {
                self.ldfx18_at(x, now);
                Ok(())
            },
            None => Err(Fault::ClockUnavailable),
        }
    }

    /// `Fx07`: set `Vx` from the delay timer, read off the wall clock.
    pub fn ldfx07(&mut self, x: u8) -> (r: Result<(), Fault>)
        requires
            x < 16,
        ensures
            exists|reading: Option<u128>|
                (final(self)@, r) == #[trigger] old(self)@.read_delay_on(x, reading),
    {
        let reading: Option<u128> = now_ms();
        self.ldfx07_on(x, reading)
    }

    /// `Fx15`: set the delay timer to `Vx` and note the time of the wall
    /// clock.
    pub fn ldfx15(&mut self, x: u8) -> (r: Result<(), Fault>)
        requires
            x < 16,
        ensures
            exists|reading: Option<u128>|
                (final(self)@, r) == #[trigger] old(self)@.write_delay_on(x, reading),
    {
        let reading: Option<u128> = now_ms();
        self.ldfx15_on(x, reading)
    }

    /// `Fx18`: set the sound timer to `Vx` and note the time of the wall
    /// clock.
    pub fn ldfx18(&mut self, x: u8) -> (r: Result<(), Fault>)
        requires
            x < 16,
        ensures
            exists|reading: Option<u128>|
                (final(self)@, r) == #[trigger] old(self)@.write_sound_on(x, reading),
    {
        let reading: Option<u128> = now_ms();
        self.ldfx18_on(x, reading)
    }

    /// `Fx1E`: set `I = I + Vx`.
    pub fn addfx1e(&mut self, x: u8)
        requires
            x < 16,
            old(self).i_reg + old(self).registers@[x as int] <= 0xFFFF,
        ensures
            final(self)@ == old(self)@.add_index(x),
    {
        self.i_reg += self.registers[x as usize] as u16;
    }

    /// `Fx29`: set `I` to the address of the glyph for the digit in `Vx`.
    pub fn ldfx29(&mut self, x: u8)
        requires
            x < 16,
        ensures
            final(self)@ == old(self)@.glyph(x),
    {
        let digit: u8 = self.registers[x as usize];
        let offset: u16 = if digit <= 0xF {
            5 * (digit as u16)
        } else {
            0
        };
        self.i_reg = 0x50 + offset;
    }

    /// `Fx33`: store the three decimal digits of `Vx`, hundreds first and
    /// padded with zeros, at `I`, `I+1` and `I+2`.
    pub fn ldfx33(&mut self, x: u8)
        requires
            x < 16,
            old(self).i_reg + 2 < 4096,
        ensures
            final(self)@ == old(self)@.bcd(x),
    {
        let num: u8 = self.registers[x as usize];
        let at: usize = self.i_reg as usize;
        self.mem[at] = num / 100;
        self.mem[at + 1] = (num / 10) % 10;
        self.mem[at + 2] = num % 10;
    }

    /// `Fx55`: store `V0` through `Vx` in memory from `I` on.
    pub fn ldfx55(&mut self, x: u8)
        requires
            x < 16,
            old(self).i_reg + x < 4096,
        ensures
            final(self)@ == old(self)@.store(x),
    {
        let ghost m = self@;
        let at: usize = self.i_reg as usize;
        let mut i: usize = 0;
        while i < x as usize + 1
            invariant
                i <= x + 1,
                x < 16,
                at == m.i_reg,
                at + x < 4096,
                self@ == (Machine { mem: self@.mem, ..m }),
                forall|a: int|
                    0 <= a < 4096 ==> self.mem@[a] == if at <= a < at + i {
                        m.registers[a - at]
                    } else {
                        m.mem[a]
                    },
            decreases x + 1 - i,
        {
            self.mem[at + i] = self.registers[i];
            i += 1;
        }
        assert(self@.mem =~= m.store(x).mem);
    }

    /// `Fx65`: read `V0` through `Vx` from memory from `I` on.
    pub fn ldfx65(&mut self, x: u8)
        requires
            x < 16,
            old(self).i_reg + x < 4096,
        ensures
            final(self)@ == old(self)@.load(x),
    {
        let ghost m = self@;
        let at: usize = self.i_reg as usize;
        let mut i: usize = 0;
        while i < x as usize + 1
            invariant
                i <= x + 1,
                x < 16,
                at == m.i_reg,
                at + x < 4096,
                self@ == (Machine { registers: self@.registers, ..m }),
                forall|r: int|
                    0 <= r < 16 ==> self.registers@[r] == if r < i {
                        m.mem[at + r]
                    } else {
                        m.registers[r]
                    },
            decreases x + 1 - i,
        {
            self.registers[i] = self.mem[at + i];
            i += 1;
        }
        assert(self@.registers =~= m.load(x).registers);
    }
}

} // verus!
