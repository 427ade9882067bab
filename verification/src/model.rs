//! The mathematical state of the machine and the meaning of every operation
//! on it, as pure functions from state to state.

use vstd::prelude::*;
use crate::fault::Fault;

verus! {

/// Which register the shift instructions `8xy6` and `8xyE` take their
/// operand from: `Vx` itself when `true`, `Vy` when `false`.
pub const USE_NEW_SHIFTING_CONVENTIONS: bool = false;

/// A state together with the outcome of the operation that led to it.
pub type Outcome = (Machine, Result<(), Fault>);

/// The abstract state of a machine.
pub struct Machine {
    /// Memory, 4096 bytes.
    pub mem: Seq<u8>,
    /// The program counter.
    pub pc: u16,
    /// The index register `I`.
    pub i_reg: u16,
    /// The call stack, 16 slots.
    pub stack: Seq<u16>,
    /// The general registers, 16 of them.
    pub registers: Seq<u8>,
    /// The stack pointer.
    pub sp: u8,
    /// The delay timer.
    pub delay_timer: u8,
    /// The sound timer.
    pub sound_timer: u8,
    /// The flag.
    pub vf: u8,
    /// The pixel grid, 2048 cells, row by row.
    pub buf: Seq<u8>,
    /// When the sound timer was last written, in milliseconds.
    pub last_st_write: u128,
    /// When the delay timer was last written, in milliseconds.
    pub last_dt_write: u128,
}

/// The bit of a sprite row that lands `col` cells right of the sprite's
/// left edge; the most significant bit comes first.
pub open spec fn sprite_bit(row: u8, col: u8) -> u8 {
    (row >> ((7 - col) as u8)) & 1
}

/// What a pixel cell holds after a sprite bit has been drawn onto it: a set
/// bit on a set cell clears the cell, anything else overwrites it.
pub open spec fn blend(cell: u8, bit: u8) -> u8 {
    if cell == 1 && bit == 1 {
        0
    } else {
        bit
    }
}

/// The address formed by three nibbles, most significant first.
pub open spec fn nnn_of(a: u8, b: u8, c: u8) -> u16 {
    ((((a << 4) | b) as u16) << 4) | (c as u16)
}

impl Machine {
    /// The shape of a state: the four stores have their fixed sizes.
    pub open spec fn shaped(self) -> bool {
        &&& self.mem.len() == 4096
        &&& self.stack.len() == 16
        &&& self.registers.len() == 16
        &&& self.buf.len() == 2048
    }

    /// The invariant of a running machine: the stack pointer stays within
    /// the stack and every pixel cell holds 0 or 1.
    pub open spec fn wf(self) -> bool {
        &&& self.shaped()
        &&& self.sp <= 15
        &&& forall|p: int| 0 <= p < 2048 ==> #[trigger] self.buf[p] <= 1
    }

    /// This state with register `x` holding `value`.
    pub open spec fn with_register(self, x: u8, value: u8) -> Machine {
        Machine { registers: self.registers.update(x as int, value), ..self }
    }

    /// This state with register `x` holding `value` and the flag `flag`.
    pub open spec fn with_result(self, x: u8, value: u8, flag: u8) -> Machine {
        Machine { registers: self.registers.update(x as int, value), vf: flag, ..self }
    }

    /// This state with the program counter at `pc`.
    pub open spec fn with_pc(self, pc: u16) -> Machine {
        Machine { pc, ..self }
    }

    /// This state with the program counter moved on by two if `cond` holds,
    /// and unchanged if not.
    pub open spec fn skip_if(self, cond: bool) -> Machine {
        if cond {
            Machine { pc: (self.pc + 2) as u16, ..self }
        } else {
            self
        }
    }

    /// `00E0`: every pixel cell becomes 0.
    pub open spec fn cls(self) -> Machine {
        Machine { buf: Seq::new(2048, |p: int| 0u8), ..self }
    }

    /// `00EE`: pop the return address.
    pub open spec fn ret(self) -> Machine {
        Machine { sp: (self.sp - 1) as u8, pc: self.stack[self.sp - 1], ..self }
    }

    /// `1nnn`: jump.
    pub open spec fn jp(self, nnn: u16) -> Machine {
        self.with_pc(nnn)
    }

    /// `2nnn`: the stack pointer moves up first, then the slot it names and
    /// the program counter both take the target.
    pub open spec fn call(self, nnn: u16) -> Machine {
        Machine {
            sp: (self.sp + 1) as u8,
            stack: self.stack.update(self.sp + 1, nnn),
            pc: nnn,
            ..self
        }
    }

    /// `3xnn`: skip when `Vx == nn`.
    pub open spec fn se_byte(self, x: u8, nn: u8) -> Machine {
        self.skip_if(self.registers[x as int] == nn)
    }

    /// `4xnn`: skip when `Vx != nn`.
    pub open spec fn sne_byte(self, x: u8, nn: u8) -> Machine {
        self.skip_if(self.registers[x as int] != nn)
    }

    /// `5xy0`: skip when `Vx == Vy`.
    pub open spec fn se_reg(self, x: u8, y: u8) -> Machine {
        self.skip_if(self.registers[x as int] == self.registers[y as int])
    }

    /// `9xy0`: skip when `Vx != Vy`.
    pub open spec fn sne_reg(self, x: u8, y: u8) -> Machine {
        self.skip_if(self.registers[x as int] != self.registers[y as int])
    }

    /// `6xnn`: `Vx = nn`.
    pub open spec fn set(self, x: u8, nn: u8) -> Machine {
        self.with_register(x, nn)
    }

    /// `7xnn`: `Vx = Vx + nn` modulo 256; the flag is untouched.
    pub open spec fn add_byte(self, x: u8, nn: u8) -> Machine {
        self.with_register(x, ((self.registers[x as int] + nn) % 256) as u8)
    }

    /// `8xy0`: `Vx = Vy`.
    pub open spec fn ld(self, x: u8, y: u8) -> Machine {
        self.with_register(x, self.registers[y as int])
    }

    /// `8xy1`: `Vx = Vx | Vy`; the flag is untouched.
    pub open spec fn or(self, x: u8, y: u8) -> Machine {
        self.with_register(x, self.registers[x as int] | self.registers[y as int])
    }

    /// `8xy2`: `Vx = Vx & Vy`; the flag is untouched.
    pub open spec fn and(self, x: u8, y: u8) -> Machine {
        self.with_register(x, self.registers[x as int] & self.registers[y as int])
    }

    /// `8xy3`: `Vx = Vx ^ Vy`; the flag is untouched.
    pub open spec fn xor(self, x: u8, y: u8) -> Machine {
        self.with_register(x, self.registers[x as int] ^ self.registers[y as int])
    }

    /// `8xy4`: `Vx` takes the low byte of `Vx + Vy`, the flag tells whether
    /// the sum went past 255.
    pub open spec fn add_reg(self, x: u8, y: u8) -> Machine {
        let sum = self.registers[x as int] + self.registers[y as int];
        self.with_result(x, (sum % 256) as u8, if sum > 255 { 1 } else { 0 })
    }

    /// The difference `a - b` modulo 256, and a flag that is 1 exactly when
    /// `a` is strictly greater than `b`.
    pub open spec fn difference(a: u8, b: u8) -> (u8, u8) {
        (((a - b) % 256) as u8, if a > b { 1 } else { 0 })
    }

    /// `8xy5`: `Vx = Vx - Vy`.
    pub open spec fn sub(self, x: u8, y: u8) -> Machine {
        let d = Self::difference(self.registers[x as int], self.registers[y as int]);
        self.with_result(x, d.0, d.1)
    }

    /// `8xy7`: `Vx = Vy - Vx`.
    pub open spec fn subn(self, x: u8, y: u8) -> Machine {
        let d = Self::difference(self.registers[y as int], self.registers[x as int]);
        self.with_result(x, d.0, d.1)
    }

    /// `8xy6`: `Vx` takes register `src` halved, the flag its lowest bit.
    pub open spec fn shr(self, x: u8, src: u8) -> Machine {
        let v = self.registers[src as int];
        self.with_result(x, v / 2, v % 2)
    }

    /// `8xyE`: `Vx` takes register `src` doubled modulo 256, the flag its
    /// highest bit.
    pub open spec fn shl(self, x: u8, src: u8) -> Machine {
        let v = self.registers[src as int];
        self.with_result(x, ((v * 2) % 256) as u8, if v > 127 { 1 } else { 0 })
    }

    /// `Annn`: `I = nnn`.
    pub open spec fn set_index(self, nnn: u16) -> Machine {
        Machine { i_reg: nnn, ..self }
    }

    /// `Bnnn`: jump to `nnn + V0`.
    pub open spec fn jp_offset(self, nnn: u16) -> Machine {
        self.with_pc((nnn + self.registers[0]) as u16)
    }

    /// `Cxnn`: `Vx` takes the given random byte masked by `nn`.
    pub open spec fn rnd(self, x: u8, nn: u8, random: u8) -> Machine {
        self.with_register(x, random & nn)
    }

    /// `Fx07`: `Vx` takes the milliseconds since the delay timer was last
    /// written, modulo 255.
    pub open spec fn read_delay(self, x: u8, now_ms: u128) -> Machine {
        self.with_register(x, ((now_ms - self.last_dt_write) % 255) as u8)
    }

    /// `Fx15`: the delay timer takes `Vx` and remembers when.
    pub open spec fn write_delay(self, x: u8, now_ms: u128) -> Machine {
        Machine { delay_timer: self.registers[x as int], last_dt_write: now_ms, ..self }
    }

    /// `Fx18`: the sound timer takes `Vx` and remembers when.
    pub open spec fn write_sound(self, x: u8, now_ms: u128) -> Machine {
        Machine { sound_timer: self.registers[x as int], last_st_write: now_ms, ..self }
    }

    /// `Fx07` with the reading of the clock, `None` for a clock that gave no
    /// time: the read succeeds exactly when there is a reading that is not
    /// earlier than the last write of the delay timer, and a failure changes
    /// nothing.
    pub open spec fn read_delay_on(self, x: u8, reading: Option<u128>) -> (Machine, Result<(), Fault>) {
        match reading {
            Some(now) if now >= self.last_dt_write => (self.read_delay(x, now), Ok(())),
            _ => (self, Err(Fault::ClockUnavailable)),
        }
    }

    /// `Fx15` with the reading of the clock: the write succeeds exactly when
    /// there is a reading, and a failure changes nothing.
    pub open spec fn write_delay_on(self, x: u8, reading: Option<u128>) -> (Machine, Result<(), Fault>) {
        match reading {
            Some(now) => (self.write_delay(x, now), Ok(())),
            None => (self, Err(Fault::ClockUnavailable)),
        }
    }

    /// `Fx18` with the reading of the clock: the write succeeds exactly when
    /// there is a reading, and a failure changes nothing.
    pub open spec fn write_sound_on(self, x: u8, reading: Option<u128>) -> (Machine, Result<(), Fault>) {
        match reading {
            Some(now) => (self.write_sound(x, now), Ok(())),
            None => (self, Err(Fault::ClockUnavailable)),
        }
    }

    /// `Fx1E`: `I = I + Vx`.
    pub open spec fn add_index(self, x: u8) -> Machine {
        Machine { i_reg: (self.i_reg + self.registers[x as int]) as u16, ..self }
    }

    /// Offset of a digit's glyph within the glyph table: five bytes per
    /// hexadecimal digit, and 0 for a value that is no digit.
    pub open spec fn glyph_offset(digit: u8) -> u16 {
        if digit <= 0xF {
            (5 * digit) as u16
        } else {
            0
        }
    }

    /// `Fx29`: `I` points at the glyph of the digit in `Vx`.
    pub open spec fn glyph(self, x: u8) -> Machine {
        Machine { i_reg: (0x50 + Self::glyph_offset(self.registers[x as int])) as u16, ..self }
    }

    /// `Fx33`: the hundreds, tens and ones of `Vx` go to `I`, `I+1`, `I+2`.
    pub open spec fn bcd(self, x: u8) -> Machine {
        let v = self.registers[x as int];
        let i = self.i_reg as int;
        Machine {
            mem: self.mem.update(i, v / 100).update(i + 1, (v / 10) % 10).update(i + 2, v % 10),
            ..self
        }
    }

    /// `Fx55`: `V0..=Vx` go to memory from `I` on.
    pub open spec fn store(self, x: u8) -> Machine {
        let i = self.i_reg as int;
        Machine {
            mem: Seq::new(
                4096,
                |a: int|
                    if i <= a <= i + x {
                        self.registers[a - i]
                    } else {
                        self.mem[a]
                    },
            ),
            ..self
        }
    }

    /// `Fx65`: `V0..=Vx` come from memory from `I` on.
    pub open spec fn load(self, x: u8) -> Machine {
        let i = self.i_reg as int;
        Machine {
            registers: Seq::new(
                16,
                |r: int|
                    if r <= x {
                        self.mem[i + r]
                    } else {
                        self.registers[r]
                    },
            ),
            ..self
        }
    }

    /// Leftmost column of a sprite drawn by `Dxyn`.
    pub open spec fn sprite_left(self, x: u8) -> int {
        (self.registers[x as int] % 64) as int
    }

    /// Topmost row of a sprite drawn by `Dxyn`.
    pub open spec fn sprite_top(self, y: u8) -> int {
        (self.registers[y as int] % 32) as int
    }

    /// Whether `Dxyn` writes pixel cell `p`: the cell lies in one of the `n`
    /// sprite rows and at most seven columns right of the left edge. A row is
    /// cut at the right border of the grid; it does not wrap.
    pub open spec fn touches(self, x: u8, y: u8, n: u8, p: int) -> bool {
        let row = p / 64 - self.sprite_top(y);
        let col = p % 64 - self.sprite_left(x);
        0 <= p < 2048 && 0 <= row < n && 0 <= col < 8
    }

    /// The sprite bit that `Dxyn` brings to a cell that it touches.
    pub open spec fn incoming(self, x: u8, y: u8, p: int) -> u8 {
        let row = p / 64 - self.sprite_top(y);
        let col = p % 64 - self.sprite_left(x);
        sprite_bit(self.mem[self.i_reg + row], col as u8)
    }

    /// Whether `Dxyn` brings a set bit onto the set cell `p`.
    pub open spec fn collides_at(self, x: u8, y: u8, n: u8, p: int) -> bool {
        self.touches(x, y, n, p) && self.buf[p] == 1 && self.incoming(x, y, p) == 1
    }

    /// Whether `Dxyn` brings a set bit onto some set cell.
    pub open spec fn collides(self, x: u8, y: u8, n: u8) -> bool {
        exists|p: int| #[trigger] self.collides_at(x, y, n, p)
    }

    /// What cell `p` holds after `Dxyn`.
    pub open spec fn drawn_cell(self, x: u8, y: u8, n: u8, p: int) -> u8 {
        if self.touches(x, y, n, p) {
            blend(self.buf[p], self.incoming(x, y, p))
        } else {
            self.buf[p]
        }
    }

    /// `Dxyn`: draw the `n`-row sprite at `I` with its top left corner at
    /// column `Vx mod 64`, row `Vy mod 32`; the flag reports a collision.
    pub open spec fn draw(self, x: u8, y: u8, n: u8) -> Machine {
        Machine {
            buf: Seq::new(2048, |p: int| self.drawn_cell(x, y, n, p)),
            vf: if self.collides(x, y, n) { 1 } else { 0 },
            ..self
        }
    }

    /// This state, reached without a fault.
    pub open spec fn ok(self) -> Outcome {
        (self, Ok(()))
    }

    /// This state, left as it is by an operation that failed with `fault`.
    pub open spec fn fail(self, fault: Fault) -> Outcome {
        (self, Err(fault))
    }

    /// A skip that is checked: it fails where the program counter cannot
    /// move on by two.
    pub open spec fn skip_checked(self, cond: bool) -> Outcome {
        if cond && self.pc > 0xFFFD {
            self.fail(Fault::MemoryOutOfBounds(self.pc))
        } else {
            self.skip_if(cond).ok()
        }
    }

    /// The register that a shift instruction with fields `x` and `y` reads.
    pub open spec fn shift_source(x: u8, y: u8) -> u8 {
        if USE_NEW_SHIFTING_CONVENTIONS {
            x
        } else {
            y
        }
    }

    /// Whether memory holds the `n` sprite rows that `Dxyn` reads.
    pub open spec fn sprite_in_memory(self, n: u8) -> bool {
        self.i_reg + n <= 4096
    }

    /// Whether the `n` rows that `Dxyn` draws end within the grid.
    pub open spec fn sprite_on_grid(self, y: u8, n: u8) -> bool {
        self.sprite_top(y) + n <= 32
    }

    /// The instruction table. Executes the instruction whose four nibbles
    /// are given, the program counter having moved past it already.
    /// `random` is the byte that `Cxnn` draws and `reading` the time that
    /// the timer instructions read; no other instruction looks at them. An
    /// instruction that fails leaves the state as it found it.
    pub open spec fn execute(
        self,
        n0: u8,
        n1: u8,
        n2: u8,
        n3: u8,
        random: u8,
        reading: Option<u128>,
    ) -> Outcome {
        let nnn = (n1 * 256 + n2 * 16 + n3) as u16;
        let nn = (n2 * 16 + n3) as u8;
        let x = n1;
        let y = n2;
        if n0 == 0x0 && n1 == 0x0 && n2 == 0xE && n3 == 0x0 {
            self.cls().ok()
        } else if n0 == 0x0 && n1 == 0x0 && n2 == 0xE && n3 == 0xE {
            if self.sp == 0 {
                self.fail(Fault::StackUnderflow)
            } else {
                self.ret().ok()
            }
        } else if n0 == 0x1 {
            self.jp(nnn).ok()
        } else if n0 == 0x2 {
            if self.sp >= 15 {
                self.fail(Fault::StackOverflow)
            } else {
                self.call(nnn).ok()
            }
        } else if n0 == 0x3 {
            self.skip_checked(self.registers[x as int] == nn)
        } else if n0 == 0x4 {
            self.skip_checked(self.registers[x as int] != nn)
        } else if n0 == 0x5 && n3 == 0x0 {
            self.skip_checked(self.registers[x as int] == self.registers[y as int])
        } else if n0 == 0x6 {
            self.set(x, nn).ok()
        } else if n0 == 0x7 {
            self.add_byte(x, nn).ok()
        } else if n0 == 0x8 && n3 == 0x0 {
            self.ld(x, y).ok()
        } else if n0 == 0x8 && n3 == 0x1 {
            self.or(x, y).ok()
        } else if n0 == 0x8 && n3 == 0x2 {
            self.and(x, y).ok()
        } else if n0 == 0x8 && n3 == 0x3 {
            self.xor(x, y).ok()
        } else if n0 == 0x8 && n3 == 0x4 {
            self.add_reg(x, y).ok()
        } else if n0 == 0x8 && n3 == 0x5 {
            self.sub(x, y).ok()
        } else if n0 == 0x8 && n3 == 0x6 {
            self.shr(x, Self::shift_source(x, y)).ok()
        } else if n0 == 0x8 && n3 == 0x7 {
            self.subn(x, y).ok()
        } else if n0 == 0x8 && n3 == 0xE {
            self.shl(x, Self::shift_source(x, y)).ok()
        } else if n0 == 0x9 && n3 == 0x0 {
            self.skip_checked(self.registers[x as int] != self.registers[y as int])
        } else if n0 == 0xA {
            self.set_index(nnn).ok()
        } else if n0 == 0xB {
            self.jp_offset(nnn).ok()
        } else if n0 == 0xC {
            self.rnd(x, nn, random).ok()
        } else if n0 == 0xD {
            if !self.sprite_in_memory(n3) {
                self.fail(Fault::MemoryOutOfBounds(self.i_reg))
            } else if !self.sprite_on_grid(y, n3) {
                self.fail(Fault::PixelOutOfBounds)
            } else {
                self.draw(x, y, n3).ok()
            }
        } else if n0 == 0xE && ((n2 == 0x9 && n3 == 0xE) || (n2 == 0xA && n3 == 0x1)) {
            self.fail(Fault::KeypadUnavailable)
        } else if n0 == 0xF && n2 == 0x0 && n3 == 0x7 {
            self.read_delay_on(x, reading)
        } else if n0 == 0xF && n2 == 0x1 && n3 == 0x5 {
            self.write_delay_on(x, reading)
        } else if n0 == 0xF && n2 == 0x1 && n3 == 0x8 {
            self.write_sound_on(x, reading)
        } else if n0 == 0xF && n2 == 0x1 && n3 == 0xE {
            if self.i_reg + self.registers[x as int] > 0xFFFF {
                self.fail(Fault::IndexOverflow)
            } else {
                self.add_index(x).ok()
            }
        } else if n0 == 0xF && n2 == 0x2 && n3 == 0x9 {
            self.glyph(x).ok()
        } else if n0 == 0xF && n2 == 0x3 && n3 == 0x3 {
            if self.i_reg + 2 >= 4096 {
                self.fail(Fault::MemoryOutOfBounds(self.i_reg))
            } else {
                self.bcd(x).ok()
            }
        } else if n0 == 0xF && n2 == 0x5 && n3 == 0x5 {
            if self.i_reg + x >= 4096 {
                self.fail(Fault::MemoryOutOfBounds(self.i_reg))
            } else {
                self.store(x).ok()
            }
        } else if n0 == 0xF && n2 == 0x6 && n3 == 0x5 {
            if self.i_reg + x >= 4096 {
                self.fail(Fault::MemoryOutOfBounds(self.i_reg))
            } else {
                self.load(x).ok()
            }
        } else {
            self.fail(Fault::UnknownOpcode(n0, n1, n2, n3))
        }
    }

    /// Whether the four nibbles name an instruction of the table.
    pub open spec fn names_instruction(n0: u8, n1: u8, n2: u8, n3: u8) -> bool {
        ||| n0 == 0x0 && n1 == 0x0 && n2 == 0xE && (n3 == 0x0 || n3 == 0xE)
        ||| 0x1 <= n0 <= 0x4
        ||| (n0 == 0x5 || n0 == 0x9) && n3 == 0x0
        ||| n0 == 0x6 || n0 == 0x7
        ||| n0 == 0x8 && (n3 <= 0x7 || n3 == 0xE)
        ||| 0xA <= n0 <= 0xD
        ||| n0 == 0xE && ((n2 == 0x9 && n3 == 0xE) || (n2 == 0xA && n3 == 0x1))
        ||| n0 == 0xF && n2 == 0x0 && n3 == 0x7
        ||| n0 == 0xF && n2 == 0x1 && (n3 == 0x5 || n3 == 0x8 || n3 == 0xE)
        ||| n0 == 0xF && n2 == 0x2 && n3 == 0x9
        ||| n0 == 0xF && n2 == 0x3 && n3 == 0x3
        ||| n0 == 0xF && (n2 == 0x5 || n2 == 0x6) && n3 == 0x5
    }

    /// Whether `Cxnn` or a timer instruction is named by the nibbles, that
    /// is, whether `execute` looks at anything but the state.
    pub open spec fn reads_outside(n0: u8, n2: u8, n3: u8) -> bool {
        n0 == 0xC || (n0 == 0xF && ((n2 == 0x0 && n3 == 0x7) || (n2 == 0x1 && (n3 == 0x5 || n3
            == 0x8))))
    }

    /// One cycle: fetch the two bytes at the program counter, move the
    /// counter past them, decode and execute. A fetch past the end of memory
    /// fails and changes nothing; a failing instruction leaves the counter
    /// past it and changes nothing else.
    pub open spec fn step(self, random: u8, reading: Option<u128>) -> Outcome {
        if self.pc + 1 >= 4096 {
            self.fail(Fault::MemoryOutOfBounds(self.pc))
        } else {
            let hi = self.mem[self.pc as int];
            let lo = self.mem[self.pc + 1];
            self.with_pc((self.pc + 2) as u16).execute(
                hi / 16,
                hi % 16,
                lo / 16,
                lo % 16,
                random,
                reading,
            )
        }
    }

    /// Whether the instruction at the program counter looks at anything but
    /// the state.
    pub open spec fn next_reads_outside(self) -> bool {
        self.pc + 1 < 4096 && Self::reads_outside(
            self.mem[self.pc as int] / 16,
            self.mem[self.pc + 1] / 16,
            self.mem[self.pc + 1] % 16,
        )
    }

    /// As many cycles as `outside` has entries, stopping at the first fault.
    /// Entry `k` holds what cycle `k` gets from outside: the random byte and
    /// the reading of the clock.
    pub open spec fn run(self, outside: Seq<(u8, Option<u128>)>) -> Outcome
        decreases outside.len(),
    {
        if outside.len() == 0 {
            self.ok()
        } else {
            let before = self.run(outside.drop_last());
            if before.1 is Err {
                before
            } else {
                before.0.step(outside.last().0, outside.last().1)
            }
        }
    }
}

} // verus!
