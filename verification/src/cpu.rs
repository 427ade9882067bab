//! The machine itself: its state, its construction and the decoder.

use vstd::prelude::*;
use crate::fault::Fault;
use crate::model::{Machine, nnn_of};

verus! {

/// The glyph table: one five-byte sprite for each hexadecimal digit.
pub const FONT: [u8; 80] = [
    0xF0, 0x90, 0x90, 0x90, 0xF0,
    0x20, 0x60, 0x20, 0x20, 0x70,
    0xF0, 0x10, 0xF0, 0x80, 0xF0,
    0xF0, 0x10, 0xF0, 0x10, 0xF0,
    0x90, 0x90, 0xF0, 0x10, 0x10,
    0xF0, 0x80, 0xF0, 0x10, 0xF0,
    0xF0, 0x80, 0xF0, 0x90, 0xF0,
    0xF0, 0x10, 0x20, 0x40, 0x40,
    0xF0, 0x90, 0xF0, 0x90, 0xF0,
    0xF0, 0x90, 0xF0, 0x10, 0xF0,
    0xF0, 0x90, 0xF0, 0x90, 0x90,
    0xE0, 0x90, 0xE0, 0x90, 0xE0,
    0xF0, 0x80, 0x80, 0x80, 0xF0,
    0xE0, 0x90, 0x90, 0x90, 0xE0,
    0xF0, 0x80, 0xF0, 0x80, 0xF0,
    0xF0, 0x80, 0xF0, 0x80, 0x80,
];

/// The processor and its memory.
#[allow(clippy::upper_case_acronyms)]
pub struct CPU {
    /// 4096 bytes of memory.
    pub mem: [u8; 4096],
    /// The program counter.
    pub pc: u16,
    /// The index register `I`.
    pub i_reg: u16,
    /// The call stack; slot 0 is never used.
    pub stack: [u16; 16],
    /// The general registers `V0..VF`.
    pub registers: [u8; 16],
    /// The stack pointer.
    pub sp: u8,
    /// The delay timer.
    pub delay_timer: u8,
    /// The sound timer.
    pub sound_timer: u8,
    /// The flag: carry, borrow, shifted-out bit or collision.
    pub vf: u8,
    /// The pixel grid, 64 columns by 32 rows, row by row.
    pub buf: [u8; 2048],
    /// When the sound timer was last written, in milliseconds.
    pub last_st_write: u128,
    /// When the delay timer was last written, in milliseconds.
    pub last_dt_write: u128,
}

impl View for CPU {
    type V = Machine;

    open spec fn view(&self) -> Machine {
        Machine {
            mem: self.mem@,
            pc: self.pc,
            i_reg: self.i_reg,
            stack: self.stack@,
            registers: self.registers@,
            sp: self.sp,
            delay_timer: self.delay_timer,
            sound_timer: self.sound_timer,
            vf: self.vf,
            buf: self.buf@,
            last_st_write: self.last_st_write,
            last_dt_write: self.last_dt_write,
        }
    }
}

/// The state of a machine that holds `program` and has executed nothing.
pub open spec fn initial(program: Seq<u8>) -> Machine {
    Machine {
        mem: Seq::new(
            4096,
            |a: int|
                if 0x50 <= a < 0xA0 {
                    FONT@[a - 0x50]
                } else if 0x200 <= a < 0x200 + program.len() {
                    program[a - 0x200]
                } else {
                    0u8
                },
        ),
        pc: 0x200,
        i_reg: 0x200,
        stack: Seq::new(16, |i: int| 0u16),
        registers: Seq::new(16, |i: int| 0u8),
        sp: 0,
        delay_timer: 255,
        sound_timer: 255,
        vf: 0,
        buf: Seq::new(2048, |i: int| 0u8),
        last_st_write: 0,
        last_dt_write: 0,
    }
}

impl CPU {
    /// The invariant of a running machine.
    pub open spec fn wf(&self) -> bool {
        self@.wf()
    }

    /// Tells whether the invariant holds: the stack pointer is at most 15
    /// and every pixel cell holds 0 or 1.
    pub fn is_wf(&self) -> (b: bool)
        ensures
            b == self.wf(),
    {
        if self.sp > 15 {
            return false;
        }
        let mut p: usize = 0;
        while p < 2048
            invariant
                p <= 2048,
                forall|q: int| 0 <= q < p ==> #[trigger] self.buf@[q] <= 1,
            decreases 2048 - p,
        {
            if self.buf[p] > 1 {
                return false;
            }
            p += 1;
        }
        true
    }

    /// A machine with the glyph table in place and no program.
    #[allow(dead_code)]
    pub fn new() -> (cpu: Self)
        ensures
            cpu@ == initial(Seq::empty()),
            cpu.wf(),
    {
        let empty: [u8; 0] = [];
        let cpu = Self::new_with_memory(&empty);
        assert(cpu@.mem =~= initial(Seq::empty()).mem);
        cpu
    }

    /// A machine that holds `program`, or the fault that tells that the
    /// program is too long for the memory above address 0x200.
    pub fn load(program: &[u8]) -> (r: Result<Self, Fault>)
        ensures
            match r {
                Ok(cpu) => program@.len() <= 4096 - 0x200 && cpu@ == initial(program@) && cpu.wf(),
                Err(fault) => program@.len() > 4096 - 0x200 && fault == Fault::ProgramTooLarge(
                    program@.len() as usize,
                ),
            },
    {
        if program.len() <= 4096 - 0x200 {
            Ok(Self::new_with_memory(program))
        } else {
            Err(Fault::ProgramTooLarge(program.len()))
        }
    }

    /// A machine with the glyph table in place and `program_memory` copied
    /// to address 0x200.
    pub fn new_with_memory(program_memory: &[u8]) -> (cpu: Self)
        requires
            program_memory@.len() <= 4096 - 0x200,
        ensures
            cpu@ == initial(program_memory@),
            cpu.wf(),
    {
        let mut mem: [u8; 4096] = [0; 4096];
        let mut k: usize = 0;
        while k < 80
            invariant
                k <= 80,
                forall|a: int|
                    0 <= a < 4096 ==> mem@[a] == if 0x50 <= a < 0x50 + k {
                        FONT@[a - 0x50]
                    } else {
                        0u8
                    },
            decreases 80 - k,
        {
            mem[0x50 + k] = FONT[k];
            k += 1;
        }
        let len: usize = program_memory.len();
        let mut j: usize = 0;
        while j < len
            invariant
                j <= len,
                len == program_memory@.len(),
                len <= 4096 - 0x200,
                forall|a: int|
                    0 <= a < 4096 ==> mem@[a] == if 0x50 <= a < 0xA0 {
                        FONT@[a - 0x50]
                    } else if 0x200 <= a < 0x200 + j {
                        program_memory@[a - 0x200]
                    } else {
                        0u8
                    },
            decreases len - j,
        {
            mem[0x200 + j] = program_memory[j];
            j += 1;
        }
        let cpu = CPU {
            registers: [0; 16],
            pc: 0x200,
            sp: 0,
            mem,
            stack: [0; 16],
            i_reg: 0x200,
            delay_timer: 255,
            sound_timer: 255,
            vf: 0,
            buf: [0; 2048],
            last_st_write: 0,
            last_dt_write: 0,
        };
        assert(cpu@.mem =~= initial(program_memory@).mem);
        assert(cpu@.stack =~= initial(program_memory@).stack);
        assert(cpu@.registers =~= initial(program_memory@).registers);
        assert(cpu@.buf =~= initial(program_memory@).buf);
        cpu
    }

    /// Splits an instruction word, given as its two bytes, into its four
    /// nibbles, most significant first.
    pub fn decode(&self, upper_byte: u8, lower_byte: u8) -> (nibbles: (u8, u8, u8, u8))
        ensures
            nibbles.0 == upper_byte / 16,
            nibbles.1 == upper_byte % 16,
            nibbles.2 == lower_byte / 16,
            nibbles.3 == lower_byte % 16,
            nibbles.0 < 16 && nibbles.1 < 16 && nibbles.2 < 16 && nibbles.3 < 16,
            nibbles.0 * 16 + nibbles.1 == upper_byte,
            nibbles.2 * 16 + nibbles.3 == lower_byte,
    {
        let upper_high: u8 = (upper_byte & 0xF0) >> 4;
        let upper_low: u8 = upper_byte & 0x0F;
        let lower_high: u8 = (lower_byte & 0xF0) >> 4;
        let lower_low: u8 = lower_byte & 0x0F;
        assert(((upper_byte & 0xF0) >> 4) == upper_byte / 16) by (bit_vector);
        assert((upper_byte & 0x0F) == upper_byte % 16) by (bit_vector);
        assert(((lower_byte & 0xF0) >> 4) == lower_byte / 16) by (bit_vector);
        assert((lower_byte & 0x0F) == lower_byte % 16) by (bit_vector);
        (upper_high, upper_low, lower_high, lower_low)
    }

    /// Joins three nibbles into a 12-bit address, most significant first.
    pub fn to_nnn(&self, a: u8, b: u8, c: u8) -> (nnn: u16)
        ensures
            nnn == nnn_of(a, b, c),
            a < 16 && b < 16 && c < 16 ==> nnn == a * 256 + b * 16 + c,
    {
        let mut byte: u16 = ((a << 4) | b) as u16;
        byte = (byte << 4) | c as u16;
        assert(a < 16 && b < 16 && c < 16 ==> ((((a << 4) | b) as u16) << 4) | (c as u16) == a
            * 256 + b * 16 + c) by (bit_vector);
        byte
    }
}

} // verus!
