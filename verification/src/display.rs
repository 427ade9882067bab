//! The pixel grid: clearing it and drawing sprites onto it.

use vstd::prelude::*;
use crate::cpu::CPU;
use crate::model::Machine;

verus! {

/// Whether the drawing loop has passed cell `p` once it has finished `rows`
/// sprite rows and `cols` cells of the next one.
pub open spec fn passed(m: Machine, x: u8, y: u8, rows: int, cols: int, p: int) -> bool {
    let row = p / 64 - m.sprite_top(y);
    let col = p % 64 - m.sprite_left(x);
    row < rows || (row == rows && col < cols)
}

impl CPU {
    /// Whether a sprite of `n` rows drawn by `Dxyn` stays within memory and
    /// within the rows of the grid.
    pub open spec fn sprite_fits(&self, x: u8, y: u8, n: u8) -> bool {
        &&& x < 16
        &&& y < 16
        &&& self.i_reg + n <= 4096
        &&& self.registers@[y as int] % 32 + n <= 32
    }

    /// Whether the pixel at the given column and row is lit.
    pub fn pixel(&self, column: usize, row: usize) -> (lit: bool)
        requires
            column < 64,
            row < 32,
        ensures
            lit == (self.buf@[row * 64 + column] == 1),
    {
        self.buf[row * 64 + column] == 1
    }

    /// Sets every pixel cell to 0.
    pub fn clear(&mut self)
        ensures
            final(self)@ == old(self)@.cls(),
    {
        self.buf = [0; 2048];
        assert(self@.buf =~= old(self)@.cls().buf);
    }

    /// Draws the `n`-row sprite that memory holds at `I`, top left corner at
    /// column `Vx mod 64` and row `Vy mod 32`. Each sprite bit overwrites its
    /// cell, except that a set bit on a set cell clears the cell and raises
    /// the flag. A row ends at the right border of the grid.
    pub fn draw(&mut self, x: u8, y: u8, n: u8)
        requires
            old(self).sprite_fits(x, y, n),
        ensures
            final(self)@ == old(self)@.draw(x, y, n),
    {
        let ghost m = self@;
        let left: usize = (self.registers[x as usize] % 64) as usize;
        let top: usize = (self.registers[y as usize] % 32) as usize;
        let base: usize = self.i_reg as usize;
        self.vf = 0;
        let mut row: usize = 0;
        while row < n as usize
            invariant
                m == old(self)@,
                row <= n,
                left == m.sprite_left(x),
                top == m.sprite_top(y),
                base == m.i_reg,
                base + n <= 4096,
                top + n <= 32,
                left < 64,
                self@ == (Machine { buf: self@.buf, vf: self@.vf, ..m }),
                forall|p: int|
                    0 <= p < 2048 ==> #[trigger] self.buf@[p] == if passed(m, x, y, row as int, 0, p) {
                        m.drawn_cell(x, y, n, p)
                    } else {
                        m.buf[p]
                    },
                self.vf == 0 || self.vf == 1,
                self.vf == 1 <==> exists|p: int|
                    passed(m, x, y, row as int, 0, p) && #[trigger] m.collides_at(x, y, n, p),
            decreases n - row,
        {
            let sprite: u8 = self.mem[base + row];
            let mut col: usize = 0;
            while col < 8 && left + col < 64
                invariant
                    m == old(self)@,
                    row < n,
                    col <= 8,
                    left == m.sprite_left(x),
                    top == m.sprite_top(y),
                    base == m.i_reg,
                    base + n <= 4096,
                    top + n <= 32,
                    left < 64,
                    sprite == m.mem[base + row],
                    self@ == (Machine { buf: self@.buf, vf: self@.vf, ..m }),
                    forall|p: int|
                        0 <= p < 2048 ==> #[trigger] self.buf@[p] == if passed(
                            m,
                            x,
                            y,
                            row as int,
                            col as int,
                            p,
                        ) {
                            m.drawn_cell(x, y, n, p)
                        } else {
                            m.buf[p]
                        },
                    self.vf == 0 || self.vf == 1,
                    self.vf == 1 <==> exists|p: int|
                        passed(m, x, y, row as int, col as int, p) && #[trigger] m.collides_at(
                            x,
                            y,
                            n,
                            p,
                        ),
                decreases 8 - col,
            {
                let pos: usize = (top + row) * 64 + left + col;
                let bit: u8 = (sprite >> (7 - col as u8)) & 1;
                assert(pos as int / 64 == top + row && pos as int % 64 == left + col);
                if self.buf[pos] == 1 && bit == 1 {
                    self.vf = 1;
                    self.buf[pos] = 0;
                    assert(m.collides_at(x, y, n, pos as int));
                } else {
                    self.buf[pos] = bit;
                    assert(!m.collides_at(x, y, n, pos as int));
                }
                assert(forall|p: int|
                    passed(m, x, y, row as int, col + 1, p) <==> (passed(
                        m,
                        x,
                        y,
                        row as int,
                        col as int,
                        p,
                    ) || (p / 64 == pos as int / 64 && p % 64 == pos as int % 64)));
                col += 1;
            }
            assert(forall|p: int|
                0 <= p < 2048 ==> (passed(m, x, y, row + 1, 0, p) && m.touches(x, y, n, p)
                    <==> passed(m, x, y, row as int, col as int, p) && m.touches(x, y, n, p)));
            assert(forall|p: int|
                0 <= p < 2048 && !m.touches(x, y, n, p) ==> m.drawn_cell(x, y, n, p) == m.buf[p]);
            row += 1;
        }
        assert(forall|p: int|
            0 <= p < 2048 && !passed(m, x, y, n as int, 0, p) ==> !m.touches(x, y, n, p));
        assert(forall|p: int| m.collides_at(x, y, n, p) ==> passed(m, x, y, n as int, 0, p));
        assert(self@.buf =~= m.draw(x, y, n).buf);
    }
}

} // verus!
