//! The 64x32 monochrome framebuffer: XOR-plotted sprites with collision
//! reporting, and silent per-pixel clipping at the edges of the grid.

use vstd::prelude::*;

verus! {

broadcast use vstd::array::group_array_axioms;

/// Number of pixel columns of the display.
pub const TOTAL_COLS: usize = 64;

/// Number of pixel rows of the display.
pub const TOTAL_ROWS: usize = 32;

/// Number of pixels of the display.
pub const TOTAL_PIXELS: usize = 2048;

/// Bit `j` of the byte `b`, counting from the most significant bit:
/// bit 0 is the leftmost pixel of a sprite row.
pub open spec fn sprite_bit(b: u8, j: int) -> bool
    recommends
        0 <= j < 8,
{
    if j == 0 {
        b & 0x80 != 0
    } else if j == 1 {
        b & 0x40 != 0
    } else if j == 2 {
        b & 0x20 != 0
    } else if j == 3 {
        b & 0x10 != 0
    } else if j == 4 {
        b & 0x08 != 0
    } else if j == 5 {
        b & 0x04 != 0
    } else if j == 6 {
        b & 0x02 != 0
    } else {
        b & 0x01 != 0
    }
}

/// One sprite row of byte `b`, drawn at `(col, row)` but cut off after its
/// first `w` bits, flips the pixel at `(c, r)`.
pub open spec fn byte_covers_upto(col: int, row: int, b: u8, c: int, r: int, w: int) -> bool {
    r == row && col <= c < col + w && sprite_bit(b, c - col)
}

/// One sprite row of byte `b`, drawn at `(col, row)`, flips the pixel at
/// `(c, r)`.
pub open spec fn byte_covers(col: int, row: int, b: u8, c: int, r: int) -> bool {
    byte_covers_upto(col, row, b, c, r, 8)
}

/// The sprite `bytes`, drawn at `(col, row)`, flips the pixel at `(c, r)`.
pub open spec fn sprite_covers(col: int, row: int, bytes: Seq<u8>, c: int, r: int) -> bool {
    row <= r < row + bytes.len() && byte_covers(col, r, bytes[r - row], c, r)
}

/// The pixel grid `p` after one sprite row of byte `b` is XOR-drawn at
/// `(col, row)`: pixels the byte covers are flipped, all others kept.
/// Positions outside the grid are clipped by construction, since only indices
/// of `p` appear.
pub open spec fn byte_drawn(p: Seq<bool>, col: int, row: int, b: u8) -> Seq<bool> {
    Seq::new(p.len(), |k: int| p[k] != byte_covers(col, row, b, k % 64, k / 64))
}

/// Drawing one sprite row of byte `b` at `(col, row)` over the grid `p`
/// flips some pixel that was already on.
pub open spec fn byte_collides(p: Seq<bool>, col: int, row: int, b: u8) -> bool {
    exists|k: int| 0 <= k < p.len() && byte_covers(col, row, b, k % 64, k / 64) && p[k]
}

/// The pixel grid `p` after the sprite `bytes` is XOR-drawn at `(col, row)`.
pub open spec fn sprite_drawn(p: Seq<bool>, col: int, row: int, bytes: Seq<u8>) -> Seq<bool> {
    Seq::new(p.len(), |k: int| p[k] != sprite_covers(col, row, bytes, k % 64, k / 64))
}

/// Drawing the sprite `bytes` at `(col, row)` over the grid `p` flips some
/// pixel that was already on.
pub open spec fn sprite_collides(p: Seq<bool>, col: int, row: int, bytes: Seq<u8>) -> bool {
    exists|k: int| 0 <= k < p.len() && sprite_covers(col, row, bytes, k % 64, k / 64) && p[k]
}

/// A 64x32 binary pixel display, stored row-major: the pixel at column `c`
/// of row `r` sits at index `r * 64 + c`.
#[derive(Clone, Copy)]
pub struct Chip8Display {
    pub pixels: [bool; 2048],
}

impl Chip8Display {
    /// The pixel at column `col` of row `row`, as a mathematical value.
    pub open spec fn spec_pixel(self, col: int, row: int) -> bool
        recommends
            0 <= col < 64,
            0 <= row < 32,
    {
        self.pixels@[row * 64 + col]
    }

    /// All pixels are off.
    pub open spec fn all_off(self) -> bool {
        forall|c: int, r: int| 0 <= c < 64 && 0 <= r < 32 ==> !self.spec_pixel(c, r)
    }

    pub fn new() -> (d: Chip8Display)
        ensures
            d.all_off(),
    {
        Chip8Display { pixels: [false; 2048] }
    }

    pub fn get_pixel(&self, col: u8, row: u8) -> (b: bool)
        requires
            col < 64,
            row < 32,
        ensures
            b == self.spec_pixel(col as int, row as int),
    {
        self.pixels[pixel_index(col, row)]
    }

    /// Flip the pixel at `(col, row)` and report its previous value;
    /// coordinates off the grid flip nothing and report `false`.
    pub fn flip_pixel(&mut self, col: u8, row: u8) -> (prev: bool)
        ensures
            col < 64 && row < 32 ==> {
                &&& final(self).pixels@ == old(self).pixels@.update(
                    row as int * 64 + col as int,
                    !old(self).spec_pixel(col as int, row as int),
                )
                &&& prev == old(self).spec_pixel(col as int, row as int)
            },
            !(col < 64 && row < 32) ==> *final(self) == *old(self) && prev == false,
    {
        if col as usize >= TOTAL_COLS || row as usize >= TOTAL_ROWS {
            return false;
        }
        let idx = pixel_index(col, row);
        let prev = self.pixels[idx];
        self.pixels[idx] = !prev;
        prev
    }

    /// XOR-draw one sprite row of byte `byte` at `(col, row)`, clipping
    /// pixels that fall off the grid, and report whether any flipped pixel
    /// was already on.
    #[verifier::loop_isolation(false)]
    pub fn draw_byte(&mut self, col: u8, row: u8, byte: u8) -> (collision: bool)
        ensures
            final(self).pixels@ == byte_drawn(old(self).pixels@, col as int, row as int, byte),
            collision == byte_collides(old(self).pixels@, col as int, row as int, byte),
    {
        let mut collision = false;
        let bits: [bool; 8] = [
            (byte & 0x80) != 0,
            (byte & 0x40) != 0,
            (byte & 0x20) != 0,
            (byte & 0x10) != 0,
            (byte & 0x08) != 0,
            (byte & 0x04) != 0,
            (byte & 0x02) != 0,
            (byte & 0x01) != 0,
        ];
        let ghost p = self.pixels@;
        let ghost ci = col as int;
        let ghost ri = row as int;
        let mut i: usize = 0;
        while i < 8
            invariant
                0 <= i <= 8,
                p.len() == 2048,
                self.pixels@.len() == 2048,
                forall|j: int| 0 <= j < 8 ==> bits@[j] == sprite_bit(byte, j),
                forall|k: int|
                    0 <= k < 2048 ==> #[trigger] self.pixels@[k] == (p[k] != byte_covers_upto(
                        ci,
                        ri,
                        byte,
                        k % 64,
                        k / 64,
                        i as int,
                    )),
                collision == exists|k: int|
                    0 <= k < 2048 && #[trigger] byte_covers_upto(ci, ri, byte, k % 64, k / 64, i as int)
                        && p[k],
            decreases 8 - i,
        {
            let hit = bits[i];
            let c = col as usize + i;
            if hit && c < 64 && (row as usize) < 32 {
                let ghost idx = ri * 64 + c as int;
                let ghost pre = self.pixels@;
                let prev = self.flip_pixel(c as u8, row);
                proof {
                    assert(idx % 64 == c as int && idx / 64 == ri);
                    assert(!byte_covers_upto(ci, ri, byte, idx % 64, idx / 64, i as int));
                    assert(prev == p[idx]);
                    assert forall|k: int| 0 <= k < 2048 implies #[trigger] self.pixels@[k] == (p[k]
                        != byte_covers_upto(ci, ri, byte, k % 64, k / 64, i + 1)) by {
                        if k == idx {
                            assert(byte_covers_upto(ci, ri, byte, k % 64, k / 64, i + 1));
                        } else {
                            assert(!(k % 64 == c as int && k / 64 == ri));
                            assert(byte_covers_upto(ci, ri, byte, k % 64, k / 64, i + 1)
                                == byte_covers_upto(ci, ri, byte, k % 64, k / 64, i as int));
                            assert(self.pixels@[k] == pre[k]);
                        }
                    }
                    if prev {
                        assert(byte_covers_upto(ci, ri, byte, idx % 64, idx / 64, i + 1) && p[idx]);
                    }
                    if collision {
                        let k0 = choose|k: int|
                            0 <= k < 2048 && #[trigger] byte_covers_upto(ci, ri, byte, k % 64, k / 64, i as int)
                                && p[k];
                        assert(byte_covers_upto(ci, ri, byte, k0 % 64, k0 / 64, i + 1) && p[k0]);
                    }
                    assert forall|k: int|
                        0 <= k < 2048 && #[trigger] byte_covers_upto(ci, ri, byte, k % 64, k / 64, i + 1)
                            && p[k] implies collision || prev by {
                        if k == idx {
                        } else {
                            assert(byte_covers_upto(ci, ri, byte, k % 64, k / 64, i as int));
                        }
                    }
                }
                collision = collision || prev;
            } else {
                proof {
                    assert forall|k: int| 0 <= k < 2048 implies byte_covers_upto(
                        ci,
                        ri,
                        byte,
                        k % 64,
                        k / 64,
                        i + 1,
                    ) == #[trigger] byte_covers_upto(ci, ri, byte, k % 64, k / 64, i as int) by {
                        if k % 64 == ci + i && k / 64 == ri {
                            assert(0 <= k % 64 < 64 && 0 <= k / 64 < 32);
                            assert(!hit || c >= 64 || row >= 32);
                            if hit {
                                assert(c as int == ci + i);
                                assert(k % 64 < 64);
                                assert(false);
                            }
                            assert(!sprite_bit(byte, i as int));
                        }
                    }
                    if collision {
                        let k0 = choose|k: int|
                            0 <= k < 2048 && #[trigger] byte_covers_upto(ci, ri, byte, k % 64, k / 64, i as int)
                                && p[k];
                        assert(byte_covers_upto(ci, ri, byte, k0 % 64, k0 / 64, i + 1) && p[k0]);
                    }
                    if exists|k: int|
                        0 <= k < 2048 && #[trigger] byte_covers_upto(ci, ri, byte, k % 64, k / 64, i + 1)
                            && p[k] {
                        let k1 = choose|k: int|
                            0 <= k < 2048 && #[trigger] byte_covers_upto(ci, ri, byte, k % 64, k / 64, i + 1)
                                && p[k];
                        assert(byte_covers_upto(ci, ri, byte, k1 % 64, k1 / 64, i as int) && p[k1]);
                    }
                }
            }
            i = i + 1;
        }
        proof {
            assert forall|k: int| 0 <= k < 2048 implies #[trigger] byte_drawn(p, ci, ri, byte)[k]
                == self.pixels@[k] by {
                assert(byte_covers(ci, ri, byte, k % 64, k / 64) == byte_covers_upto(
                    ci,
                    ri,
                    byte,
                    k % 64,
                    k / 64,
                    8,
                ));
            }
            assert(self.pixels@ =~= byte_drawn(p, ci, ri, byte));
            assert(collision == byte_collides(p, ci, ri, byte));
        }
        collision
    }

    /// XOR-draw the sprite `bytes` at `(col, row)`, one byte per row going
    /// down, clipping pixels that fall off the grid, and report whether any
    /// flipped pixel was already on.
    #[verifier::loop_isolation(false)]
    pub fn draw_sprite(&mut self, col: u8, row: u8, bytes: &[u8]) -> (collision: bool)
        ensures
            final(self).pixels@ == sprite_drawn(old(self).pixels@, col as int, row as int, bytes@),
            collision == sprite_collides(old(self).pixels@, col as int, row as int, bytes@),
    {
        let mut collision = false;
        let ghost p = self.pixels@;
        let ghost ci = col as int;
        let ghost ri = row as int;
        let mut index: usize = 0;
        while index < bytes.len()
            invariant
                0 <= index <= bytes@.len(),
                p.len() == 2048,
                self.pixels@.len() == 2048,
                forall|k: int|
                    0 <= k < 2048 ==> #[trigger] self.pixels@[k] == (p[k] != sprite_covers(
                        ci,
                        ri,
                        bytes@.take(index as int),
                        k % 64,
                        k / 64,
                    )),
                collision == sprite_collides(p, ci, ri, bytes@.take(index as int)),
            decreases bytes@.len() - index,
        {
            let byte = bytes[index];
            let ghost q = self.pixels@;
            let prev_hit: bool;
            if (row as usize) < 32 && index < 32 - row as usize {
                let r = row as usize + index;
                prev_hit = self.draw_byte(col, r as u8, byte);
                proof {
                    assert((r as u8) as int == ri + index);
                }
            } else {
                prev_hit = false;
                proof {
                    assert(!(0 <= ri + index < 32));
                }
            }
            proof {
                lemma_sprite_take_one_more(
                    p,
                    q,
                    self.pixels@,
                    ci,
                    ri,
                    bytes@,
                    index as int,
                    prev_hit,
                );
            }
            collision = collision || prev_hit;
            index = index + 1;
        }
        proof {
            assert(bytes@.take(bytes@.len() as int) =~= bytes@);
            assert forall|k: int| 0 <= k < 2048 implies #[trigger] sprite_drawn(p, ci, ri, bytes@)[k]
                == self.pixels@[k] by {}
            assert(self.pixels@ =~= sprite_drawn(p, ci, ri, bytes@));
        }
        collision
    }
}

/// Drawing the first `index + 1` rows of a sprite equals drawing the first
/// `index` rows and then XOR-drawing row `index` over the intermediate grid
/// `q`; the collision reports combine by disjunction, because every sprite
/// row covers a distinct row of the grid, so row `index` still sees the
/// original pixels there.
proof fn lemma_sprite_take_one_more(
    p: Seq<bool>,
    q: Seq<bool>,
    after: Seq<bool>,
    col: int,
    row: int,
    bytes: Seq<u8>,
    index: int,
    prev_hit: bool,
)
    requires
        p.len() == 2048,
        q.len() == 2048,
        0 <= index < bytes.len(),
        forall|k: int|
            0 <= k < 2048 ==> #[trigger] q[k] == (p[k] != sprite_covers(
                col,
                row,
                bytes.take(index),
                k % 64,
                k / 64,
            )),
        0 <= row + index < 32 ==> after == byte_drawn(q, col, row + index, bytes[index]) && prev_hit
            == byte_collides(q, col, row + index, bytes[index]),
        !(0 <= row + index < 32) ==> after == q && prev_hit == false,
    ensures
        forall|k: int|
            0 <= k < 2048 ==> #[trigger] after[k] == (p[k] != sprite_covers(
                col,
                row,
                bytes.take(index + 1),
                k % 64,
                k / 64,
            )),
        (sprite_collides(p, col, row, bytes.take(index)) || prev_hit) == sprite_collides(
            p,
            col,
            row,
            bytes.take(index + 1),
        ),
{
    let t0 = bytes.take(index);
    let t1 = bytes.take(index + 1);
    let b = bytes[index];
    assert(t1[index] == b);
    assert forall|c: int, r: int| 0 <= c < 64 && 0 <= r < 32 implies #[trigger] sprite_covers(
        col,
        row,
        t1,
        c,
        r,
    ) == (sprite_covers(col, row, t0, c, r) || (r == row + index && byte_covers(
        col,
        row + index,
        b,
        c,
        r,
    ))) by {
        if row <= r < row + index {
            assert(t1[r - row] == t0[r - row]);
        }
    }
    if 0 <= row + index < 32 {
        assert forall|k: int| 0 <= k < 2048 implies #[trigger] after[k] == (p[k] != sprite_covers(
            col,
            row,
            t1,
            k % 64,
            k / 64,
        )) by {
            assert(0 <= k % 64 < 64 && 0 <= k / 64 < 32);
            assert(after[k] == (q[k] != byte_covers(col, row + index, b, k % 64, k / 64)));
            if k / 64 == row + index {
                assert(!sprite_covers(col, row, t0, k % 64, k / 64));
            } else {
                assert(!byte_covers(col, row + index, b, k % 64, k / 64));
            }
        }
        // A collision of the new row is a collision of the whole prefix, and
        // conversely, because the new row still shows the original pixels.
        if prev_hit {
            let k = choose|k: int|
                0 <= k < q.len() && byte_covers(col, row + index, b, k % 64, k / 64) && q[k];
            assert(k / 64 == row + index);
            assert(!sprite_covers(col, row, t0, k % 64, k / 64));
            assert(q[k] == p[k]);
            assert(sprite_covers(col, row, t1, k % 64, k / 64) && p[k]);
            assert(sprite_collides(p, col, row, t1));
        }
        if sprite_collides(p, col, row, t0) {
            let k = choose|k: int|
                0 <= k < p.len() && sprite_covers(col, row, t0, k % 64, k / 64) && p[k];
            assert(0 <= k / 64 < 32);
            assert(sprite_covers(col, row, t1, k % 64, k / 64) && p[k]);
            assert(sprite_collides(p, col, row, t1));
        }
        if sprite_collides(p, col, row, t1) {
            let k = choose|k: int|
                0 <= k < p.len() && sprite_covers(col, row, t1, k % 64, k / 64) && p[k];
            assert(0 <= k % 64 < 64 && 0 <= k / 64 < 32);
            if k / 64 == row + index {
                assert(byte_covers(col, row + index, b, k % 64, k / 64));
                assert(!sprite_covers(col, row, t0, k % 64, k / 64));
                assert(q[k] == p[k]);
                assert(byte_collides(q, col, row + index, b));
            } else {
                assert(sprite_covers(col, row, t0, k % 64, k / 64));
                assert(sprite_collides(p, col, row, t0));
            }
        }
    } else {
        assert forall|k: int| 0 <= k < 2048 implies #[trigger] after[k] == (p[k] != sprite_covers(
            col,
            row,
            t1,
            k % 64,
            k / 64,
        )) by {
            assert(0 <= k / 64 < 32);
        }
        if sprite_collides(p, col, row, t1) {
            let k = choose|k: int|
                0 <= k < p.len() && sprite_covers(col, row, t1, k % 64, k / 64) && p[k];
            assert(0 <= k / 64 < 32);
            assert(sprite_covers(col, row, t0, k % 64, k / 64));
            assert(sprite_collides(p, col, row, t0));
        }
        if sprite_collides(p, col, row, t0) {
            let k = choose|k: int|
                0 <= k < p.len() && sprite_covers(col, row, t0, k % 64, k / 64) && p[k];
            assert(0 <= k / 64 < 32);
            assert(sprite_covers(col, row, t1, k % 64, k / 64));
            assert(sprite_collides(p, col, row, t1));
        }
    }
}

/// The row-major index of the pixel at column `col` of row `row`.
pub fn pixel_index(col: u8, row: u8) -> (idx: usize)
    requires
        col < 64,
        row < 32,
    ensures
        idx == row * 64 + col,
        idx < 2048,
{
    let r = row as usize;
    let c = col as usize;
    TOTAL_COLS * r + c
}

} // verus!
