use vstd::prelude::*;

verus! {

pub const DISPLAY_WIDTH: usize = 64;

pub const DISPLAY_HEIGHT: usize = 32;

/// Number of cells: width times height.
pub const DISPLAY_SIZE: usize = 2048;

/// Side length, in window pixels, of the square drawn for one lit cell.
pub const PIXEL_SCALE: u32 = 10;

/// Value of the bit in column `col` of a sprite row, column 0 being the
/// most significant bit.
pub open spec fn bit_weight(col: int) -> int {
    if col == 0 {
        128
    } else if col == 1 {
        64
    } else if col == 2 {
        32
    } else if col == 3 {
        16
    } else if col == 4 {
        8
    } else if col == 5 {
        4
    } else if col == 6 {
        2
    } else if col == 7 {
        1
    } else {
        0
    }
}

/// Whether the bit in column `col` (0 to 7, leftmost first) of `row` is set.
pub open spec fn sprite_bit(row: u8, col: int) -> bool {
    0 <= col < 8 && (row as int / bit_weight(col)) % 2 == 1
}

/// Column of the sprite that lands on cell `p` when the sprite is anchored
/// at horizontal position `vx`; 8 or more when no column does.
pub open spec fn sprite_col(vx: int, p: int) -> int {
    (p % 64 - vx) % 64
}

/// Row of the sprite that lands on cell `p` when the sprite is anchored at
/// vertical position `vy`.
pub open spec fn sprite_row(vy: int, p: int) -> int {
    (p / 64 - vy) % 32
}

/// Whether the sprite of `rows` bytes that starts at `mem[start]`, anchored
/// at `(vx, vy)` with wraparound on both axes, has a set bit on cell `p`.
pub open spec fn sprite_hits(mem: Seq<u8>, start: int, rows: int, vx: int, vy: int, p: int) -> bool {
    let col = sprite_col(vx, p);
    let row = sprite_row(vy, p);
    col < 8 && row < rows && sprite_bit(mem[start + row], col)
}

/// The surface after the sprite has been XORed into it.
pub open spec fn blit(pixels: Seq<bool>, mem: Seq<u8>, start: int, rows: int, vx: int, vy: int) -> Seq<
    bool,
> {
    Seq::new(2048, |p: int| pixels[p] != sprite_hits(mem, start, rows, vx, vy, p))
}

/// Whether the sprite has a set bit on a cell that is lit in `pixels`.
pub open spec fn collides(pixels: Seq<bool>, mem: Seq<u8>, start: int, rows: int, vx: int, vy: int) -> bool {
    exists|p: int| 0 <= p < 2048 && pixels[p] && #[trigger] sprite_hits(mem, start, rows, vx, vy, p)
}

/// The part of the sprite drawn so far: every row before `r`, and the
/// columns before `c` of row `r`.
spec fn hits_before(
    mem: Seq<u8>,
    start: int,
    rows: int,
    vx: int,
    vy: int,
    r: int,
    c: int,
    p: int,
) -> bool {
    sprite_hits(mem, start, rows, vx, vy, p) && (sprite_row(vy, p) < r || (sprite_row(vy, p) == r
        && sprite_col(vx, p) < c))
}

/// A rectangle of the window: left, top, width, height.
pub type Block = (i32, i32, u32, u32);

/// The window rectangle that shows cell `p`.
pub open spec fn block_of(p: int) -> Block {
    (((p % 64) * 10) as i32, ((p / 64) * 10) as i32, 10u32, 10u32)
}

/// The rectangles of the lit cells among the first `upto` cells, in cell order.
pub open spec fn lit_blocks(bits: Seq<bool>, upto: int) -> Seq<Block>
    decreases upto,
{
    if upto <= 0 {
        Seq::empty()
    } else if bits[upto - 1] {
        lit_blocks(bits, upto - 1).push(block_of(upto - 1))
    } else {
        lit_blocks(bits, upto - 1)
    }
}

/// The monochrome 64 x 32 surface, row by row; `true` is a lit cell.
pub struct Display {
    pub bits: [bool; DISPLAY_SIZE],
}

impl Display {
    pub fn new() -> (d: Display)
        ensures
            forall|p: int| 0 <= p < 2048 ==> !d.bits@[p],
    {
        Display { bits: [false; DISPLAY_SIZE] }
    }

    /// Lists what a renderer has to fill, on a black ground, to show the
    /// surface: one white square per lit cell.
    pub fn draw(&self) -> (blocks: Vec<Block>)
        ensures
            blocks@ == lit_blocks(self.bits@, 2048),
    {
        let mut blocks: Vec<Block> = Vec::new();
        let mut p: usize = 0;
        while p < DISPLAY_SIZE
            invariant
                p <= 2048,
                blocks@ == lit_blocks(self.bits@, p as int),
            decreases 2048 - p,
        {
            if self.bits[p] {
                let x: i32 = (p % DISPLAY_WIDTH) as i32;
                let y: i32 = (p / DISPLAY_WIDTH) as i32;
                blocks.push((x * 10, y * 10, PIXEL_SCALE, PIXEL_SCALE));
            }
            p += 1;
        }
        blocks
    }

    pub fn clear_display(&mut self)
        ensures
            forall|p: int| 0 <= p < 2048 ==> !final(self).bits@[p],
    {
        self.bits = [false; DISPLAY_SIZE];
    }

    /// XORs the sprite of `rows` bytes at `mem[start..]` into the surface at
    /// `(vx, vy)`, wrapping on both axes, and tells whether any cell it
    /// touched was lit before.
    pub fn draw_sprite(&mut self, mem: &[u8; 4096], start: usize, rows: usize, vx: u8, vy: u8) -> (hit:
        bool)
        requires
            rows <= 15,
            start + rows <= 4096,
        ensures
            final(self).bits@ == blit(old(self).bits@, mem@, start as int, rows as int, vx as int, vy as int),
            hit == collides(old(self).bits@, mem@, start as int, rows as int, vx as int, vy as int),
    {
        let ghost before = self.bits@;
        let ghost s = start as int;
        let ghost n = rows as int;
        let ghost ax = vx as int;
        let ghost ay = vy as int;
        let mut hit = false;
        let mut r: usize = 0;
        while r < rows
            invariant
                r <= rows <= 15,
                start + rows <= 4096,
                s == start as int,
                n == rows as int,
                ax == vx as int,
                ay == vy as int,
                before.len() == 2048,
                forall|p: int|
                    0 <= p < 2048 ==> self.bits@[p] == (before[p] != hits_before(
                        mem@,
                        s,
                        n,
                        ax,
                        ay,
                        r as int,
                        0,
                        p,
                    )),
                hit == (exists|p: int|
                    0 <= p < 2048 && before[p] && #[trigger] hits_before(mem@, s, n, ax, ay, r as int, 0, p)),
            decreases rows - r,
        {
            let row: u8 = mem[start + r];
            let mut c: usize = 0;
            let mut mask: u8 = 128;
            while c < 8
                invariant
                    r < rows <= 15,
                    start + rows <= 4096,
                    s == start as int,
                    n == rows as int,
                    ax == vx as int,
                    ay == vy as int,
                    before.len() == 2048,
                    c <= 8,
                    mask as int == bit_weight(c as int),
                    row == mem@[s + r],
                    forall|p: int|
                        0 <= p < 2048 ==> self.bits@[p] == (before[p] != hits_before(
                            mem@,
                            s,
                            n,
                            ax,
                            ay,
                            r as int,
                            c as int,
                            p,
                        )),
                    hit == (exists|p: int|
                        0 <= p < 2048 && before[p] && #[trigger] hits_before(
                            mem@,
                            s,
                            n,
                            ax,
                            ay,
                            r as int,
                            c as int,
                            p,
                        )),
                decreases 8 - c,
            {
                let ghost hit_so_far = hit;
                let px: usize = (vx as usize + c) % DISPLAY_WIDTH;
                let py: usize = (vy as usize + r) % DISPLAY_HEIGHT;
                let loc: usize = px + DISPLAY_WIDTH * py;
                proof {
                    lemma_cell_of(ax, ay, r as int, c as int, loc as int);
                }
                if (row / mask) % 2 == 1 {
                    if self.bits[loc] {
                        hit = true;
                    }
                    let lit: bool = self.bits[loc];
                    self.bits[loc] = !lit;
                }
                proof {
                    assert forall|p: int| 0 <= p < 2048 implies self.bits@[p] == (before[p] != hits_before(
                        mem@,
                        s,
                        n,
                        ax,
                        ay,
                        r as int,
                        c as int + 1,
                        p,
                    )) by {
                        lemma_cell_of(ax, ay, r as int, c as int, p);
                    }
                    if hit {
                        if hit_so_far {
                            let w = choose|p: int|
                                0 <= p < 2048 && before[p] && #[trigger] hits_before(
                                    mem@,
                                    s,
                                    n,
                                    ax,
                                    ay,
                                    r as int,
                                    c as int,
                                    p,
                                );
                            assert(hits_before(mem@, s, n, ax, ay, r as int, c as int + 1, w));
                        } else {
                            assert(hits_before(mem@, s, n, ax, ay, r as int, c as int + 1, loc as int));
                        }
                    } else {
                        assert forall|p: int| 0 <= p < 2048 && before[p] implies !hits_before(
                            mem@,
                            s,
                            n,
                            ax,
                            ay,
                            r as int,
                            c as int + 1,
                            p,
                        ) by {
                            lemma_cell_of(ax, ay, r as int, c as int, p);
                            assert(!hits_before(mem@, s, n, ax, ay, r as int, c as int, p));
                        }
                    }
                }
                c += 1;
                mask = mask / 2;
            }
            proof {
                assert forall|p: int| 0 <= p < 2048 implies hits_before(mem@, s, n, ax, ay, r as int, 8, p)
                    == hits_before(mem@, s, n, ax, ay, r as int + 1, 0, p) by {}
            }
            r += 1;
        }
        proof {
            assert forall|p: int| 0 <= p < 2048 implies hits_before(mem@, s, n, ax, ay, n, 0, p)
                == sprite_hits(mem@, s, n, ax, ay, p) by {}
            assert(self.bits@ =~= blit(before, mem@, s, n, ax, ay));
            if hit {
                let w = choose|p: int|
                    0 <= p < 2048 && before[p] && #[trigger] hits_before(mem@, s, n, ax, ay, n, 0, p);
                assert(sprite_hits(mem@, s, n, ax, ay, w));
            } else {
                assert forall|p: int| 0 <= p < 2048 && before[p] implies !sprite_hits(
                    mem@,
                    s,
                    n,
                    ax,
                    ay,
                    p,
                ) by {
                    assert(!hits_before(mem@, s, n, ax, ay, n, 0, p));
                }
            }
        }
        hit
    }
}

/// Cell `loc` is where row `r`, column `c` of a sprite anchored at
/// `(vx, vy)` lands, and no other cell is.
proof fn lemma_cell_of(vx: int, vy: int, r: int, c: int, p: int)
    requires
        0 <= vx < 256,
        0 <= vy < 256,
        0 <= r < 32,
        0 <= c < 64,
        0 <= p < 2048,
    ensures
        (sprite_row(vy, p) == r && sprite_col(vx, p) == c) <==> p == (vx + c) % 64 + 64 * ((vy + r) % 32),
        0 <= sprite_row(vy, p) < 32,
        0 <= sprite_col(vx, p) < 64,
{
}

} // verus!
