//! The 64 by 32 monochrome display.
//!
//! The model of the display is a sequence of 2048 booleans in row-major
//! order, `true` for a lit cell. Sprites are drawn by exclusive or, so a
//! draw is described cell by cell: a cell changes exactly when a set bit
//! of the sprite lands on it.

use vstd::prelude::*;

verus! {

/// Width of the display in cells.
pub const COLS: usize = 64;

/// Height of the display in cells.
pub const ROWS: usize = 32;

/// Number of cells of the display.
pub const CELLS: usize = 2048;

/// Position in the row-major grid of the cell at column `x`, row `y`;
/// coordinates beyond the edges wrap around.
pub open spec fn cell_index(x: int, y: int) -> int {
    (y % 32) * 64 + x % 64
}

/// A display with every cell dark.
pub open spec fn blank() -> Seq<bool> {
    Seq::new(2048, |k: int| false)
}

/// Whether bit `col` of a sprite row is set; bit 0 is the leftmost.
pub open spec fn sprite_bit(row: u8, col: u8) -> bool {
    (row & (0x80u8 >> col)) != 0
}

/// Sprite column that falls on cell `k` when the sprite's left edge is at
/// column `x`.
pub open spec fn sprite_col(x: int, k: int) -> int {
    (k % 64 - x) % 64
}

/// Sprite row that falls on cell `k` when the sprite's top edge is at
/// row `y`.
pub open spec fn sprite_row(y: int, k: int) -> int {
    (k / 64 - y) % 32
}

/// Whether the sprite `rows`, placed with its top-left corner at
/// (`x`, `y`) and wrapped at the edges, puts a set bit on cell `k`. A
/// sprite is no taller than the display and no wider than eight cells,
/// so at most one of its bits falls on a cell.
pub open spec fn sprite_hits(rows: Seq<u8>, x: int, y: int, k: int) -> bool {
    let col = sprite_col(x, k);
    let row = sprite_row(y, k);
    row < rows.len() && col < 8 && sprite_bit(rows[row], col as u8)
}

/// The display after the sprite `rows` has been drawn at (`x`, `y`).
pub open spec fn drawn(screen: Seq<bool>, rows: Seq<u8>, x: int, y: int) -> Seq<bool> {
    Seq::new(screen.len(), |k: int| screen[k] != sprite_hits(rows, x, y, k))
}

/// Whether drawing the sprite `rows` at (`x`, `y`) turns a lit cell dark.
pub open spec fn collides(screen: Seq<bool>, rows: Seq<u8>, x: int, y: int) -> bool {
    exists|k: int| 0 <= k < screen.len() && #[trigger] screen[k] && sprite_hits(rows, x, y, k)
}

/// Whether the part of the sprite drawn so far, its rows above `r` and
/// the first `c` columns of row `r`, puts a set bit on cell `k`.
pub open spec fn partly_hits(rows: Seq<u8>, x: int, y: int, r: int, c: int, k: int) -> bool {
    &&& sprite_hits(rows, x, y, k)
    &&& sprite_row(y, k) < r || (sprite_row(y, k) == r && sprite_col(x, k) < c)
}

/// The one cell on which column `c` of sprite row `r` falls.
proof fn lemma_cell_of_offset(x: int, y: int, r: int, c: int, k: int)
    requires
        0 <= r < 32,
        0 <= c < 64,
        0 <= k < 2048,
    ensures
        (sprite_row(y, k) == r && sprite_col(x, k) == c) <==> k == cell_index(x + c, y + r),
        0 <= cell_index(x + c, y + r) < 2048,
{
}

/// The display: 2048 cells, each lit or dark. Its view lists the cells
/// in row-major order.
pub struct Framebuffer {
    cells: [bool; 2048],
}

impl View for Framebuffer {
    type V = Seq<bool>;

    closed spec fn view(&self) -> Seq<bool> {
        self.cells@
    }
}

impl Framebuffer {
    /// A dark display.
    pub fn new() -> (fb: Framebuffer)
        ensures
            fb@ == blank(),
    {
        Framebuffer { cells: [false; 2048] }
    }

    /// The view always has one entry per cell.
    pub proof fn lemma_len(&self)
        ensures
            self@.len() == 2048,
    {
    }

    /// Number of columns of the grid.
    pub fn width(&self) -> (w: usize)
        ensures
            w == 64,
    {
        COLS
    }

    /// Number of rows of the grid.
    pub fn height(&self) -> (h: usize)
        ensures
            h == 32,
    {
        ROWS
    }

    /// Turns every cell dark.
    pub fn clear(&mut self)
        ensures
            final(self)@ == blank(),
    {
        self.cells = [false; 2048];
    }

    /// Whether the cell at column `x`, row `y` is lit; coordinates wrap.
    pub fn is_lit(&self, x: usize, y: usize) -> (lit: bool)
        ensures
            lit == self@[cell_index(x as int, y as int)],
    {
        self.cells[(y % ROWS) * COLS + x % COLS]
    }

    /// Flips the cell at column `x`, row `y` (coordinates wrap) and
    /// reports a collision: whether the cell was lit and is now dark.
    pub fn set_xor(&mut self, x: usize, y: usize) -> (collision: bool)
        ensures
            collision == old(self)@[cell_index(x as int, y as int)],
            final(self)@ == old(self)@.update(cell_index(x as int, y as int), !collision),
    {
        let k = (y % ROWS) * COLS + x % COLS;
        let was_lit = self.cells[k];
        self.cells[k] = !was_lit;
        was_lit
    }

    /// A copy of the grid for a renderer: one byte per cell in row-major
    /// order, 1 for a lit cell and 0 for a dark one.
    pub fn get_buffer(&self) -> (buffer: [u8; 2048])
        ensures
            forall|k: int| 0 <= k < 2048 ==> buffer@[k] == (if self@[k] { 1u8 } else { 0u8 }),
    {
        let mut buffer = [0u8; 2048];
        let mut k: usize = 0;
        while k < CELLS
            invariant
                k <= 2048,
                forall|j: int| 0 <= j < k ==> buffer@[j] == (if self@[j] { 1u8 } else { 0u8 }),
            decreases 2048 - k,
        {
            if self.cells[k] {
                buffer[k] = 1;
            } else {
                buffer[k] = 0;
            }
            k = k + 1;
        }
        buffer
    }

    /// Draws the sprite held in the `n` bytes of `memory` from `start` on
    /// with its top-left corner at (`x`, `y`): each set bit flips the
    /// cell it lands on, and coordinates wrap at the edges. Reports
    /// whether a lit cell was turned dark. A sprite is no taller than the
    /// display, so no cell is touched twice.
    pub(crate) fn draw_sprite(
        &mut self,
        memory: &[u8; 4096],
        start: usize,
        n: usize,
        x: u8,
        y: u8,
    ) -> (collision: bool)
        requires
            start + n <= 4096,
            n <= 32,
        ensures
            final(self)@ == drawn(
                old(self)@,
                memory@.subrange(start as int, start + n),
                x as int,
                y as int,
            ),
            collision == collides(
                old(self)@,
                memory@.subrange(start as int, start + n),
                x as int,
                y as int,
            ),
    {
        let ghost begin = self@;
        let ghost rows = memory@.subrange(start as int, start + n);
        let mut collision = false;
        let mut r: usize = 0;
        while r < n
            invariant
                r <= n <= 32,
                start + n <= 4096,
                begin.len() == 2048,
                rows == memory@.subrange(start as int, start + n),
                forall|k: int|
                    0 <= k < 2048 ==> self@[k] == (begin[k] != partly_hits(
                        rows,
                        x as int,
                        y as int,
                        r as int,
                        0,
                        k,
                    )),
                collision == exists|k: int|
                    0 <= k < 2048 && #[trigger] begin[k] && partly_hits(
                        rows,
                        x as int,
                        y as int,
                        r as int,
                        0,
                        k,
                    ),
            decreases n - r,
        {
            let byte = memory[start + r];
            collision = self.xor_row(Ghost(begin), Ghost(rows), byte, x, y, r, collision);
            proof {
                assert forall|k: int| 0 <= k < 2048 implies partly_hits(
                    rows,
                    x as int,
                    y as int,
                    r as int,
                    8,
                    k,
                ) == partly_hits(rows, x as int, y as int, r as int + 1, 0, k) by {}
            }
            r = r + 1;
        }
        proof {
            assert forall|k: int| 0 <= k < 2048 implies partly_hits(
                rows,
                x as int,
                y as int,
                n as int,
                0,
                k,
            ) == sprite_hits(rows, x as int, y as int, k) by {}
            assert(self@ =~= drawn(begin, rows, x as int, y as int));
        }
        collision
    }

    /// Draws the eight cells of one sprite row, `byte`, which is row `r`
    /// of the sprite `rows` placed at (`x`, `y`).
    fn xor_row(
        &mut self,
        Ghost(start): Ghost<Seq<bool>>,
        Ghost(rows): Ghost<Seq<u8>>,
        byte: u8,
        x: u8,
        y: u8,
        r: usize,
        hit_before: bool,
    ) -> (hit: bool)
        requires
            start.len() == 2048,
            r < rows.len() <= 32,
            byte == rows[r as int],
            forall|k: int|
                0 <= k < 2048 ==> old(self)@[k] == (start[k] != partly_hits(
                    rows,
                    x as int,
                    y as int,
                    r as int,
                    0,
                    k,
                )),
            hit_before == exists|k: int|
                0 <= k < 2048 && #[trigger] start[k] && partly_hits(
                    rows,
                    x as int,
                    y as int,
                    r as int,
                    0,
                    k,
                ),
        ensures
            forall|k: int|
                0 <= k < 2048 ==> final(self)@[k] == (start[k] != partly_hits(
                    rows,
                    x as int,
                    y as int,
                    r as int,
                    8,
                    k,
                )),
            hit == exists|k: int|
                0 <= k < 2048 && #[trigger] start[k] && partly_hits(
                    rows,
                    x as int,
                    y as int,
                    r as int,
                    8,
                    k,
                ),
    {
        let mut hit = hit_before;
        let py: usize = (y as usize + r) % ROWS;
        let mut c: u8 = 0;
        while c < 8
            invariant
                c <= 8,
                start.len() == 2048,
                r < rows.len() <= 32,
                byte == rows[r as int],
                py == (y + r) % 32,
                forall|k: int|
                    0 <= k < 2048 ==> self@[k] == (start[k] != partly_hits(
                        rows,
                        x as int,
                        y as int,
                        r as int,
                        c as int,
                        k,
                    )),
                hit == exists|k: int|
                    0 <= k < 2048 && #[trigger] start[k] && partly_hits(
                        rows,
                        x as int,
                        y as int,
                        r as int,
                        c as int,
                        k,
                    ),
            decreases 8 - c,
        {
            let ghost before = self@;
            let ghost hit_so_far = hit;
            let ghost target = cell_index(x as int + c as int, y as int + r as int);
            if (byte & (0x80u8 >> c)) != 0 {
                let px: usize = (x as usize + c as usize) % COLS;
                if self.set_xor(px, py) {
                    hit = true;
                }
            }
            proof {
                assert forall|k: int| 0 <= k < 2048 implies self@[k] == (start[k] != partly_hits(
                    rows,
                    x as int,
                    y as int,
                    r as int,
                    c as int + 1,
                    k,
                )) by {
                    lemma_cell_of_offset(x as int, y as int, r as int, c as int, k);
                }
                lemma_cell_of_offset(x as int, y as int, r as int, c as int, target);
                if hit {
                    if hit_so_far {
                        let w = choose|k: int|
                            0 <= k < 2048 && #[trigger] start[k] && partly_hits(
                                rows,
                                x as int,
                                y as int,
                                r as int,
                                c as int,
                                k,
                            );
                        assert(start[w] && partly_hits(
                            rows,
                            x as int,
                            y as int,
                            r as int,
                            c as int + 1,
                            w,
                        ));
                    } else {
                        assert(start[target] && partly_hits(
                            rows,
                            x as int,
                            y as int,
                            r as int,
                            c as int + 1,
                            target,
                        ));
                    }
                } else {
                    assert forall|k: int| 0 <= k < 2048 && #[trigger] start[k] implies !partly_hits(
                        rows,
                        x as int,
                        y as int,
                        r as int,
                        c as int + 1,
                        k,
                    ) by {
                        lemma_cell_of_offset(x as int, y as int, r as int, c as int, k);
                    }
                }
            }
            c = c + 1;
        }
        hit
    }
}

/// Bit `c` of row `r` of a sprite at (`x`, `y`) falls on the cell in
/// column `(x + c) % 64` and row `(y + r) % 32`, and on no other.
pub proof fn lemma_sprite_lands(rows: Seq<u8>, x: int, y: int, r: int, c: int)
    requires
        rows.len() <= 32,
        0 <= r < rows.len(),
        0 <= c < 8,
    ensures
        0 <= cell_index(x + c, y + r) < 2048,
        sprite_hits(rows, x, y, cell_index(x + c, y + r)) == sprite_bit(rows[r], c as u8),
        forall|k: int|
            0 <= k < 2048 && sprite_row(y, k) == r && sprite_col(x, k) == c ==> k == cell_index(
                x + c,
                y + r,
            ),
{
    lemma_cell_of_offset(x, y, r, c, cell_index(x + c, y + r));
    assert forall|k: int| 0 <= k < 2048 && sprite_row(y, k) == r && sprite_col(x, k)
        == c implies k == cell_index(x + c, y + r) by {
        lemma_cell_of_offset(x, y, r, c, k);
    }
}

/// Drawing is its own inverse: a sprite drawn twice at the same place
/// leaves the display as it was.
pub proof fn lemma_draw_twice_restores(screen: Seq<bool>, rows: Seq<u8>, x: int, y: int)
    ensures
        drawn(drawn(screen, rows, x, y), rows, x, y) == screen,
{
    assert(drawn(drawn(screen, rows, x, y), rows, x, y) =~= screen);
}

/// The second of two equal draws reports a collision exactly when the
/// first one lit a cell: when the sprite has a set bit on a cell that
/// was dark.
pub proof fn lemma_second_draw_collides(screen: Seq<bool>, rows: Seq<u8>, x: int, y: int)
    ensures
        collides(drawn(screen, rows, x, y), rows, x, y) <==> exists|k: int|
            0 <= k < screen.len() && !#[trigger] screen[k] && sprite_hits(rows, x, y, k),
{
    let once = drawn(screen, rows, x, y);
    if collides(once, rows, x, y) {
        let k = choose|k: int|
            0 <= k < once.len() && #[trigger] once[k] && sprite_hits(rows, x, y, k);
        assert(!screen[k] && sprite_hits(rows, x, y, k));
    }
    if exists|k: int| 0 <= k < screen.len() && !#[trigger] screen[k] && sprite_hits(rows, x, y, k) {
        let k = choose|k: int|
            0 <= k < screen.len() && !#[trigger] screen[k] && sprite_hits(rows, x, y, k);
        assert(once[k] && sprite_hits(rows, x, y, k));
    }
}

/// A draw on a dark display never collides, and lights exactly the
/// cells on which the sprite has a set bit.
pub proof fn lemma_draw_on_blank(rows: Seq<u8>, x: int, y: int)
    ensures
        !collides(blank(), rows, x, y),
        forall|k: int|
            0 <= k < 2048 ==> drawn(blank(), rows, x, y)[k] == sprite_hits(rows, x, y, k),
{
}

} // verus!
