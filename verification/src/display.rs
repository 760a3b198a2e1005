//! Facts about drawing sprites on the screen.

use vstd::prelude::*;
use crate::instruction::Instruction;
use crate::model::{blank_screen, flag, sprite_bit, MachineState, SCREEN_SIZE};

verus! {

/// The index of the pixel that column `col` of row `row` of a sprite lands
/// on, when the sprite's top left corner is at (`x0`, `y0`).
pub open spec fn landing_pixel(x0: u8, y0: u8, row: int, col: int) -> int {
    (x0 + col) % 64 + 64 * ((y0 + row) % 32)
}

/// Each cell of a sprite of at most 32 rows and 64 columns lands on a pixel
/// of its own: pixel `p` lies in column `col` of row `row` of the sprite
/// exactly if it is that cell's landing pixel.
pub proof fn lemma_landing_pixel(x0: u8, y0: u8, row: int, col: int, p: int)
    requires
        0 <= row < 32,
        0 <= col < 64,
        0 <= p < 2048,
    ensures
        0 <= landing_pixel(x0, y0, row, col) < 2048,
        ((p % 64 - x0) % 64 == col && (p / 64 - y0) % 32 == row) <==> p == landing_pixel(
            x0,
            y0,
            row,
            col,
        ),
{
}

/// Law of drawing: the sprite touches the landing pixel of each of its lit
/// cells and no other pixel. So cell (`row`, `col`), where it is lit, flips
/// the pixel at column `(x0 + col) mod 64` of row `(y0 + row) mod 32`.
pub proof fn lemma_sprite_touches_landing_pixels(s: MachineState, x0: u8, y0: u8, n: u8, p: int)
    requires
        n < 16,
        0 <= p < SCREEN_SIZE,
    ensures
        s.sprite_pixel(x0, y0, n, p) <==> exists|row: int, col: int|
            0 <= row < n && 0 <= col < 8 && p == #[trigger] landing_pixel(x0, y0, row, col) && sprite_bit(
                s.mem[s.i + row],
                col,
            ),
{
    let c = (p % 64 - x0) % 64;
    let r = (p / 64 - y0) % 32;
    lemma_landing_pixel(x0, y0, r, c, p);
    if s.sprite_pixel(x0, y0, n, p) {
        assert(p == landing_pixel(x0, y0, r, c));
    }
    if exists|row: int, col: int|
        0 <= row < n && 0 <= col < 8 && p == #[trigger] landing_pixel(x0, y0, row, col) && sprite_bit(
            s.mem[s.i + row],
            col,
        ) {
        let (row, col) = choose|row: int, col: int|
            0 <= row < n && 0 <= col < 8 && p == #[trigger] landing_pixel(x0, y0, row, col) && sprite_bit(
                s.mem[s.i + row],
                col,
            );
        lemma_landing_pixel(x0, y0, row, col, p);
    }
}

/// Whether pixel `p` is touched by the part of the sprite that comes before
/// column `col` of row `row`, going through the sprite row by row.
pub(crate) open spec fn sprite_pixel_before(
    s: MachineState,
    x0: u8,
    y0: u8,
    n: u8,
    p: int,
    row: int,
    col: int,
) -> bool {
    let c = (p % 64 - x0) % 64;
    let r = (p / 64 - y0) % 32;
    s.sprite_pixel(x0, y0, n, p) && (r < row || (r == row && c < col))
}

/// Whether the part of the sprite that comes before column `col` of row
/// `row` touches a pixel that is lit in `s`.
pub(crate) open spec fn collides_before(s: MachineState, x0: u8, y0: u8, n: u8, row: int, col: int) -> bool {
    exists|p: int|
        0 <= p < SCREEN_SIZE && s.screen[p] && #[trigger] sprite_pixel_before(s, x0, y0, n, p, row, col)
}

/// Going one cell further in a row adds that cell's landing pixel, where the
/// cell is lit, and nothing else.
pub(crate) proof fn lemma_next_cell(s: MachineState, x0: u8, y0: u8, n: u8, row: int, col: int)
    requires
        0 <= row < n < 32,
        0 <= col < 8,
    ensures
        ({
            let target = landing_pixel(x0, y0, row, col);
            let lit = sprite_bit(s.mem[s.i + row], col);
            &&& 0 <= target < SCREEN_SIZE
            &&& !sprite_pixel_before(s, x0, y0, n, target, row, col)
            &&& forall|p: int|
                0 <= p < SCREEN_SIZE ==> (#[trigger] sprite_pixel_before(s, x0, y0, n, p, row, col + 1)
                    <==> sprite_pixel_before(s, x0, y0, n, p, row, col) || (p == target && lit))
            &&& collides_before(s, x0, y0, n, row, col + 1) <==> collides_before(s, x0, y0, n, row, col)
                || (lit && s.screen[target])
        }),
{
    let target = landing_pixel(x0, y0, row, col);
    let lit = sprite_bit(s.mem[s.i + row], col);
    let next = col + 1;
    lemma_landing_pixel(x0, y0, row, col, target);
    assert forall|p: int| 0 <= p < SCREEN_SIZE implies (#[trigger] sprite_pixel_before(
        s,
        x0,
        y0,
        n,
        p,
        row,
        next,
    ) <==> sprite_pixel_before(s, x0, y0, n, p, row, col) || (p == target && lit)) by {
        lemma_landing_pixel(x0, y0, row, col, p);
    }
    if collides_before(s, x0, y0, n, row, col) {
        let p = choose|p: int|
            0 <= p < SCREEN_SIZE && s.screen[p] && #[trigger] sprite_pixel_before(s, x0, y0, n, p, row, col);
        assert(sprite_pixel_before(s, x0, y0, n, p, row, next));
    }
    if lit && s.screen[target] {
        assert(sprite_pixel_before(s, x0, y0, n, target, row, next));
    }
    if collides_before(s, x0, y0, n, row, next) {
        let p = choose|p: int|
            0 <= p < SCREEN_SIZE && s.screen[p] && #[trigger] sprite_pixel_before(s, x0, y0, n, p, row, next);
        assert(sprite_pixel_before(s, x0, y0, n, p, row, col) || (p == target && lit));
    }
}

/// The end of one row is the start of the next: no cell beyond the eighth
/// column is lit.
pub(crate) proof fn lemma_next_row(s: MachineState, x0: u8, y0: u8, n: u8, row: int)
    ensures
        forall|p: int|
            0 <= p < SCREEN_SIZE ==> (#[trigger] sprite_pixel_before(s, x0, y0, n, p, row + 1, 0)
                <==> sprite_pixel_before(s, x0, y0, n, p, row, 8)),
        collides_before(s, x0, y0, n, row + 1, 0) <==> collides_before(s, x0, y0, n, row, 8),
{
    let next = row + 1;
    assert forall|p: int| 0 <= p < SCREEN_SIZE implies (#[trigger] sprite_pixel_before(
        s,
        x0,
        y0,
        n,
        p,
        next,
        0,
    ) <==> sprite_pixel_before(s, x0, y0, n, p, row, 8)) by {}
    if collides_before(s, x0, y0, n, row, 8) {
        let p = choose|p: int|
            0 <= p < SCREEN_SIZE && s.screen[p] && #[trigger] sprite_pixel_before(s, x0, y0, n, p, row, 8);
        assert(sprite_pixel_before(s, x0, y0, n, p, next, 0));
    }
    if collides_before(s, x0, y0, n, next, 0) {
        let p = choose|p: int|
            0 <= p < SCREEN_SIZE && s.screen[p] && #[trigger] sprite_pixel_before(s, x0, y0, n, p, next, 0);
        assert(sprite_pixel_before(s, x0, y0, n, p, row, 8));
    }
}

/// Before the first cell nothing is touched; after the last row the whole
/// sprite is.
pub(crate) proof fn lemma_whole_sprite(s: MachineState, x0: u8, y0: u8, n: u8)
    ensures
        forall|p: int| 0 <= p < SCREEN_SIZE ==> !#[trigger] sprite_pixel_before(s, x0, y0, n, p, 0, 0),
        !collides_before(s, x0, y0, n, 0, 0),
        forall|p: int|
            0 <= p < SCREEN_SIZE ==> (#[trigger] sprite_pixel_before(s, x0, y0, n, p, n as int, 0)
                <==> s.sprite_pixel(x0, y0, n, p)),
        collides_before(s, x0, y0, n, n as int, 0) <==> s.collides(x0, y0, n),
{
    let rows = n as int;
    if collides_before(s, x0, y0, n, rows, 0) {
        let p = choose|p: int|
            0 <= p < SCREEN_SIZE && s.screen[p] && #[trigger] sprite_pixel_before(s, x0, y0, n, p, rows, 0);
        assert(s.sprite_pixel(x0, y0, n, p));
    }
    if s.collides(x0, y0, n) {
        let p = choose|p: int| 0 <= p < SCREEN_SIZE && s.screen[p] && #[trigger] s.sprite_pixel(x0, y0, n, p);
        assert(sprite_pixel_before(s, x0, y0, n, p, rows, 0));
    }
}

/// Whether the `n`-row sprite at the address register has a lit cell.
pub open spec fn sprite_has_lit_cell(s: MachineState, n: u8) -> bool {
    exists|row: int, col: int| 0 <= row < n && 0 <= col < 8 && #[trigger] sprite_bit(s.mem[s.i + row], col)
}

/// Law of drawing: a sprite drawn twice at the same place leaves the screen
/// as it was. On a screen that was blank, the first draw reports no
/// collision, and the second reports one exactly if the sprite has a lit
/// cell.
///
/// The place is the same if the first draw does not change the two
/// coordinate registers; it changes one only where that is the flag
/// register.
pub proof fn lemma_draw_twice(s: MachineState, x: usize, y: usize, n: u8)
    requires
        s.wf(),
        x < 16,
        y < 16,
        n < 16,
        s.executed(Instruction::Draw { x, y, n }, 0) is Ok,
        ({
            let once = s.executed(Instruction::Draw { x, y, n }, 0)->Ok_0;
            once.v[x as int] == s.v[x as int] && once.v[y as int] == s.v[y as int]
        }),
    ensures
        ({
            let draw = Instruction::Draw { x, y, n };
            let once = s.executed(draw, 0)->Ok_0;
            let twice = once.executed(draw, 0)->Ok_0;
            &&& once.executed(draw, 0) is Ok
            &&& twice.screen == s.screen
            &&& s.screen == blank_screen() ==> once.v[0xF] == 0 && twice.v[0xF] == flag(
                sprite_has_lit_cell(s, n),
            )
        }),
{
    let draw = Instruction::Draw { x, y, n };
    let (x0, y0) = (s.v[x as int], s.v[y as int]);
    let once = s.executed(draw, 0)->Ok_0;
    let twice = once.executed(draw, 0)->Ok_0;
    assert forall|p: int| 0 <= p < SCREEN_SIZE implies once.sprite_pixel(x0, y0, n, p) == s.sprite_pixel(
        x0,
        y0,
        n,
        p,
    ) by {}
    assert(twice.screen =~= s.screen);
    if s.screen == blank_screen() {
        if sprite_has_lit_cell(s, n) {
            let (row, col) = choose|row: int, col: int|
                0 <= row < n && 0 <= col < 8 && #[trigger] sprite_bit(s.mem[s.i + row], col);
            let p = landing_pixel(x0, y0, row, col);
            lemma_landing_pixel(x0, y0, row, col, p);
            assert(once.sprite_pixel(x0, y0, n, p));
            assert(once.screen[p]);
            assert(once.collides(x0, y0, n));
        }
        if once.collides(x0, y0, n) {
            let p = choose|p: int|
                0 <= p < SCREEN_SIZE && once.screen[p] && #[trigger] once.sprite_pixel(x0, y0, n, p);
            let col = (p % 64 - x0) % 64;
            let row = (p / 64 - y0) % 32;
            assert(sprite_bit(s.mem[s.i + row], col));
        }
    }
}

} // verus!
