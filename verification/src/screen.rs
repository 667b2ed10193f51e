//! The screen: 64 by 32 pixels, each on or off, drawn on by XOR.

use vstd::prelude::*;
use crate::config::{CHIP8_MEM_SIZE, CHIP8_SCREEN_HEIGHT, CHIP8_SCREEN_WIDTH};
use crate::errors::VMError;
use crate::ram::{spec_block, spec_check_block, RAM};

verus! {

/// A screen is 64 columns of 32 pixels each: `p[x][y]` is the pixel in column
/// `x` of row `y`.
pub open spec fn screen_wf(p: Seq<Seq<bool>>) -> bool {
    &&& p.len() == CHIP8_SCREEN_WIDTH
    &&& forall|x: int| 0 <= x < CHIP8_SCREEN_WIDTH ==> (#[trigger] p[x]).len() == CHIP8_SCREEN_HEIGHT
}

/// The screen with every pixel off.
pub open spec fn blank_screen() -> Seq<Seq<bool>> {
    Seq::new(
        CHIP8_SCREEN_WIDTH as nat,
        |x: int| Seq::new(CHIP8_SCREEN_HEIGHT as nat, |y: int| false),
    )
}

/// The screen `p` with the pixel at (`x`, `y`) inverted.
pub open spec fn toggle_pixel(p: Seq<Seq<bool>>, x: int, y: int) -> Seq<Seq<bool>> {
    p.update(x, p[x].update(y, !p[x][y]))
}

/// Whether pixel `col` of the sprite row `byte` is set. A row has eight pixels,
/// the leftmost in the highest bit.
pub open spec fn sprite_bit(byte: u8, col: int) -> bool {
    0 <= col < 8 && byte & (0x80u8 >> (col as u8)) != 0
}

/// The pixel of a sprite row that lands on screen column `px` when the row is
/// drawn from column `x` on. Columns wrap: the one after 63 is 0.
pub open spec fn sprite_column(x: int, px: int) -> int {
    (px - x) % (CHIP8_SCREEN_WIDTH as int)
}

/// The screen `p` after the sprite row `byte` was drawn on row `line` from
/// column `x` on: the pixels under set pixels of the sprite are inverted.
pub open spec fn draw_row(p: Seq<Seq<bool>>, x: int, line: int, byte: u8) -> Seq<Seq<bool>> {
    Seq::new(
        CHIP8_SCREEN_WIDTH as nat,
        |px: int|
            Seq::new(
                CHIP8_SCREEN_HEIGHT as nat,
                |py: int|
                    if py == line && sprite_bit(byte, sprite_column(x, px)) {
                        !p[px][py]
                    } else {
                        p[px][py]
                    },
            ),
    )
}

/// Whether drawing the sprite row `byte` on row `line` from column `x` on hits
/// a pixel of `p` that is on.
pub open spec fn row_collides(p: Seq<Seq<bool>>, x: int, line: int, byte: u8) -> bool {
    exists|px: int|
        0 <= px < CHIP8_SCREEN_WIDTH && sprite_bit(byte, #[trigger] sprite_column(x, px))
            && p[px][line]
}

/// The screen `p` after the sprite `rows` was drawn with its top left corner at
/// (`x`, `y`), and whether any of its rows hit a pixel that was on when that row
/// was drawn. Rows wrap as columns do: the one after 31 is 0.
#[verifier::opaque]
pub open spec fn draw_rows(p: Seq<Seq<bool>>, x: int, y: int, rows: Seq<u8>) -> (
    Seq<Seq<bool>>,
    bool,
)
    decreases rows.len(),
{
    if rows.len() == 0 {
        (p, false)
    } else {
        let before = draw_rows(p, x, y, rows.drop_last());
        let line = (y + rows.len() - 1) % (CHIP8_SCREEN_HEIGHT as int);
        (
            draw_row(before.0, x, line, rows.last()),
            before.1 || row_collides(before.0, x, line, rows.last()),
        )
    }
}

/// What drawing `tbytes` sprite rows, read from `memory` at `offset`, does to
/// the screen `p`. Where the sprite reaches past the end of memory it fails.
pub open spec fn spec_draw_sprite(
    p: Seq<Seq<bool>>,
    x: int,
    y: int,
    memory: Seq<u8>,
    offset: int,
    tbytes: int,
) -> Result<(Seq<Seq<bool>>, bool), VMError> {
    match spec_check_block(offset, tbytes) {
        Err(e) => Err(e),
        Ok(_) => Ok(draw_rows(p, x, y, spec_block(memory, offset, tbytes))),
    }
}

/// The state of the pixel at (`x`, `y`) of the screen `p`.
pub open spec fn spec_is_pixel_set(p: Seq<Seq<bool>>, x: int, y: int) -> Result<bool, VMError> {
    if 0 <= x < CHIP8_SCREEN_WIDTH && 0 <= y < CHIP8_SCREEN_HEIGHT {
        Ok(p[x][y])
    } else {
        Err(VMError::ScreenOutOfBounds(x as usize, y as usize))
    }
}

/// A pixel in a trace: `X` where it is on, a dot where it is off, and a comma.
pub open spec fn pixel_text(on: bool) -> Seq<char> {
    if on {
        "X,"@
    } else {
        ".,"@
    }
}

/// The first `count` pixels of row `y` of the screen in a trace.
pub open spec fn row_text(p: Seq<Seq<bool>>, y: int, count: int) -> Seq<char>
    decreases count,
{
    if count <= 0 {
        Seq::empty()
    } else {
        row_text(p, y, count - 1) + pixel_text(p[count - 1][y])
    }
}

/// The first `count` rows of the screen in a trace, one line each.
pub open spec fn rows_text(p: Seq<Seq<bool>>, count: int) -> Seq<char>
    decreases count,
{
    if count <= 0 {
        Seq::empty()
    } else {
        rows_text(p, count - 1) + row_text(p, count - 1, CHIP8_SCREEN_WIDTH as int) + "\n"@
    }
}

/// The screen in a trace: one line for each row of pixels.
pub open spec fn spec_dump(p: Seq<Seq<bool>>) -> Seq<char> {
    rows_text(p, CHIP8_SCREEN_HEIGHT as int)
}

/// The screen of the machine.
pub struct Screen {
    pixels: [[bool; CHIP8_SCREEN_HEIGHT]; CHIP8_SCREEN_WIDTH],
}

impl View for Screen {
    type V = Seq<Seq<bool>>;

    /// The pixels by column and row.
    closed spec fn view(&self) -> Seq<Seq<bool>> {
        Seq::new(CHIP8_SCREEN_WIDTH as nat, |x: int| self.pixels@[x]@)
    }
}

impl Screen {
    /// Every screen has 64 columns of 32 pixels.
    pub broadcast proof fn lemma_wf(&self)
        ensures
            #[trigger] screen_wf(self@),
    {
    }

    /// The state of the pixel at (`x`, `y`).
    pub fn is_pixel_set(&self, x: usize, y: usize) -> (res: Result<bool, VMError>)
        ensures
            res == spec_is_pixel_set(self@, x as int, y as int),
    {
        if !self.check_bounds(x, y) {
            return Err(VMError::ScreenOutOfBounds(x, y));
        }
        Ok(self.pixels[x][y])
    }

    /// Inverts the pixel at (`x`, `y`) and tells whether it was on.
    fn toggle(&mut self, x: usize, y: usize) -> (was_on: bool)
        requires
            x < CHIP8_SCREEN_WIDTH,
            y < CHIP8_SCREEN_HEIGHT,
        ensures
            was_on == old(self)@[x as int][y as int],
            final(self)@ == toggle_pixel(old(self)@, x as int, y as int),
    {
        let was_on: bool = self.pixels[x][y];
        self.pixels[x][y] = !was_on;
        assert(self@ =~~= toggle_pixel(old(self)@, x as int, y as int));
        was_on
    }

    /// Draws one sprite row on row `line`, from column `x` on.
    fn draw_sprite_row(&mut self, x: usize, line: usize, sprite_byte: u8) -> (collision: bool)
        requires
            x < CHIP8_SCREEN_WIDTH,
            line < CHIP8_SCREEN_HEIGHT,
        ensures
            final(self)@ == draw_row(old(self)@, x as int, line as int, sprite_byte),
            collision == row_collides(old(self)@, x as int, line as int, sprite_byte),
    {
        broadcast use Screen::lemma_wf;

        let mut pixel_collision: bool = false;
        let mut lx: u8 = 0;
        while lx < 8
            invariant
                lx <= 8,
                x < CHIP8_SCREEN_WIDTH,
                line < CHIP8_SCREEN_HEIGHT,
                screen_wf(self@),
                screen_wf(old(self)@),
                forall|px: int, py: int|
                    0 <= px < CHIP8_SCREEN_WIDTH && 0 <= py < CHIP8_SCREEN_HEIGHT ==> #[trigger] self@[px][py]
                        == (if py == line && sprite_column(x as int, px) < lx && sprite_bit(
                        sprite_byte,
                        sprite_column(x as int, px),
                    ) {
                        !old(self)@[px][py]
                    } else {
                        old(self)@[px][py]
                    }),
                pixel_collision == (exists|px: int|
                    0 <= px < CHIP8_SCREEN_WIDTH && (#[trigger] sprite_column(x as int, px)) < lx
                        && sprite_bit(sprite_byte, sprite_column(x as int, px)) && old(
                        self,
                    )@[px][line as int]),
            decreases 8 - lx,
        {
            let ghost before = self@;
            let ghost hit_before = pixel_collision;
            // A clear bit of the sprite draws nothing.
            if sprite_byte & (0b1000_0000u8 >> lx) != 0b0000_0000 {
                let px: usize = (x + lx as usize) % CHIP8_SCREEN_WIDTH;
                assert(sprite_column(x as int, px as int) == lx);
                // An overwritten pixel that was on is a collision; XOR turns it off.
                if self.toggle(px, line) {
                    pixel_collision = true;
                }
                assert(before[px as int][line as int] == old(self)@[px as int][line as int]);
            }
            proof {
                let here = (x + lx as int) % (CHIP8_SCREEN_WIDTH as int);
                assert(sprite_column(x as int, here) == lx);
                assert forall|px: int|
                    0 <= px < CHIP8_SCREEN_WIDTH && #[trigger] sprite_column(x as int, px)
                        == lx implies px == here by {
                }
                assert(pixel_collision == (hit_before || (sprite_bit(sprite_byte, lx as int)
                    && old(self)@[here][line as int])));
            }
            lx += 1;
        }
        assert(self@ =~~= draw_row(old(self)@, x as int, line as int, sprite_byte));
        pixel_collision
    }

    /// Draws the `tbytes` rows of the sprite that `ram` holds at `offset` with its
    /// top left corner at (`x`, `y`), by XOR and wrapping at the edges, and tells
    /// whether a pixel that was on got overwritten. Where the sprite reaches past
    /// the end of memory nothing is drawn.
    pub fn draw_sprite(&mut self, x: usize, y: usize, offset: usize, ram: &RAM, tbytes: usize) -> (res:
        Result<bool, VMError>)
        ensures
            match spec_draw_sprite(
                old(self)@,
                x as int,
                y as int,
                ram@,
                offset as int,
                tbytes as int,
            ) {
                Ok((p, collision)) => res == Ok::<bool, VMError>(collision) && final(self)@ == p,
                Err(e) => res == Err::<bool, VMError>(e) && final(self)@ == old(self)@,
            },
    {
        broadcast use RAM::lemma_len;

        ram.check_block(offset, tbytes)?;
        if tbytes == 0 {
            proof {
                reveal_with_fuel(draw_rows, 1);
            }
            return Ok(false);
        }
        let sprite: &[u8] = ram.get_ref(offset);
        let ghost rows = spec_block(ram@, offset as int, tbytes as int);
        let x0: usize = x % CHIP8_SCREEN_WIDTH;
        let y0: usize = y % CHIP8_SCREEN_HEIGHT;
        let mut pixel_collision: bool = false;
        let mut ly: usize = 0;
        proof {
            assert(rows.take(0) =~= Seq::<u8>::empty());
            reveal_with_fuel(draw_rows, 1);
        }
        while ly < tbytes
            invariant
                ly <= tbytes,
                offset + tbytes <= CHIP8_MEM_SIZE,
                sprite@ == ram@.subrange(offset as int, CHIP8_MEM_SIZE as int),
                x0 == x % CHIP8_SCREEN_WIDTH,
                y0 == y % CHIP8_SCREEN_HEIGHT,
                ram@.len() == CHIP8_MEM_SIZE,
                rows == spec_block(ram@, offset as int, tbytes as int),
                self@ == draw_rows(old(self)@, x as int, y as int, rows.take(ly as int)).0,
                pixel_collision == draw_rows(old(self)@, x as int, y as int, rows.take(ly as int)).1,
            decreases tbytes - ly,
        {
            let sprite_byte: u8 = sprite[ly];
            let line: usize = (y0 + ly % CHIP8_SCREEN_HEIGHT) % CHIP8_SCREEN_HEIGHT;
            assert(line == (y + ly) % (CHIP8_SCREEN_HEIGHT as int));
            assert(sprite_byte == rows[ly as int]);
            let ghost before = self@;
            proof {
                self.lemma_wf();
                lemma_draw_rows_step(old(self)@, x as int, y as int, rows, ly as int);
                lemma_row_start(before, x as int, line as int, sprite_byte);
            }
            let hit: bool = self.draw_sprite_row(x0, line, sprite_byte);
            pixel_collision = pixel_collision || hit;
            ly += 1;
        }
        assert(rows.take(tbytes as int) =~= rows);
        Ok(pixel_collision)
    }

    /// Whether (`x`, `y`) names a pixel of the screen.
    pub fn check_bounds(&self, x: usize, y: usize) -> (inside: bool)
        ensures
            inside == (x < CHIP8_SCREEN_WIDTH && y < CHIP8_SCREEN_HEIGHT),
    {
        x < CHIP8_SCREEN_WIDTH && y < CHIP8_SCREEN_HEIGHT
    }

    /// Turns every pixel off.
    pub fn clear(&mut self) -> (res: Result<(), VMError>)
        ensures
            res is Ok,
            final(self)@ == blank_screen(),
    {
        self.pixels = [[false; CHIP8_SCREEN_HEIGHT]; CHIP8_SCREEN_WIDTH];
        assert(self@ =~~= blank_screen());
        Ok(())
    }
}

/// Drawing one row more: the rows before it are drawn first.
pub proof fn lemma_draw_rows_step(p: Seq<Seq<bool>>, x: int, y: int, rows: Seq<u8>, k: int)
    requires
        0 <= k < rows.len(),
    ensures
        draw_rows(p, x, y, rows.take(k + 1)) == ({
            let before = draw_rows(p, x, y, rows.take(k));
            let line = (y + k) % (CHIP8_SCREEN_HEIGHT as int);
            (
                draw_row(before.0, x, line, rows[k]),
                before.1 || row_collides(before.0, x, line, rows[k]),
            )
        }),
{
    reveal_with_fuel(draw_rows, 1);
    let done = rows.take(k + 1);
    assert(done.drop_last() =~= rows.take(k));
    assert(done.last() == rows[k]);
}

/// A row drawn from column `x` on is the row drawn from column `x` modulo 64 on.
pub proof fn lemma_row_start(p: Seq<Seq<bool>>, x: int, line: int, byte: u8)
    requires
        screen_wf(p),
        0 <= x,
    ensures
        draw_row(p, x % (CHIP8_SCREEN_WIDTH as int), line, byte) == draw_row(p, x, line, byte),
        row_collides(p, x % (CHIP8_SCREEN_WIDTH as int), line, byte) == row_collides(
            p,
            x,
            line,
            byte,
        ),
{
    let w = CHIP8_SCREEN_WIDTH as int;
    assert forall|px: int| 0 <= px < w implies #[trigger] sprite_column(x % w, px)
        == sprite_column(x, px) by {
    }
    assert(draw_row(p, x % w, line, byte) =~~= draw_row(p, x, line, byte));
    if row_collides(p, x % w, line, byte) {
        let px = choose|px: int|
            0 <= px < w && sprite_bit(byte, #[trigger] sprite_column(x % w, px)) && p[px][line];
        assert(sprite_bit(byte, sprite_column(x, px)));
    }
    if row_collides(p, x, line, byte) {
        let px = choose|px: int|
            0 <= px < w && sprite_bit(byte, #[trigger] sprite_column(x, px)) && p[px][line];
        assert(sprite_bit(byte, sprite_column(x % w, px)));
    }
}

impl Screen {
    /// The screen as a trace shows it: one line for each row of pixels, `X` for a
    /// pixel that is on and a dot for one that is off.
    pub fn dump(&self) -> (text: String)
        ensures
            text@ == spec_dump(self@),
    {
        let mut text = String::new();
        let mut y: usize = 0;
        while y < CHIP8_SCREEN_HEIGHT
            invariant
                y <= CHIP8_SCREEN_HEIGHT,
                text@ == rows_text(self@, y as int),
            decreases CHIP8_SCREEN_HEIGHT - y,
        {
            let ghost above = text@;
            let mut x: usize = 0;
            while x < CHIP8_SCREEN_WIDTH
                invariant
                    x <= CHIP8_SCREEN_WIDTH,
                    y < CHIP8_SCREEN_HEIGHT,
                    text@ == above + row_text(self@, y as int, x as int),
                decreases CHIP8_SCREEN_WIDTH - x,
            {
                if self.pixels[x][y] {
                    text.append("X,");
                } else {
                    text.append(".,");
                }
                assert(text@ =~= above + row_text(self@, y as int, x as int + 1));
                x += 1;
            }
            text.append("\n");
            assert(text@ =~= rows_text(self@, y as int + 1));
            y += 1;
        }
        text
    }
}

impl Default for Screen {
    /// A screen with every pixel off.
    fn default() -> (s: Screen)
        ensures
            s@ == blank_screen(),
    {
        let s = Screen { pixels: [[false; CHIP8_SCREEN_HEIGHT]; CHIP8_SCREEN_WIDTH] };
        assert(s@ =~~= blank_screen());
        s
    }
}

} // verus!
