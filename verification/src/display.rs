//! What the machine asks of a display, and the sprite drawing built on it.

use crate::screen::Screen;
use vstd::prelude::*;

verus! {

/// Width of the display in low resolution.
pub const DISPLAY_WIDTH: u32 = 64;

/// Height of the display in low resolution.
pub const DISPLAY_HEIGHT: u32 = 32;

/// What the machine asks of a display: its size and mode and single pixels.
/// Clearing, scrolling and sprite drawing are provided on top of these, and
/// an implementation may replace them by faster ones of its own.
pub trait Display {
    /// What the display shows. An implementation that is to be reasoned
    /// about says here what it shows; one that does not shows nothing as far
    /// as proofs can tell.
    open spec fn view(&self) -> Screen {
        Screen::blank(false)
    }

    /// What the implementation needs to hold of its own state. An
    /// implementation that is to be reasoned about says so here; one that
    /// does not promises nothing.
    open spec fn inv(&self) -> bool {
        false
    }

    /// Number of rows in the current mode.
    fn height(&self) -> (r: usize)
        requires
            self.inv(),
            self.view().wf(),
        ensures
            r == self.view().height(),
    ;

    /// Pixels per row in the current mode.
    fn width(&self) -> (r: usize)
        requires
            self.inv(),
            self.view().wf(),
        ensures
            r == self.view().width(),
    ;

    /// The pixel in column `x` of row `y`, as 1 or 0.
    fn current_pixel(&self, x: usize, y: usize) -> (r: u8)
        requires
            self.inv(),
            self.view().wf(),
            x < self.view().width(),
            y < self.view().height(),
        ensures
            r == if self.view().pixel(x as int, y as int) {
                1u8
            } else {
                0u8
            },
    ;

    /// Sets the pixel in column `x` of row `y`: on for any value but 0.
    fn set_pixel(&mut self, x: usize, y: usize, new_pixel: u8)
        requires
            old(self).inv(),
            old(self).view().wf(),
            x < old(self).view().width(),
            y < old(self).view().height(),
        ensures
            final(self).inv(),
            final(self).view().wf(),
            final(self).view() == old(self).view().with_pixel(x as int, y as int, new_pixel != 0),
    ;

    /// Clears every pixel.
    fn clear(&mut self)
        requires
            old(self).inv(),
            old(self).view().wf(),
        ensures
            final(self).inv(),
            final(self).view().wf(),
            final(self).view() == old(self).view().cleared(),
    {
        let ghost before = self.view();
        let ghost target = before.cleared();
        let width: usize = self.width();
        let height: usize = self.height();
        let mut y: usize = 0;
        while y < height
            invariant
                y <= height,
                self.inv(),
                self.view().wf(),
                before.wf(),
                self.view().hires == before.hires,
                width == before.width(),
                height == before.height(),
                target == before.cleared(),
                forall|r: int| 0 <= r < y ==> #[trigger] self.view().pixels[r] == target.pixels[r],
                forall|r: int|
                    y <= r < height ==> #[trigger] self.view().pixels[r] == before.pixels[r],
            decreases height - y,
        {
            let mut x: usize = 0;
            while x < width
                invariant
                    y < height,
                    x <= width,
                    self.inv(),
                    self.view().wf(),
                    before.wf(),
                    self.view().hires == before.hires,
                    width == before.width(),
                    height == before.height(),
                    target == before.cleared(),
                    forall|r: int|
                        0 <= r < y ==> #[trigger] self.view().pixels[r] == target.pixels[r],
                    forall|r: int|
                        y < r < height ==> #[trigger] self.view().pixels[r] == before.pixels[r],
                    forall|c: int|
                        0 <= c < x ==> self.view().pixels[y as int][c]
                            == target.pixels[y as int][c],
                    forall|c: int|
                        x <= c < width ==> self.view().pixels[y as int][c]
                            == before.pixels[y as int][c],
                decreases width - x,
            {
                self.set_pixel(x, y, 0);
                x += 1;
            }
            assert(self.view().pixels[y as int] =~= target.pixels[y as int]);
            y += 1;
        }
        assert(self.view().pixels =~= target.pixels);
    }

    /// Asks for high or low resolution. A change of mode gives a blank
    /// screen of the new size; a request for the current mode does nothing.
    fn set_hires(&mut self, on: bool)
        requires
            old(self).inv(),
            old(self).view().wf(),
        ensures
            final(self).inv(),
            final(self).view().wf(),
            final(self).view() == old(self).view().with_hires(on),
    ;

    /// Whether the display is in high resolution.
    fn hires(&self) -> (r: bool)
        requires
            self.inv(),
            self.view().wf(),
        ensures
            r == self.view().hires,
    ;

    /// Scrolls left by 4 pixels in high resolution and by 2 in low.
    fn scroll_left(&mut self)
        requires
            old(self).inv(),
            old(self).view().wf(),
        ensures
            final(self).inv(),
            final(self).view().wf(),
            final(self).view() == old(self).view().scrolled_left(),
    {
        let ghost before = self.view();
        let ghost target = before.scrolled_left();
        let width: usize = self.width();
        let height: usize = self.height();
        let step: usize = if self.hires() {
            4
        } else {
            2
        };
        let mut y: usize = 0;
        while y < height
            invariant
                y <= height,
                self.inv(),
                self.view().wf(),
                before.wf(),
                self.view().hires == before.hires,
                width == before.width(),
                height == before.height(),
                step == before.side_step(),
                target == before.scrolled_left(),
                forall|r: int| 0 <= r < y ==> #[trigger] self.view().pixels[r] == target.pixels[r],
                forall|r: int|
                    y <= r < height ==> #[trigger] self.view().pixels[r] == before.pixels[r],
            decreases height - y,
        {
            let mut x: usize = 0;
            while x < width
                invariant
                    y < height,
                    x <= width,
                    self.inv(),
                    self.view().wf(),
                    before.wf(),
                    self.view().hires == before.hires,
                    width == before.width(),
                    height == before.height(),
                    step == before.side_step(),
                    target == before.scrolled_left(),
                    forall|r: int|
                        0 <= r < y ==> #[trigger] self.view().pixels[r] == target.pixels[r],
                    forall|r: int|
                        y < r < height ==> #[trigger] self.view().pixels[r] == before.pixels[r],
                    forall|c: int|
                        0 <= c < x ==> self.view().pixels[y as int][c]
                            == target.pixels[y as int][c],
                    forall|c: int|
                        x <= c < width ==> self.view().pixels[y as int][c]
                            == before.pixels[y as int][c],
                decreases width - x,
            {
                let pixel: u8 = if step < width - x {
                    self.current_pixel(x + step, y)
                } else {
                    0
                };
                self.set_pixel(x, y, pixel);
                x += 1;
            }
            assert(self.view().pixels[y as int] =~= target.pixels[y as int]);
            y += 1;
        }
        assert(self.view().pixels =~= target.pixels);
    }

    /// Scrolls right by 4 pixels in high resolution and by 2 in low.
    fn scroll_right(&mut self)
        requires
            old(self).inv(),
            old(self).view().wf(),
        ensures
            final(self).inv(),
            final(self).view().wf(),
            final(self).view() == old(self).view().scrolled_right(),
    {
        let ghost before = self.view();
        let ghost target = before.scrolled_right();
        let width: usize = self.width();
        let height: usize = self.height();
        let step: usize = if self.hires() {
            4
        } else {
            2
        };
        let mut y: usize = 0;
        while y < height
            invariant
                y <= height,
                self.inv(),
                self.view().wf(),
                before.wf(),
                self.view().hires == before.hires,
                width == before.width(),
                height == before.height(),
                step == before.side_step(),
                target == before.scrolled_right(),
                forall|r: int| 0 <= r < y ==> #[trigger] self.view().pixels[r] == target.pixels[r],
                forall|r: int|
                    y <= r < height ==> #[trigger] self.view().pixels[r] == before.pixels[r],
            decreases height - y,
        {
            let mut x: usize = width;
            while x > 0
                invariant
                    y < height,
                    x <= width,
                    self.inv(),
                    self.view().wf(),
                    before.wf(),
                    self.view().hires == before.hires,
                    width == before.width(),
                    height == before.height(),
                    step == before.side_step(),
                    target == before.scrolled_right(),
                    forall|r: int|
                        0 <= r < y ==> #[trigger] self.view().pixels[r] == target.pixels[r],
                    forall|r: int|
                        y < r < height ==> #[trigger] self.view().pixels[r] == before.pixels[r],
                    forall|c: int|
                        x <= c < width ==> self.view().pixels[y as int][c]
                            == target.pixels[y as int][c],
                    forall|c: int|
                        0 <= c < x ==> self.view().pixels[y as int][c]
                            == before.pixels[y as int][c],
                decreases x,
            {
                x -= 1;
                let pixel: u8 = if x >= step {
                    self.current_pixel(x - step, y)
                } else {
                    0
                };
                self.set_pixel(x, y, pixel);
            }
            assert(self.view().pixels[y as int] =~= target.pixels[y as int]);
            y += 1;
        }
        assert(self.view().pixels =~= target.pixels);
    }

    /// Scrolls down by `n` rows in high resolution and by half of `n` in low.
    fn scroll_down(&mut self, n: u8)
        requires
            old(self).inv(),
            old(self).view().wf(),
        ensures
            final(self).inv(),
            final(self).view().wf(),
            final(self).view() == old(self).view().scrolled_down(n),
    {
        let ghost before = self.view();
        let ghost target = before.scrolled_down(n);
        let width: usize = self.width();
        let height: usize = self.height();
        let step: usize = if self.hires() {
            n as usize
        } else {
            (n / 2) as usize
        };
        let mut y: usize = height;
        while y > 0
            invariant
                y <= height,
                self.inv(),
                self.view().wf(),
                before.wf(),
                self.view().hires == before.hires,
                width == before.width(),
                height == before.height(),
                step == before.down_step(n),
                target == before.scrolled_down(n),
                forall|r: int| y <= r < height ==> #[trigger] self.view().pixels[r] == target.pixels[r],
                forall|r: int|
                    0 <= r < y ==> #[trigger] self.view().pixels[r] == before.pixels[r],
            decreases y,
        {
            y -= 1;
            let mut x: usize = 0;
            while x < width
                invariant
                    y < height,
                    x <= width,
                    self.inv(),
                    self.view().wf(),
                    before.wf(),
                    self.view().hires == before.hires,
                    width == before.width(),
                    height == before.height(),
                    step == before.down_step(n),
                    target == before.scrolled_down(n),
                    forall|r: int|
                        y < r < height ==> #[trigger] self.view().pixels[r] == target.pixels[r],
                    forall|r: int|
                        0 <= r < y ==> #[trigger] self.view().pixels[r] == before.pixels[r],
                    forall|c: int|
                        0 <= c < x ==> self.view().pixels[y as int][c]
                            == target.pixels[y as int][c],
                    forall|c: int|
                        x <= c < width ==> self.view().pixels[y as int][c]
                            == before.pixels[y as int][c],
                decreases width - x,
            {
                let pixel: u8 = if y >= step {
                    self.current_pixel(x, y - step)
                } else {
                    0
                };
                self.set_pixel(x, y, pixel);
                x += 1;
            }
            assert(self.view().pixels[y as int] =~= target.pixels[y as int]);
        }
        assert(self.view().pixels =~= target.pixels);
    }

    /// Draws one sprite row into row `y`, its leftmost bit in column
    /// `starting_x`, wrapping at the right edge. Each set bit flips the pixel
    /// under it. Returns whether a set pixel was turned off.
    fn draw_byte(&mut self, starting_x: usize, y: usize, byte: &u8) -> (hit: bool)
        requires
            old(self).inv(),
            old(self).view().wf(),
            y < old(self).view().height(),
        ensures
            final(self).inv(),
            final(self).view().wf(),
            final(self).view() == old(self).view().drawn_byte(starting_x as int, y as int, *byte),
            hit == old(self).view().byte_hits(starting_x as int, y as int, *byte),
    {
        let ghost before = self.view();
        let ghost sx = starting_x as int;
        let mut pixel_turned_off = false;
        let width: usize = self.width();
        let base: usize = starting_x % width;
        let mut bit_number: u8 = 0;
        proof {
            before.lemma_drawn_bits_ends(sx, y as int, *byte);
            assert(base == before.wrap_x(sx));
        }
        while bit_number < 8
            invariant
                bit_number <= 8,
                self.inv(),
                self.view().wf(),
                before.wf(),
                sx == starting_x as int,
                0 <= y < before.height(),
                width == before.width(),
                base == before.wrap_x(sx),
                self.view() == before.drawn_bits(sx, y as int, *byte, bit_number as int),
                pixel_turned_off == exists|k: int|
                    0 <= k < bit_number && crate::screen::sprite_bit(*byte, k) && #[trigger] before.pixel(
                        before.wrap_x(sx + k),
                        y as int,
                    ),
            decreases 8 - bit_number,
        {
            proof {
                before.lemma_drawn_bits_step(sx, y as int, *byte, bit_number as int);
            }
            let x: usize = (base + bit_number as usize) % width;
            assert(x == before.wrap_x(before.wrap_x(sx) + bit_number));
            let current_bit: u8 = (*byte >> (7 - bit_number)) & 1;
            let current_pixel: u8 = self.current_pixel(x, y);
            let new_pixel: u8 = current_bit ^ current_pixel;
            proof {
                assert(current_bit == 0 || current_bit == 1) by (bit_vector)
                    requires
                        bit_number < 8,
                        current_bit == (*byte >> ((7 - bit_number) as u8)) & 1,
                ;
                assert(new_pixel != 0 <==> current_bit != current_pixel) by (bit_vector)
                    requires
                        new_pixel == current_bit ^ current_pixel,
                        current_bit == 0 || current_bit == 1,
                        current_pixel == 0 || current_pixel == 1,
                ;
                assert(crate::screen::sprite_bit(*byte, bit_number as int) == (current_bit == 1));
            }
            self.set_pixel(x, y, new_pixel);
            if current_pixel == 1 && new_pixel == 0 {
                pixel_turned_off = true;
            }
            bit_number += 1;
        }
        proof {
            before.lemma_byte_hits_by_bit(sx, y as int, *byte);
        }
        pixel_turned_off
    }

    /// Draws a sprite of one byte per line with its top left corner at
    /// column `starting_x` of row `starting_y`, wrapping at the right and the
    /// bottom edge. Returns whether a set pixel was turned off.
    fn draw(&mut self, starting_x: usize, starting_y: usize, memory: &[u8]) -> (hit: bool)
        requires
            old(self).inv(),
            old(self).view().wf(),
        ensures
            final(self).inv(),
            final(self).view().wf(),
            final(self).view() == old(self).view().drawn(
                starting_x as int,
                starting_y as int,
                memory@,
            ),
            hit == old(self).view().draw_hits(starting_x as int, starting_y as int, memory@),
    {
        let ghost before = self.view();
        let mut pixel_turned_off = false;
        let height: usize = self.height();
        let mut y: usize = starting_y % height;
        let mut line: usize = 0;
        proof {
            assert(y == before.wrap_y(starting_y as int));
        }
        while line < memory.len()
            invariant
                line <= memory@.len(),
                self.inv(),
                self.view().wf(),
                height == before.height(),
                self.view().hires == before.hires,
                y == before.sprite_row(starting_y as int, line as int),
                self.view() == before.drawn(
                    starting_x as int,
                    starting_y as int,
                    memory@.take(line as int),
                ),
                pixel_turned_off == before.draw_hits(
                    starting_x as int,
                    starting_y as int,
                    memory@.take(line as int),
                ),
            decreases memory@.len() - line,
        {
            proof {
                before.lemma_sprite_row_next(starting_y as int, line as int);
                assert(memory@.take(line + 1).drop_last() =~= memory@.take(line as int));
            }
            let turned_off = self.draw_byte(starting_x, y, &memory[line]);
            pixel_turned_off = pixel_turned_off || turned_off;
            y = (y + 1) % height;
            assert(y == before.wrap_y(before.sprite_row(starting_y as int, line as int) + 1));
            line += 1;
        }
        proof {
            assert(memory@.take(line as int) =~= memory@);
        }
        pixel_turned_off
    }

    /// Draws a double-size sprite of sixteen lines, two bytes per line, from
    /// 32 bytes. The left byte of a line goes to column `starting_x`; the
    /// right byte follows eight columns further in high resolution and is
    /// left out in low resolution. Returns whether a set pixel was turned off.
    fn schip_draw(&mut self, starting_x: usize, starting_y: usize, memory: &[u8]) -> (hit: bool)
        requires
            old(self).inv(),
            old(self).view().wf(),
            memory@.len() == 32,
        ensures
            final(self).inv(),
            final(self).view().wf(),
            final(self).view() == old(self).view().schip_drawn(
                starting_x as int,
                starting_y as int,
                memory@,
            ),
            hit == old(self).view().schip_draw_hits(starting_x as int, starting_y as int, memory@),
    {
        let ghost before = self.view();
        let mut pixel_turned_off = false;
        let hires = self.hires();
        let width: usize = self.width();
        let height: usize = self.height();
        let hires_starting_x: usize = starting_x % width + 8;
        let mut y: usize = starting_y % height;
        let mut line: usize = 0;
        proof {
            assert(y == before.wrap_y(starting_y as int));
            assert(hires_starting_x == before.wrap_x(starting_x as int) + 8);
            before.lemma_wrap_moved(starting_x as int, 8);
        }
        while line < 16
            invariant
                line <= 16,
                memory@.len() == 32,
                self.inv(),
                self.view().wf(),
                hires == before.hires,
                height == before.height(),
                before.wrap_x(hires_starting_x as int) == before.wrap_x(starting_x as int + 8),
                self.view().hires == before.hires,
                y == before.sprite_row(starting_y as int, line as int),
                self.view() == before.drawn_wide_lines(
                    starting_x as int,
                    starting_y as int,
                    memory@,
                    line as int,
                ),
                pixel_turned_off == before.wide_lines_hit(
                    starting_x as int,
                    starting_y as int,
                    memory@,
                    line as int,
                ),
            decreases 16 - line,
        {
            let ghost shown = self.view();
            proof {
                before.lemma_sprite_row_next(starting_y as int, line as int);
                assert(shown.sprite_row(starting_y as int, line as int) == y);
            }
            let turned_off = self.draw_byte(starting_x, y, &memory[2 * line]);
            pixel_turned_off = pixel_turned_off || turned_off;
            if hires {
                let ghost left = self.view();
                let turned_off = self.draw_byte(hires_starting_x, y, &memory[2 * line + 1]);
                pixel_turned_off = pixel_turned_off || turned_off;
                proof {
                    left.lemma_draw_byte_start_wraps(
                        hires_starting_x as int,
                        starting_x as int + 8,
                        y as int,
                        memory@[2 * line + 1],
                    );
                }
            }
            y = (y + 1) % height;
            assert(y == before.wrap_y(before.sprite_row(starting_y as int, line as int) + 1));
            line += 1;
        }
        pixel_turned_off
    }
}

} // verus!
