//! What holds of the display operations however they are combined.

use crate::screen::Screen;
use vstd::prelude::*;

verus! {

impl Screen {
    /// Wrapping a column or a row gives one on the screen, and leaves one
    /// that is on the screen where it is.
    pub proof fn lemma_wrap_in_range(self, a: int)
        ensures
            0 <= self.wrap_x(a) < self.width(),
            0 <= self.wrap_y(a) < self.height(),
            0 <= a < self.width() ==> self.wrap_x(a) == a,
            0 <= a < self.height() ==> self.wrap_y(a) == a,
    {
        crate::wrap::lemma_remainder_in_range(a, 128);
        crate::wrap::lemma_remainder_in_range(a, 64);
        crate::wrap::lemma_remainder_in_range(a, 32);
    }

    /// Wrapping a column before going on by `k` columns ends in the same
    /// column as going on from the column itself; likewise for rows.
    pub proof fn lemma_wrap_moved(self, a: int, k: int)
        ensures
            self.wrap_x(self.wrap_x(a) + k) == self.wrap_x(a + k),
            self.wrap_y(self.wrap_y(a) + k) == self.wrap_y(a + k),
    {
        crate::wrap::lemma_remainder_moved(a, k, 128);
        crate::wrap::lemma_remainder_moved(a, k, 64);
        crate::wrap::lemma_remainder_moved(a, k, 32);
    }

    /// Column `x` lies `k` places to the right of column `sx`, going round
    /// the edge, exactly when it is the column `sx + k`, wrapped.
    pub proof fn lemma_offset_column(self, sx: int, k: int, x: int)
        requires
            0 <= k < 64,
            0 <= x < self.width(),
        ensures
            (self.wrap_x(x - sx) == k) <==> (x == self.wrap_x(sx + k)),
    {
        if self.hires {
            crate::wrap::lemma_steps_between(x, sx, k, 128);
        } else {
            crate::wrap::lemma_steps_between(x, sx, k, 64);
        }
    }

    /// The screen after the first `n` bits of a sprite row were drawn into
    /// row `y`, the most significant bit first.
    pub open spec fn drawn_bits(self, sx: int, y: int, byte: u8, n: int) -> Screen {
        Screen {
            hires: self.hires,
            pixels: self.pixels.update(y, self.row_with_bits(self.pixels[y], sx, byte, n)),
        }
    }

    /// Drawing no bit leaves the screen as it is, and drawing all eight bits
    /// draws the sprite row.
    pub proof fn lemma_drawn_bits_ends(self, sx: int, y: int, byte: u8)
        requires
            self.wf(),
            0 <= y < self.height(),
        ensures
            self.drawn_bits(sx, y, byte, 0) == self,
            self.drawn_bits(sx, y, byte, 8) == self.drawn_byte(sx, y, byte),
    {
        let w = self.width();
        let none = self.drawn_bits(sx, y, byte, 0);
        let all = self.drawn_bits(sx, y, byte, 8);
        assert forall|x: int| 0 <= x < w implies #[trigger] none.pixels[y][x] == self.pixels[y][x]
            && all.pixels[y][x] == self.drawn_byte(sx, y, byte).pixels[y][x] by {
            self.lemma_wrap_in_range(x - sx);
        }
        assert(none.pixels[y] =~= self.pixels[y]);
        assert(none.pixels =~= self.pixels);
        assert(all.pixels[y] =~= self.drawn_byte(sx, y, byte).pixels[y]);
        assert(all.pixels =~= self.drawn_byte(sx, y, byte).pixels);
    }

    /// How a sprite row shows after its first `n` bits were drawn over `row`.
    pub open spec fn row_with_bits(self, row: Seq<bool>, sx: int, byte: u8, n: int) -> Seq<bool> {
        Seq::new(
            self.width() as nat,
            |x: int| row[x] != (self.covers(sx, byte, x) && self.wrap_x(x - sx) < n),
        )
    }

    /// Drawing bit `n` of a sprite row flips, where the bit is set, the
    /// pixel `n` columns to the right of the start and no other.
    pub proof fn lemma_row_with_bits_step(self, row: Seq<bool>, sx: int, byte: u8, n: int)
        requires
            row.len() == self.width(),
            0 <= n < 8,
        ensures
            0 <= self.wrap_x(sx + n) < self.width(),
            self.row_with_bits(row, sx, byte, n)[self.wrap_x(sx + n)] == row[self.wrap_x(sx + n)],
            self.row_with_bits(row, sx, byte, n + 1) == self.row_with_bits(row, sx, byte, n).update(
                self.wrap_x(sx + n),
                row[self.wrap_x(sx + n)] != crate::screen::sprite_bit(byte, n),
            ),
    {
        let c = self.wrap_x(sx + n);
        let a = self.row_with_bits(row, sx, byte, n);
        let b = self.row_with_bits(row, sx, byte, n + 1);
        let on = row[c] != crate::screen::sprite_bit(byte, n);
        self.lemma_wrap_in_range(sx + n);
        self.lemma_offset_column(sx, n, c);
        assert(a[c] == row[c]);
        assert forall|x: int| 0 <= x < self.width() implies b[x] == a.update(c, on)[x] by {
            self.lemma_offset_column(sx, n, x);
            if x == c {
                assert(b[x] == on);
            } else {
                assert(self.wrap_x(x - sx) != n);
                assert(b[x] == a[x]);
            }
        }
        assert(b =~= a.update(c, on));
    }

    /// Drawing bit `n` flips, where the bit is set, the pixel `n` columns to
    /// the right of the start, and no earlier bit has touched that pixel.
    pub proof fn lemma_drawn_bits_step(self, sx: int, y: int, byte: u8, n: int)
        requires
            self.wf(),
            0 <= y < self.height(),
            0 <= n < 8,
        ensures
            0 <= self.wrap_x(sx + n) < self.width(),
            self.wrap_x(self.wrap_x(sx) + n) == self.wrap_x(sx + n),
            self.drawn_bits(sx, y, byte, n).pixel(self.wrap_x(sx + n), y) == self.pixel(
                self.wrap_x(sx + n),
                y,
            ),
            self.drawn_bits(sx, y, byte, n + 1) == self.drawn_bits(sx, y, byte, n).with_pixel(
                self.wrap_x(sx + n),
                y,
                self.pixel(self.wrap_x(sx + n), y) != crate::screen::sprite_bit(byte, n),
            ),
    {
        let c = self.wrap_x(sx + n);
        let row = self.pixels[y];
        let on = row[c] != crate::screen::sprite_bit(byte, n);
        self.lemma_wrap_moved(sx, n);
        self.lemma_row_with_bits_step(row, sx, byte, n);
        let a = self.drawn_bits(sx, y, byte, n);
        let b = self.drawn_bits(sx, y, byte, n + 1);
        assert(a.pixels == self.pixels.update(y, self.row_with_bits(row, sx, byte, n)));
        assert(b.pixels == self.pixels.update(y, self.row_with_bits(row, sx, byte, n + 1)));
        assert(a.pixels[y] == self.row_with_bits(row, sx, byte, n));
        assert(a.with_pixel(c, y, on).pixels =~= b.pixels);
    }

    /// The rows that the lines of a sprite fall on follow each other, round
    /// the bottom edge.
    pub proof fn lemma_sprite_row_next(self, sy: int, line: int)
        ensures
            0 <= self.sprite_row(sy, line) < self.height(),
            self.wrap_y(self.sprite_row(sy, line) + 1) == self.sprite_row(sy, line + 1),
            self.sprite_row(sy, 0) == self.wrap_y(sy),
    {
        self.lemma_wrap_in_range(sy + line);
        self.lemma_wrap_moved(sy + line, 1);
    }

    /// Drawing a sprite row keeps the size of the screen.
    pub proof fn lemma_drawn_byte_wf(self, sx: int, y: int, byte: u8)
        requires
            self.wf(),
            0 <= y < self.height(),
        ensures
            self.drawn_byte(sx, y, byte).wf(),
            self.drawn_byte(sx, y, byte).hires == self.hires,
    {
        let d = self.drawn_byte(sx, y, byte);
        assert forall|r: int| 0 <= r < d.height() implies (#[trigger] d.pixels[r]).len()
            == d.width() by {
            if r != y {
                assert(d.pixels[r] == self.pixels[r]);
            }
        }
    }

    /// A set pixel is turned off by a sprite row exactly when a set bit of
    /// the row lands on it.
    pub proof fn lemma_byte_hits_by_bit(self, sx: int, y: int, byte: u8)
        ensures
            self.byte_hits(sx, y, byte) <==> exists|k: int|
                0 <= k < 8 && crate::screen::sprite_bit(byte, k) && #[trigger] self.pixel(self.wrap_x(sx + k), y),
    {
        let w = self.width();
        if self.byte_hits(sx, y, byte) {
            let x = choose|x: int| 0 <= x < w && #[trigger] self.pixel(x, y) && self.covers(sx, byte, x);
            let k = self.wrap_x(x - sx);
            self.lemma_offset_column(sx, k, x);
            assert(self.pixel(self.wrap_x(sx + k), y));
        }
        if exists|k: int|
            0 <= k < 8 && crate::screen::sprite_bit(byte, k) && #[trigger] self.pixel(self.wrap_x(sx + k), y) {
            let k = choose|k: int|
                0 <= k < 8 && crate::screen::sprite_bit(byte, k) && #[trigger] self.pixel(self.wrap_x(sx + k), y);
            let x = self.wrap_x(sx + k);
            self.lemma_wrap_in_range(sx + k);
            self.lemma_offset_column(sx, k, x);
            assert(self.pixel(x, y) && self.covers(sx, byte, x));
        }
    }

    /// Only the column of the leftmost bit modulo the width matters to a
    /// sprite row: two starts that wrap to the same column draw alike.
    pub proof fn lemma_draw_byte_start_wraps(self, sx1: int, sx2: int, y: int, byte: u8)
        requires
            self.wrap_x(sx1) == self.wrap_x(sx2),
        ensures
            self.drawn_byte(sx1, y, byte) == self.drawn_byte(sx2, y, byte),
            self.byte_hits(sx1, y, byte) == self.byte_hits(sx2, y, byte),
    {
        let w = self.width();
        assert forall|x: int| self.covers(sx1, byte, x) == self.covers(sx2, byte, x) by {
            if self.hires {
                crate::wrap::lemma_steps_from_same_place(sx1, sx2, x, 128);
            } else {
                crate::wrap::lemma_steps_from_same_place(sx1, sx2, x, 64);
            }
        }
        assert(self.drawn_byte(sx1, y, byte).pixels =~= self.drawn_byte(sx2, y, byte).pixels) by {
            assert(Seq::new(w as nat, |x: int| self.pixels[y][x] != self.covers(sx1, byte, x))
                =~= Seq::new(w as nat, |x: int| self.pixels[y][x] != self.covers(sx2, byte, x)));
        }
    }

    /// Whether some line of the sprite has a set bit over column `x` of row
    /// `y`, counting a pixel that an even number of lines cover as not
    /// covered: this is whether drawing the sprite flips the pixel.
    pub open spec fn sprite_mask(self, sx: int, sy: int, sprite: Seq<u8>, x: int, y: int) -> bool
        decreases sprite.len(),
    {
        if sprite.len() == 0 {
            false
        } else {
            self.sprite_mask(sx, sy, sprite.drop_last(), x, y) != (self.sprite_row(
                sy,
                sprite.len() - 1,
            ) == y && self.covers(sx, sprite.last(), x))
        }
    }

    /// Whether bit `k` of line `line` of the sprite is set and lies over a
    /// set pixel.
    pub open spec fn bit_over_set_pixel(
        self,
        sx: int,
        sy: int,
        sprite: Seq<u8>,
        line: int,
        k: int,
    ) -> bool {
        &&& 0 <= line < sprite.len()
        &&& 0 <= k < 8
        &&& crate::screen::sprite_bit(sprite[line], k)
        &&& self.pixel(self.wrap_x(sx + k), self.sprite_row(sy, line))
    }

    /// Clearing leaves no pixel set, whatever was shown, and keeps the mode.
    pub proof fn lemma_cleared_is_blank(self)
        ensures
            self.cleared().wf(),
            self.cleared().hires == self.hires,
            self.cleared().is_blank(),
    {
    }

    /// A request for a mode does nothing to a screen in that mode, and gives
    /// a blank screen of the new mode otherwise. A second request for the
    /// same mode changes nothing more.
    pub proof fn lemma_with_hires(self, on: bool)
        requires
            self.wf(),
        ensures
            self.with_hires(on).wf(),
            self.with_hires(on).hires == on,
            self.hires == on ==> self.with_hires(on) == self,
            self.hires != on ==> self.with_hires(on) == Screen::blank(on),
            self.with_hires(on).with_hires(on) == self.with_hires(on),
    {
    }

    /// Scrolling keeps the mode and the size of the screen.
    pub proof fn lemma_scroll_keeps_size(self, n: u8)
        ensures
            self.scrolled_left().wf(),
            self.scrolled_left().hires == self.hires,
            self.scrolled_right().wf(),
            self.scrolled_right().hires == self.hires,
            self.scrolled_down(n).wf(),
            self.scrolled_down(n).hires == self.hires,
    {
    }

    /// A scroll to the left followed by a scroll to the right gives the
    /// screen back, but for the columns at the left edge that the first
    /// scroll pushed out: those are clear.
    pub proof fn lemma_scroll_left_then_right(self)
        requires
            self.wf(),
        ensures
            self.scrolled_left().scrolled_right().wf(),
            self.scrolled_left().scrolled_right().hires == self.hires,
            forall|x: int, y: int|
                0 <= x < self.width() && 0 <= y < self.height()
                    ==> #[trigger] self.scrolled_left().scrolled_right().pixel(x, y) == (x
                    >= self.side_step() && self.pixel(x, y)),
    {
        let left = self.scrolled_left();
        let back = left.scrolled_right();
        assert forall|x: int, y: int|
            0 <= x < self.width() && 0 <= y < self.height() implies #[trigger] back.pixel(x, y)
            == (x >= self.side_step() && self.pixel(x, y)) by {
            if x >= self.side_step() {
                assert(back.pixel(x, y) == left.pixels[y][x - self.side_step()]);
            }
        }
    }

    /// A scroll to the right followed by a scroll to the left gives the
    /// screen back, but for the columns at the right edge that the first
    /// scroll pushed out: those are clear.
    pub proof fn lemma_scroll_right_then_left(self)
        requires
            self.wf(),
        ensures
            self.scrolled_right().scrolled_left().wf(),
            self.scrolled_right().scrolled_left().hires == self.hires,
            forall|x: int, y: int|
                0 <= x < self.width() && 0 <= y < self.height()
                    ==> #[trigger] self.scrolled_right().scrolled_left().pixel(x, y) == (x
                    + self.side_step() < self.width() && self.pixel(x, y)),
    {
        let right = self.scrolled_right();
        let back = right.scrolled_left();
        assert forall|x: int, y: int|
            0 <= x < self.width() && 0 <= y < self.height() implies #[trigger] back.pixel(x, y)
            == (x + self.side_step() < self.width() && self.pixel(x, y)) by {
            if x + self.side_step() < self.width() {
                assert(back.pixel(x, y) == right.pixels[y][x + self.side_step()]);
            }
        }
    }

    /// Whether a sprite flips a pixel depends on the mode of the screen
    /// alone, not on what it shows.
    pub proof fn lemma_mask_by_mode(self, other: Screen, sx: int, sy: int, sprite: Seq<u8>, x: int, y: int)
        requires
            self.hires == other.hires,
        ensures
            self.sprite_mask(sx, sy, sprite, x, y) == other.sprite_mask(sx, sy, sprite, x, y),
        decreases sprite.len(),
    {
        if sprite.len() > 0 {
            self.lemma_mask_by_mode(other, sx, sy, sprite.drop_last(), x, y);
        }
    }

    /// Drawing a sprite keeps the mode and the size of the screen, and
    /// flips exactly the pixels that an odd number of its set bits lie over.
    pub proof fn lemma_drawn_pixel(self, sx: int, sy: int, sprite: Seq<u8>)
        requires
            self.wf(),
        ensures
            self.drawn(sx, sy, sprite).wf(),
            self.drawn(sx, sy, sprite).hires == self.hires,
            forall|x: int, y: int|
                0 <= x < self.width() && 0 <= y < self.height() ==> #[trigger] self.drawn(
                    sx,
                    sy,
                    sprite,
                ).pixel(x, y) == (self.pixel(x, y) != self.sprite_mask(sx, sy, sprite, x, y)),
        decreases sprite.len(),
    {
        if sprite.len() > 0 {
            let rest = sprite.drop_last();
            let before = self.drawn(sx, sy, rest);
            let row = self.sprite_row(sy, sprite.len() - 1);
            let after = self.drawn(sx, sy, sprite);
            self.lemma_drawn_pixel(sx, sy, rest);
            self.lemma_sprite_row_next(sy, sprite.len() - 1);
            before.lemma_drawn_byte_wf(sx, row, sprite.last());
            assert(after == before.drawn_byte(sx, row, sprite.last()));
            assert forall|x: int, y: int|
                0 <= x < self.width() && 0 <= y < self.height() implies #[trigger] after.pixel(
                x,
                y,
            ) == (self.pixel(x, y) != self.sprite_mask(sx, sy, sprite, x, y)) by {
                assert(before.pixel(x, y) == (self.pixel(x, y) != self.sprite_mask(
                    sx,
                    sy,
                    rest,
                    x,
                    y,
                )));
                assert(before.covers(sx, sprite.last(), x) == self.covers(sx, sprite.last(), x));
                if y == row {
                    assert(after.pixels[y][x] == (before.pixels[y][x] != before.covers(
                        sx,
                        sprite.last(),
                        x,
                    )));
                } else {
                    assert(after.pixels[y] == before.pixels[y]);
                }
            }
        }
    }

    /// Drawing lines of a double-size sprite keeps the mode and the size of
    /// the screen.
    pub proof fn lemma_drawn_wide_wf(self, sx: int, sy: int, sprite: Seq<u8>, lines: int)
        requires
            self.wf(),
        ensures
            self.drawn_wide_lines(sx, sy, sprite, lines).wf(),
            self.drawn_wide_lines(sx, sy, sprite, lines).hires == self.hires,
        decreases lines,
    {
        if lines > 0 {
            let before = self.drawn_wide_lines(sx, sy, sprite, lines - 1);
            let y = before.sprite_row(sy, lines - 1);
            self.lemma_drawn_wide_wf(sx, sy, sprite, lines - 1);
            before.lemma_sprite_row_next(sy, lines - 1);
            before.lemma_drawn_byte_wf(sx, y, sprite[2 * (lines - 1)]);
            before.drawn_byte(sx, y, sprite[2 * (lines - 1)]).lemma_drawn_byte_wf(
                sx + 8,
                y,
                sprite[2 * (lines - 1) + 1],
            );
        }
    }

    /// Drawing the same sprite twice at the same place gives the screen
    /// back as it was.
    pub proof fn lemma_redraw_restores(self, sx: int, sy: int, sprite: Seq<u8>)
        requires
            self.wf(),
        ensures
            self.drawn(sx, sy, sprite).drawn(sx, sy, sprite) == self,
    {
        let once = self.drawn(sx, sy, sprite);
        let twice = once.drawn(sx, sy, sprite);
        self.lemma_drawn_pixel(sx, sy, sprite);
        once.lemma_drawn_pixel(sx, sy, sprite);
        assert forall|y: int| 0 <= y < self.height() implies #[trigger] twice.pixels[y]
            =~= self.pixels[y] by {
            assert forall|x: int| 0 <= x < self.width() implies twice.pixels[y][x]
                == self.pixels[y][x] by {
                once.lemma_mask_by_mode(self, sx, sy, sprite, x, y);
                assert(twice.pixel(x, y) == (once.pixel(x, y) != once.sprite_mask(
                    sx,
                    sy,
                    sprite,
                    x,
                    y,
                )));
                assert(once.pixel(x, y) == (self.pixel(x, y) != self.sprite_mask(
                    sx,
                    sy,
                    sprite,
                    x,
                    y,
                )));
            }
        }
        assert(twice.pixels =~= self.pixels);
    }

    /// A sprite of no more lines than the screen has rows puts each line on
    /// a row of its own.
    pub proof fn lemma_rows_differ(self, sy: int, a: int, b: int)
        requires
            0 <= a < b < self.height(),
        ensures
            self.sprite_row(sy, a) != self.sprite_row(sy, b),
    {
        if self.hires {
            crate::wrap::lemma_steps_differ(sy, a, b, 64);
        } else {
            crate::wrap::lemma_steps_differ(sy, a, b, 32);
        }
    }

    /// A sprite flips no pixel of a row that none of its lines falls on.
    pub proof fn lemma_mask_off_row(self, sx: int, sy: int, sprite: Seq<u8>, x: int, y: int)
        requires
            forall|line: int| 0 <= line < sprite.len() ==> self.sprite_row(sy, line) != y,
        ensures
            !self.sprite_mask(sx, sy, sprite, x, y),
        decreases sprite.len(),
    {
        if sprite.len() > 0 {
            self.lemma_mask_off_row(sx, sy, sprite.drop_last(), x, y);
        }
    }

    /// Drawing a sprite of no more lines than the screen has rows reports a
    /// hit exactly when, before the drawing, a set bit of the sprite lies
    /// over a set pixel.
    pub proof fn lemma_draw_hits(self, sx: int, sy: int, sprite: Seq<u8>)
        requires
            self.wf(),
            sprite.len() <= self.height(),
        ensures
            self.draw_hits(sx, sy, sprite) <==> exists|line: int, k: int| #[trigger]
                self.bit_over_set_pixel(sx, sy, sprite, line, k),
        decreases sprite.len(),
    {
        if sprite.len() > 0 {
            let rest = sprite.drop_last();
            let last = sprite.len() - 1;
            let row = self.sprite_row(sy, last);
            let before = self.drawn(sx, sy, rest);
            self.lemma_draw_hits(sx, sy, rest);
            self.lemma_drawn_pixel(sx, sy, rest);
            self.lemma_sprite_row_next(sy, last);
            before.lemma_byte_hits_by_bit(sx, row, sprite.last());
            assert forall|x: int| 0 <= x < self.width() implies before.pixel(x, row) == self.pixel(
                x,
                row,
            ) by {
                assert forall|line: int| 0 <= line < rest.len() implies self.sprite_row(sy, line)
                    != row by {
                    self.lemma_rows_differ(sy, line, last);
                }
                self.lemma_mask_off_row(sx, sy, rest, x, row);
            }
            let last_hits = before.byte_hits(sx, row, sprite.last());
            if self.draw_hits(sx, sy, rest) {
                let (line, k) = choose|line: int, k: int| #[trigger]
                    self.bit_over_set_pixel(sx, sy, rest, line, k);
                assert(self.bit_over_set_pixel(sx, sy, sprite, line, k));
            }
            if last_hits {
                let k = choose|k: int|
                    0 <= k < 8 && crate::screen::sprite_bit(sprite.last(), k) && #[trigger] before.pixel(
                        before.wrap_x(sx + k),
                        row,
                    );
                self.lemma_drawn_bits_step(sx, row, sprite.last(), k);
                assert(self.bit_over_set_pixel(sx, sy, sprite, last, k));
            }
            if exists|line: int, k: int| #[trigger] self.bit_over_set_pixel(sx, sy, sprite, line, k) {
                let (line, k) = choose|line: int, k: int| #[trigger]
                    self.bit_over_set_pixel(sx, sy, sprite, line, k);
                if line < last {
                    assert(self.bit_over_set_pixel(sx, sy, rest, line, k));
                } else {
                    self.lemma_drawn_bits_step(sx, row, sprite.last(), k);
                    assert(before.pixel(before.wrap_x(sx + k), row));
                }
            }
        }
    }

    /// Drawing a sprite a second time at the same place gives the screen
    /// back as it was, and that second drawing reports a hit exactly when a
    /// set bit of the sprite lies over a pixel that the first drawing left
    /// set.
    pub proof fn lemma_redraw(self, sx: int, sy: int, sprite: Seq<u8>)
        requires
            self.wf(),
            sprite.len() <= self.height(),
        ensures
            self.drawn(sx, sy, sprite).drawn(sx, sy, sprite) == self,
            self.drawn(sx, sy, sprite).draw_hits(sx, sy, sprite) <==> exists|line: int, k: int|
             #[trigger]
                self.drawn(sx, sy, sprite).bit_over_set_pixel(sx, sy, sprite, line, k),
    {
        self.lemma_redraw_restores(sx, sy, sprite);
        self.lemma_drawn_pixel(sx, sy, sprite);
        self.drawn(sx, sy, sprite).lemma_draw_hits(sx, sy, sprite);
    }
}

} // verus!
