//! The display as a mathematical value: a grid of pixels in one of two
//! resolutions, and what clearing, scrolling and drawing make of it.

use vstd::prelude::*;

verus! {

/// Whether bit `k` of `byte` is set, counting from the most significant bit.
pub open spec fn sprite_bit(byte: u8, k: int) -> bool {
    0 <= k < 8 && (byte >> ((7 - k) as u8)) & 1u8 == 1u8
}

/// What a display shows: the resolution mode and the rows of pixels, the top
/// row first.
#[verifier::ext_equal]
pub struct Screen {
    pub hires: bool,
    pub pixels: Seq<Seq<bool>>,
}

impl Screen {
    /// Pixels per row: 64 in low resolution, 128 in high resolution.
    pub open spec fn width(self) -> int {
        if self.hires {
            128
        } else {
            64
        }
    }

    /// Number of rows: 32 in low resolution, 64 in high resolution.
    pub open spec fn height(self) -> int {
        if self.hires {
            64
        } else {
            32
        }
    }

    /// The pixel grid has the size that the resolution mode calls for.
    pub open spec fn wf(self) -> bool {
        &&& self.pixels.len() == self.height()
        &&& forall|y: int| 0 <= y < self.height() ==> (#[trigger] self.pixels[y]).len() == self.width()
    }

    /// The pixel in column `x` of row `y`.
    pub open spec fn pixel(self, x: int, y: int) -> bool {
        self.pixels[y][x]
    }

    /// Whether no pixel is set.
    pub open spec fn is_blank(self) -> bool {
        forall|x: int, y: int|
            0 <= x < self.width() && 0 <= y < self.height() ==> !#[trigger] self.pixel(x, y)
    }

    /// A screen of the given mode with no pixel set.
    pub open spec fn blank(hires: bool) -> Screen {
        let size = Screen { hires, pixels: Seq::empty() };
        Screen {
            hires,
            pixels: Seq::new(
                size.height() as nat,
                |y: int| Seq::new(size.width() as nat, |x: int| false),
            ),
        }
    }

    /// The screen with one pixel replaced.
    pub open spec fn with_pixel(self, x: int, y: int, on: bool) -> Screen {
        Screen { hires: self.hires, pixels: self.pixels.update(y, self.pixels[y].update(x, on)) }
    }

    /// The screen with every pixel cleared, in the same mode.
    pub open spec fn cleared(self) -> Screen {
        Screen::blank(self.hires)
    }

    /// The screen after a request for the given mode: unchanged when it is in
    /// that mode already, blank in the new mode otherwise.
    pub open spec fn with_hires(self, on: bool) -> Screen {
        if self.hires == on {
            self
        } else {
            Screen::blank(on)
        }
    }

    /// The distance of a sideways scroll: 4 pixels in high resolution, 2 in low.
    pub open spec fn side_step(self) -> int {
        if self.hires {
            4
        } else {
            2
        }
    }

    /// The distance of a downward scroll by `n`: `n` rows in high resolution,
    /// half of it, rounded down, in low resolution.
    pub open spec fn down_step(self, n: u8) -> int {
        if self.hires {
            n as int
        } else {
            n as int / 2
        }
    }

    /// Every row moved left by the side step. Pixels that leave on the left
    /// are lost and the columns that open on the right are clear.
    pub open spec fn scrolled_left(self) -> Screen {
        Screen {
            hires: self.hires,
            pixels: Seq::new(
                self.height() as nat,
                |y: int|
                    Seq::new(
                        self.width() as nat,
                        |x: int|
                            if x + self.side_step() < self.width() {
                                self.pixels[y][x + self.side_step()]
                            } else {
                                false
                            },
                    ),
            ),
        }
    }

    /// Every row moved right by the side step. Pixels that leave on the right
    /// are lost and the columns that open on the left are clear.
    pub open spec fn scrolled_right(self) -> Screen {
        Screen {
            hires: self.hires,
            pixels: Seq::new(
                self.height() as nat,
                |y: int|
                    Seq::new(
                        self.width() as nat,
                        |x: int|
                            if x >= self.side_step() {
                                self.pixels[y][x - self.side_step()]
                            } else {
                                false
                            },
                    ),
            ),
        }
    }

    /// Every row moved down by the down step of `n`. Rows that leave at the
    /// bottom are lost and the rows that open at the top are clear.
    pub open spec fn scrolled_down(self, n: u8) -> Screen {
        Screen {
            hires: self.hires,
            pixels: Seq::new(
                self.height() as nat,
                |y: int|
                    Seq::new(
                        self.width() as nat,
                        |x: int|
                            if y >= self.down_step(n) {
                                self.pixels[y - self.down_step(n)][x]
                            } else {
                                false
                            },
                    ),
            ),
        }
    }

    /// The column that `x` names when columns are counted on past the right
    /// edge, starting again at the left: `x` modulo the width.
    pub open spec fn wrap_x(self, x: int) -> int {
        if self.hires {
            x % 128
        } else {
            x % 64
        }
    }

    /// The row that `y` names when rows are counted on past the bottom
    /// edge, starting again at the top: `y` modulo the height.
    pub open spec fn wrap_y(self, y: int) -> int {
        if self.hires {
            y % 64
        } else {
            y % 32
        }
    }

    /// Whether a sprite row `byte` whose leftmost bit lies in column `sx`
    /// has a set bit over column `x`. Columns past the right edge continue
    /// at the left edge.
    pub open spec fn covers(self, sx: int, byte: u8, x: int) -> bool {
        sprite_bit(byte, self.wrap_x(x - sx))
    }

    /// The screen after one sprite row was drawn into row `y`: every pixel
    /// under a set bit is flipped.
    pub open spec fn drawn_byte(self, sx: int, y: int, byte: u8) -> Screen {
        Screen {
            hires: self.hires,
            pixels: self.pixels.update(
                y,
                Seq::new(
                    self.width() as nat,
                    |x: int| self.pixels[y][x] != self.covers(sx, byte, x),
                ),
            ),
        }
    }

    /// Whether drawing one sprite row into row `y` turns a set pixel off.
    pub open spec fn byte_hits(self, sx: int, y: int, byte: u8) -> bool {
        exists|x: int| 0 <= x < self.width() && #[trigger] self.pixel(x, y) && self.covers(sx, byte, x)
    }

    /// The row that line `line` of a sprite drawn from row `sy` falls on:
    /// rows past the bottom edge continue at the top.
    pub open spec fn sprite_row(self, sy: int, line: int) -> int {
        self.wrap_y(sy + line)
    }

    /// The screen after a sprite of one byte per line was drawn with its top
    /// left corner at column `sx` of row `sy`.
    pub open spec fn drawn(self, sx: int, sy: int, sprite: Seq<u8>) -> Screen
        decreases sprite.len(),
    {
        if sprite.len() == 0 {
            self
        } else {
            self.drawn(sx, sy, sprite.drop_last()).drawn_byte(
                sx,
                self.sprite_row(sy, sprite.len() - 1),
                sprite.last(),
            )
        }
    }

    /// Whether drawing the sprite turns a set pixel off at any point.
    pub open spec fn draw_hits(self, sx: int, sy: int, sprite: Seq<u8>) -> bool
        decreases sprite.len(),
    {
        if sprite.len() == 0 {
            false
        } else {
            self.draw_hits(sx, sy, sprite.drop_last()) || self.drawn(
                sx,
                sy,
                sprite.drop_last(),
            ).byte_hits(sx, self.sprite_row(sy, sprite.len() - 1), sprite.last())
        }
    }

    /// The screen after line `line` of a double-size sprite was drawn. The
    /// line is a pair of bytes: the left byte goes to column `sx`, and in high
    /// resolution the right byte follows eight columns further. In low
    /// resolution the right byte is not drawn.
    pub open spec fn drawn_wide_line(self, sx: int, sy: int, sprite: Seq<u8>, line: int) -> Screen {
        let y = self.sprite_row(sy, line);
        let left = self.drawn_byte(sx, y, sprite[2 * line]);
        if self.hires {
            left.drawn_byte(sx + 8, y, sprite[2 * line + 1])
        } else {
            left
        }
    }

    /// Whether drawing line `line` of a double-size sprite turns a set pixel off.
    pub open spec fn wide_line_hits(self, sx: int, sy: int, sprite: Seq<u8>, line: int) -> bool {
        let y = self.sprite_row(sy, line);
        self.byte_hits(sx, y, sprite[2 * line]) || (self.hires && self.drawn_byte(
            sx,
            y,
            sprite[2 * line],
        ).byte_hits(sx + 8, y, sprite[2 * line + 1]))
    }

    /// The screen after the first `lines` lines of a double-size sprite were drawn.
    pub open spec fn drawn_wide_lines(self, sx: int, sy: int, sprite: Seq<u8>, lines: int) -> Screen
        decreases lines,
    {
        if lines <= 0 {
            self
        } else {
            self.drawn_wide_lines(sx, sy, sprite, lines - 1).drawn_wide_line(
                sx,
                sy,
                sprite,
                lines - 1,
            )
        }
    }

    /// Whether drawing the first `lines` lines of a double-size sprite turns
    /// a set pixel off at any point.
    pub open spec fn wide_lines_hit(self, sx: int, sy: int, sprite: Seq<u8>, lines: int) -> bool
        decreases lines,
    {
        if lines <= 0 {
            false
        } else {
            self.wide_lines_hit(sx, sy, sprite, lines - 1) || self.drawn_wide_lines(
                sx,
                sy,
                sprite,
                lines - 1,
            ).wide_line_hits(sx, sy, sprite, lines - 1)
        }
    }

    /// The screen after a double-size sprite of sixteen lines was drawn.
    pub open spec fn schip_drawn(self, sx: int, sy: int, sprite: Seq<u8>) -> Screen {
        self.drawn_wide_lines(sx, sy, sprite, 16)
    }

    /// Whether drawing a double-size sprite turns a set pixel off at any point.
    pub open spec fn schip_draw_hits(self, sx: int, sy: int, sprite: Seq<u8>) -> bool {
        self.wide_lines_hit(sx, sy, sprite, 16)
    }
}

} // verus!
