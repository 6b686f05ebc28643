//! A display that keeps its pixels in memory as booleans.

use crate::display::Display;
use crate::screen::Screen;
use vstd::prelude::*;

verus! {

/// An in-memory display. Besides the pixels it carries a scale factor for the
/// host that paints it: the factor is halved when the display goes to high
/// resolution and doubled when it comes back, so the painted size stays.
pub struct BoolDisplay {
    buffer: Vec<Vec<bool>>,
    scale: u32,
    width: usize,
    height: usize,
    hires: bool,
}

/// A row of `width` clear pixels.
fn blank_row(width: usize) -> (row: Vec<bool>)
    ensures
        row@ == Seq::new(width as nat, |x: int| false),
{
    let mut row: Vec<bool> = Vec::new();
    let mut x: usize = 0;
    while x < width
        invariant
            x <= width,
            row@ == Seq::new(x as nat, |x: int| false),
        decreases width - x,
    {
        row.push(false);
        x += 1;
    }
    row
}

/// `height` rows of `width` clear pixels each.
fn blank_rows(width: usize, height: usize) -> (rows: Vec<Vec<bool>>)
    ensures
        rows@.len() == height,
        forall|y: int|
            0 <= y < height ==> (#[trigger] rows@[y])@ == Seq::new(width as nat, |x: int| false),
{
    let mut rows: Vec<Vec<bool>> = Vec::new();
    let mut y: usize = 0;
    while y < height
        invariant
            y <= height,
            rows@.len() == y,
            forall|j: int|
                0 <= j < y ==> (#[trigger] rows@[j])@ == Seq::new(width as nat, |x: int| false),
        decreases height - y,
    {
        let row = blank_row(width);
        rows.push(row);
        y += 1;
    }
    rows
}

/// A row with the same pixels as `row`.
fn copy_row(row: &Vec<bool>) -> (copy: Vec<bool>)
    ensures
        copy@ == row@,
{
    let mut copy: Vec<bool> = Vec::new();
    let mut x: usize = 0;
    while x < row.len()
        invariant
            x <= row@.len(),
            copy@ == row@.take(x as int),
        decreases row@.len() - x,
    {
        copy.push(row[x]);
        x += 1;
    }
    copy
}

/// The pixels of `row` moved left by `k`, with clear pixels coming in on the right.
pub open spec fn row_moved_left(row: Seq<bool>, k: int) -> Seq<bool> {
    Seq::new(
        row.len(),
        |x: int|
            if x + k < row.len() {
                row[x + k]
            } else {
                false
            },
    )
}

/// The pixels of `row` moved right by `k`, with clear pixels coming in on the left.
pub open spec fn row_moved_right(row: Seq<bool>, k: int) -> Seq<bool> {
    Seq::new(
        row.len(),
        |x: int|
            if x >= k {
                row[x - k]
            } else {
                false
            },
    )
}

/// Moves the pixels of a row left by `k` in place.
fn move_row_left(row: &mut Vec<bool>, k: usize)
    ensures
        final(row)@ == row_moved_left(old(row)@, k as int),
{
    let ghost before = row@;
    let len: usize = row.len();
    let mut x: usize = 0;
    while x < len
        invariant
            x <= len,
            row@.len() == len,
            before.len() == len,
            forall|j: int| 0 <= j < x ==> row@[j] == row_moved_left(before, k as int)[j],
            forall|j: int| x <= j < len ==> row@[j] == before[j],
        decreases len - x,
    {
        let pixel = if k < len - x {
            row[x + k]
        } else {
            false
        };
        row[x] = pixel;
        x += 1;
    }
    assert(row@ =~= row_moved_left(before, k as int));
}

/// Moves the pixels of a row right by `k` in place.
fn move_row_right(row: &mut Vec<bool>, k: usize)
    ensures
        final(row)@ == row_moved_right(old(row)@, k as int),
{
    let ghost before = row@;
    let len: usize = row.len();
    let mut x: usize = len;
    while x > 0
        invariant
            x <= len,
            row@.len() == len,
            before.len() == len,
            forall|j: int| x <= j < len ==> row@[j] == row_moved_right(before, k as int)[j],
            forall|j: int| 0 <= j < x ==> row@[j] == before[j],
        decreases x,
    {
        x -= 1;
        let pixel = if x >= k {
            row[x - k]
        } else {
            false
        };
        row[x] = pixel;
    }
    assert(row@ =~= row_moved_right(before, k as int));
}

impl BoolDisplay {
    /// The scale factor for the host.
    pub closed spec fn scale_view(&self) -> u32 {
        self.scale
    }

    /// A blank low-resolution display with the given scale factor.
    pub fn new(scale: u32) -> (r: BoolDisplay)
        ensures
            r.inv(),
            r.view().wf(),
            r.view() == Screen::blank(false),
            r.scale_view() == scale,
    {
        let r = BoolDisplay { width: 64, height: 32, buffer: blank_rows(64, 32), scale, hires: false };
        assert(r.view() =~~= Screen::blank(false));
        r
    }

    /// The rows of pixels, the top row first.
    pub fn get_buffer(&self) -> (r: core::slice::Iter<'_, Vec<bool>>)
        ensures
            vstd::std_specs::iter::IteratorSpec::remaining(&r).len() == self.view().pixels.len(),
            forall|y: int|
                0 <= y < self.view().pixels.len()
                    ==> (#[trigger] vstd::std_specs::iter::IteratorSpec::remaining(&r)[y])@
                    == self.view().pixels[y],
    {
        self.buffer.iter()
    }

    /// The scale factor for the host.
    pub fn get_scale(&self) -> (r: u32)
        ensures
            r == self.scale_view(),
    {
        self.scale
    }
}

impl Display for BoolDisplay {
    closed spec fn view(&self) -> Screen {
        Screen {
            hires: self.hires,
            pixels: Seq::new(self.buffer@.len(), |y: int| self.buffer@[y]@),
        }
    }

    closed spec fn inv(&self) -> bool {
        &&& self.width == if self.hires { 128int } else { 64int }
        &&& self.height == if self.hires { 64int } else { 32int }
        &&& self.buffer@.len() == self.height
        &&& forall|y: int| 0 <= y < self.height ==> (#[trigger] self.buffer@[y])@.len() == self.width
        &&& self.hires ==> self.scale <= u32::MAX / 2
    }

    fn height(&self) -> (r: usize) {
        self.height
    }

    fn width(&self) -> (r: usize) {
        self.width
    }

    fn current_pixel(&self, x: usize, y: usize) -> (r: u8) {
        if self.buffer[y][x] {
            1
        } else {
            0
        }
    }

    fn set_pixel(&mut self, x: usize, y: usize, new_pixel: u8)
        ensures
            final(self).scale_view() == old(self).scale_view(),
    {
        self.buffer[y][x] = new_pixel != 0;
        assert(self.view() =~~= old(self).view().with_pixel(x as int, y as int, new_pixel != 0));
    }

    fn hires(&self) -> (r: bool) {
        self.hires
    }

    fn clear(&mut self)
        ensures
            final(self).scale_view() == old(self).scale_view(),
    {
        let mut y: usize = 0;
        while y < self.height
            invariant
                y <= self.height,
                self.hires == old(self).hires,
                self.width == old(self).width,
                self.height == old(self).height,
                self.scale == old(self).scale,
                old(self).inv(),
                self.buffer@.len() == self.height,
                forall|j: int|
                    0 <= j < y ==> (#[trigger] self.buffer@[j])@ == Seq::new(
                        self.width as nat,
                        |x: int| false,
                    ),
                forall|j: int| y <= j < self.height ==> (#[trigger] self.buffer@[j])@.len() == self.width,
            decreases self.height - y,
        {
            let mut x: usize = 0;
            while x < self.width
                invariant
                    y < self.height,
                    x <= self.width,
                    self.hires == old(self).hires,
                    self.width == old(self).width,
                    self.height == old(self).height,
                    self.scale == old(self).scale,
                    self.buffer@.len() == self.height,
                    forall|j: int|
                        0 <= j < y ==> (#[trigger] self.buffer@[j])@ == Seq::new(
                            self.width as nat,
                            |x: int| false,
                        ),
                    forall|j: int|
                        y <= j < self.height ==> (#[trigger] self.buffer@[j])@.len() == self.width,
                    forall|i: int| 0 <= i < x ==> !self.buffer@[y as int]@[i],
                decreases self.width - x,
            {
                self.buffer[y][x] = false;
                x += 1;
            }
            assert(self.buffer@[y as int]@ =~= Seq::new(self.width as nat, |x: int| false));
            y += 1;
        }
        assert(self.view() =~~= old(self).view().cleared());
    }

    fn set_hires(&mut self, on: bool)
        ensures
            final(self).scale_view() == if old(self).view().hires == on {
                old(self).scale_view()
            } else if on {
                (old(self).scale_view() / 2) as u32
            } else {
                (old(self).scale_view() * 2) as u32
            },
    {
        if self.hires == on {
            return ;
        }
        self.hires = on;
        if on {
            self.width = 128;
            self.height = 64;
            self.scale = self.scale / 2;
        } else {
            self.width = 64;
            self.height = 32;
            self.scale = self.scale * 2;
        }
        self.buffer = blank_rows(self.width, self.height);
        assert(self.view() =~~= Screen::blank(on));
    }

    fn scroll_left(&mut self)
        ensures
            final(self).scale_view() == old(self).scale_view(),
    {
        let pixels: usize = if self.hires {
            4
        } else {
            2
        };
        let mut y: usize = 0;
        while y < self.height
            invariant
                y <= self.height,
                self.hires == old(self).hires,
                self.width == old(self).width,
                self.height == old(self).height,
                self.scale == old(self).scale,
                old(self).inv(),
                pixels == old(self).view().side_step(),
                self.buffer@.len() == self.height,
                forall|j: int|
                    0 <= j < y ==> (#[trigger] self.buffer@[j])@ == row_moved_left(
                        old(self).buffer@[j]@,
                        pixels as int,
                    ),
                forall|j: int|
                    y <= j < self.height ==> (#[trigger] self.buffer@[j])@ == old(self).buffer@[j]@,
            decreases self.height - y,
        {
            move_row_left(&mut self.buffer[y], pixels);
            y += 1;
        }
        assert(self.view() =~~= old(self).view().scrolled_left());
    }

    fn scroll_right(&mut self)
        ensures
            final(self).scale_view() == old(self).scale_view(),
    {
        let pixels: usize = if self.hires {
            4
        } else {
            2
        };
        let mut y: usize = 0;
        while y < self.height
            invariant
                y <= self.height,
                self.hires == old(self).hires,
                self.width == old(self).width,
                self.height == old(self).height,
                self.scale == old(self).scale,
                old(self).inv(),
                pixels == old(self).view().side_step(),
                self.buffer@.len() == self.height,
                forall|j: int|
                    0 <= j < y ==> (#[trigger] self.buffer@[j])@ == row_moved_right(
                        old(self).buffer@[j]@,
                        pixels as int,
                    ),
                forall|j: int|
                    y <= j < self.height ==> (#[trigger] self.buffer@[j])@ == old(self).buffer@[j]@,
            decreases self.height - y,
        {
            move_row_right(&mut self.buffer[y], pixels);
            y += 1;
        }
        assert(self.view() =~~= old(self).view().scrolled_right());
    }

    fn scroll_down(&mut self, n: u8)
        ensures
            final(self).scale_view() == old(self).scale_view(),
    {
        let pixels: usize = if self.hires {
            n as usize
        } else {
            (n / 2) as usize
        };
        let mut y: usize = self.height;
        while y > 0
            invariant
                y <= self.height,
                self.hires == old(self).hires,
                self.width == old(self).width,
                self.height == old(self).height,
                self.scale == old(self).scale,
                old(self).inv(),
                pixels == old(self).view().down_step(n),
                self.buffer@.len() == self.height,
                forall|j: int|
                    y <= j < self.height ==> (#[trigger] self.buffer@[j])@ == (if j >= pixels {
                        old(self).buffer@[j - pixels]@
                    } else {
                        Seq::new(self.width as nat, |x: int| false)
                    }),
                forall|j: int| 0 <= j < y ==> (#[trigger] self.buffer@[j])@ == old(self).buffer@[j]@,
            decreases y,
        {
            y -= 1;
            let row = if y >= pixels {
                copy_row(&self.buffer[y - pixels])
            } else {
                blank_row(self.width)
            };
            self.buffer[y] = row;
        }
        assert(self.view() =~~= old(self).view().scrolled_down(n));
    }
}

} // verus!
