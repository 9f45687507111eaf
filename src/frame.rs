//! The frame buffer: one pixel word per pixel, top row first, while image
//! rows are numbered from the bottom (row 0 is the lowest row of the image).
use vstd::prelude::*;

verus! {

/// Slot of the pixel in column `i` and image row `j` (counted from the
/// bottom) in a buffer of `height` rows of `width` pixels stored top row
/// first.
pub open spec fn slot(width: int, height: int, i: int, j: int) -> int {
    (height - 1 - j) * width + i
}

/// A pixel position inside a `width` x `height` image.
pub open spec fn in_image(width: int, height: int, i: int, j: int) -> bool {
    0 <= i < width && 0 <= j < height
}

proof fn lemma_slot_bounds(width: int, height: int, i: int, j: int)
    requires
        in_image(width, height, i, j),
    ensures
        (height - 1 - j) * width <= slot(width, height, i, j) < (height - j) * width,
        (height - j) * width <= height * width,
        0 <= (height - 1 - j) * width,
{
    assert((height - j) * width == (height - 1 - j) * width + width) by (nonlinear_arith);
    assert((height - j) * width <= height * width) by (nonlinear_arith)
        requires
            0 <= j,
            0 <= width,
    ;
    assert(0 <= (height - 1 - j) * width) by (nonlinear_arith)
        requires
            j < height,
            0 <= width,
    ;
}

/// Every pixel of a `width` x `height` image has a slot in the buffer, and no
/// two pixels share one: rows rendered apart from each other write disjoint
/// parts of the buffer.
pub proof fn lemma_slots_disjoint(width: int, height: int, i1: int, j1: int, i2: int, j2: int)
    requires
        in_image(width, height, i1, j1),
        in_image(width, height, i2, j2),
    ensures
        0 <= slot(width, height, i1, j1) < width * height,
        slot(width, height, i1, j1) == slot(width, height, i2, j2) ==> i1 == i2 && j1 == j2,
{
    lemma_slot_bounds(width, height, i1, j1);
    lemma_slot_bounds(width, height, i2, j2);
    assert(height * width == width * height) by (nonlinear_arith);
    if j1 < j2 {
        assert((height - j2) * width <= (height - 1 - j1) * width) by (nonlinear_arith)
            requires
                j1 + 1 <= j2,
                0 <= width,
        ;
    } else if j2 < j1 {
        assert((height - j1) * width <= (height - 1 - j2) * width) by (nonlinear_arith)
            requires
                j2 + 1 <= j1,
                0 <= width,
        ;
    }
}

/// Slot of the pixel in column `i` and image row `j` (counted from the bottom).
pub fn pixel_index(width: usize, height: usize, i: usize, j: usize) -> (k: usize)
    requires
        in_image(width as int, height as int, i as int, j as int),
        width * height <= usize::MAX,
    ensures
        k == slot(width as int, height as int, i as int, j as int),
        k < width * height,
{
    proof {
        lemma_slot_bounds(width as int, height as int, i as int, j as int);
        assert(height * width == width * height) by (nonlinear_arith);
    }
    (height - 1 - j) * width + i
}

/// What a frame buffer holds: its size and one pixel word per pixel.
pub struct FrameView {
    pub width: nat,
    pub height: nat,
    pub pixels: Seq<u32>,
}

/// The pixel words of a `width` x `height` image, top row first.
pub struct FrameBuffer {
    width: usize,
    height: usize,
    pixels: Vec<u32>,
}

impl View for FrameBuffer {
    type V = FrameView;

    closed spec fn view(&self) -> FrameView {
        FrameView { width: self.width as nat, height: self.height as nat, pixels: self.pixels@ }
    }
}

/// `after` is `before` with image row `j` (counted from the bottom) replaced
/// by `row`, left to right.
pub open spec fn row_written(before: FrameView, after: FrameView, j: int, row: Seq<u32>) -> bool {
    let start = slot(before.width as int, before.height as int, 0, j);
    &&& after.width == before.width
    &&& after.height == before.height
    &&& after.pixels.len() == before.pixels.len()
    &&& forall|k: int|
        0 <= k < before.pixels.len() ==> #[trigger] after.pixels[k] == if start <= k < start
            + before.width {
            row[k - start]
        } else {
            before.pixels[k]
        }
}

impl FrameBuffer {
    /// One pixel word per pixel.
    pub open spec fn wf(&self) -> bool {
        self@.pixels.len() == self@.width * self@.height
    }

    /// A black frame of `width` x `height` pixels; `None` when the pixel count
    /// does not fit in `usize`.
    pub fn new(width: usize, height: usize) -> (f: Option<FrameBuffer>)
        ensures
            f is None <==> width * height > usize::MAX,
            f matches Some(fb) ==> fb.wf() && fb@ == (FrameView {
                width: width as nat,
                height: height as nat,
                pixels: Seq::new((width * height) as nat, |k: int| 0u32),
            }),
    {
        let n = match width.checked_mul(height) {
            Some(n) => n,
            None => return None,
        };
        let mut pixels: Vec<u32> = Vec::with_capacity(n);
        let mut k: usize = 0;
        while k < n
            invariant
                k <= n,
                pixels@ == Seq::new(k as nat, |m: int| 0u32),
            decreases n - k,
        {
            pixels.push(0u32);
            k = k + 1;
            assert(pixels@ =~= Seq::new(k as nat, |m: int| 0u32));
        }
        Some(FrameBuffer { width, height, pixels })
    }

    pub fn width(&self) -> (w: usize)
        ensures
            w == self@.width,
    {
        self.width
    }

    pub fn height(&self) -> (h: usize)
        ensures
            h == self@.height,
    {
        self.height
    }

    /// The pixel words, top row first.
    pub fn pixels(&self) -> (p: &Vec<u32>)
        requires
            self.wf(),
        ensures
            p@ == self@.pixels,
            p@.len() == self@.width * self@.height,
    {
        &self.pixels
    }

    /// Stores pixel word `p` for column `i` of image row `j` (counted from the
    /// bottom).
    pub fn set_pixel(&mut self, i: usize, j: usize, p: u32)
        requires
            old(self).wf(),
            in_image(old(self)@.width as int, old(self)@.height as int, i as int, j as int),
        ensures
            final(self)@ == (FrameView {
                pixels: old(self)@.pixels.update(
                    slot(old(self)@.width as int, old(self)@.height as int, i as int, j as int),
                    p,
                ),
                ..old(self)@
            }),
            final(self).wf(),
    {
        let n = self.pixels.len();
        assert(n == self.width * self.height);
        let k = pixel_index(self.width, self.height, i, j);
        self.pixels.set(k, p);
    }

    /// Stores the pixel words of image row `j` (counted from the bottom), left
    /// to right.
    pub fn write_row(&mut self, j: usize, row: &Vec<u32>)
        requires
            old(self).wf(),
            j < old(self)@.height,
            row@.len() == old(self)@.width,
        ensures
            row_written(old(self)@, final(self)@, j as int, row@),
            final(self).wf(),
    {
        let ghost before = self@;
        let ghost start = slot(before.width as int, before.height as int, 0, j as int);
        let mut i: usize = 0;
        while i < self.width
            invariant
                0 <= i <= self@.width,
                self@.width == before.width,
                self@.height == before.height,
                j < before.height,
                start == slot(before.width as int, before.height as int, 0, j as int),
                self.wf(),
                row@.len() == before.width,
                self@.pixels.len() == before.pixels.len(),
                forall|k: int|
                    0 <= k < before.pixels.len() ==> #[trigger] self@.pixels[k] == if start <= k
                        < start + i {
                        row[k - start]
                    } else {
                        before.pixels[k]
                    },
            decreases self@.width - i,
        {
            proof {
                lemma_slot_bounds(self.width as int, self.height as int, i as int, j as int);
            }
            self.set_pixel(i, j, row[i]);
            assert(slot(before.width as int, before.height as int, i as int, j as int) == start + i);
            i = i + 1;
        }
    }
}

} // verus!
