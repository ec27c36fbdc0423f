//! Pixel grids: row-major 8-bit images with a fixed number of channels.
//!
//! A tile and a mosaic are grids of four channels (red, green, blue, alpha);
//! a canvas is a grid of three. A grid's samples lie row after row, pixel
//! after pixel, channel after channel.

use vstd::prelude::*;

verus! {

/// Where the sample of channel `c` at column `x`, row `y` lies in the buffer
/// of a grid that is `width` pixels wide and has `channels` channels.
pub open spec fn offset(width: int, channels: int, x: int, y: int, c: int) -> int {
    (y * width + x) * channels + c
}

/// A sample inside a grid lies inside its buffer.
pub proof fn lemma_offset_in_bounds(width: int, height: int, channels: int, x: int, y: int, c: int)
    requires
        0 <= x < width,
        0 <= y < height,
        0 <= c < channels,
    ensures
        0 <= offset(width, channels, x, y, c) < width * height * channels,
{
    assert(0 <= y * width && y * width + width <= height * width) by (nonlinear_arith)
        requires
            0 <= y < height,
            0 < width,
    ;
    let p = y * width + x;
    assert(0 <= p * channels && p * channels + channels <= (width * height) * channels)
        by (nonlinear_arith)
        requires
            0 <= p,
            p + 1 <= width * height,
            0 < channels,
    ;
    assert(height * width == width * height) by (nonlinear_arith);
}

/// A sample's place, split into the start of its row and its place in the row.
pub proof fn lemma_offset_by_row(width: int, channels: int, x: int, y: int, c: int)
    ensures
        offset(width, channels, x, y, c) == y * (width * channels) + x * channels + c,
{
    assert((y * width + x) * channels == y * (width * channels) + x * channels)
        by (nonlinear_arith);
}

/// Which samples of a grid a run of `span` pixels covers that starts at
/// column `left` of row `row`: those of that row and of the columns from
/// `left` on, each at its distance from the run's start.
pub proof fn lemma_run_covers(
    width: int,
    channels: int,
    x: int,
    y: int,
    c: int,
    left: int,
    row: int,
    span: int,
)
    requires
        0 <= x < width,
        0 <= y,
        0 <= c < channels,
        0 <= row,
        0 <= left,
        0 <= span,
        left + span <= width,
    ensures
        ({
            let i = offset(width, channels, x, y, c);
            let start = offset(width, channels, left, row, 0);
            &&& (start <= i < start + span * channels) <==> (y == row && left <= x < left + span)
            &&& (y == row && left <= x < left + span) ==> i - start == (x - left) * channels + c
        }),
{
    let stride = width * channels;
    let i = offset(width, channels, x, y, c);
    let start = offset(width, channels, left, row, 0);
    lemma_offset_by_row(width, channels, x, y, c);
    lemma_offset_by_row(width, channels, left, row, 0);
    assert(0 <= x * channels && x * channels + channels <= stride) by (nonlinear_arith)
        requires
            0 <= x < width,
            0 < channels,
            stride == width * channels,
    ;
    assert(0 <= left * channels && left * channels + span * channels <= stride
        && 0 <= span * channels) by (nonlinear_arith)
        requires
            0 <= left,
            0 <= span,
            left + span <= width,
            0 < channels,
            stride == width * channels,
    ;
    assert((x - left) * channels == x * channels - left * channels) by (nonlinear_arith);
    if y < row {
        assert(y * stride + stride <= row * stride) by (nonlinear_arith)
            requires
                y < row,
                0 <= stride,
        ;
    } else if y > row {
        assert(row * stride + stride <= y * stride) by (nonlinear_arith)
            requires
                row < y,
                0 <= stride,
        ;
    } else {
        if x < left {
            assert(x * channels + channels <= left * channels) by (nonlinear_arith)
                requires
                    x < left,
                    0 < channels,
            ;
        } else if x >= left + span {
            assert(left * channels + span * channels <= x * channels) by (nonlinear_arith)
                requires
                    left + span <= x,
                    0 < channels,
            ;
        } else {
            assert(x * channels + channels <= left * channels + span * channels)
                by (nonlinear_arith)
                requires
                    x < left + span,
                    0 < channels,
            ;
            assert(left * channels <= x * channels) by (nonlinear_arith)
                requires
                    left <= x,
                    0 < channels,
            ;
        }
    }
}

/// Overwrites `len` bytes of `dst` from index `at` on with the bytes of
/// `src` from index `from` on.
pub fn copy_run(dst: &mut Vec<u8>, at: usize, src: &Vec<u8>, from: usize, len: usize)
    requires
        at + len <= old(dst).len(),
        from + len <= src.len(),
    ensures
        final(dst)@.len() == old(dst)@.len(),
        forall|i: int|
            0 <= i < old(dst)@.len() ==> final(dst)@[i] == if at <= i < at + len {
                src@[from + i - at]
            } else {
                old(dst)@[i]
            },
{
    let mut k: usize = 0;
    while k < len
        invariant
            k <= len,
            at + len <= dst.len(),
            from + len <= src.len(),
            dst@.len() == old(dst)@.len(),
            forall|i: int|
                0 <= i < dst@.len() ==> dst@[i] == if at <= i < at + k {
                    src@[from + i - at]
                } else {
                    old(dst)@[i]
                },
        decreases len - k,
    {
        dst.set(at + k, src[from + k]);
        k = k + 1;
    }
}

/// Where channel `c` of the `pixel`-th pixel lies in a buffer of `channels`
/// channels per pixel.
pub open spec fn sample_index(pixel: int, channels: int, c: int) -> int {
    pixel * channels + c
}

/// A row-major image of 8-bit samples with `C` channels per pixel.
pub struct PixelGrid<const C: usize> {
    width: u32,
    height: u32,
    data: Vec<u8>,
}

/// A decoded tile: red, green, blue and alpha per pixel.
pub type TileImage = PixelGrid<4>;

/// The assembled full-disk image: red, green, blue and alpha per pixel.
pub type Mosaic = PixelGrid<4>;

/// The destination image of the screen's size: red, green and blue per pixel.
pub type Canvas = PixelGrid<3>;

impl<const C: usize> View for PixelGrid<C> {
    type V = Seq<u8>;

    /// The samples, row after row.
    closed spec fn view(&self) -> Seq<u8> {
        self.data@
    }
}

impl<const C: usize> PixelGrid<C> {
    /// The width in pixels.
    pub closed spec fn spec_width(&self) -> u32 {
        self.width
    }

    /// The height in pixels.
    pub closed spec fn spec_height(&self) -> u32 {
        self.height
    }

    /// The buffer holds exactly one sample per channel of every pixel.
    pub open spec fn wf(&self) -> bool {
        &&& C >= 1
        &&& self@.len() == self.spec_width() * self.spec_height() * C
    }

    /// The sample of channel `c` at column `x`, row `y`.
    pub open spec fn sample(&self, x: int, y: int, c: int) -> u8 {
        self@[offset(self.spec_width() as int, C as int, x, y, c)]
    }

    /// Whether column `x`, row `y`, channel `c` names a sample of the grid.
    pub open spec fn holds(&self, x: int, y: int, c: int) -> bool {
        &&& 0 <= x < self.spec_width()
        &&& 0 <= y < self.spec_height()
        &&& 0 <= c < C
    }

    /// Every sample is zero: black, and transparent where there is alpha.
    pub open spec fn is_blank(&self) -> bool {
        forall|i: int| 0 <= i < self@.len() ==> self@[i] == 0
    }

    /// What a grid holds after the first `rows` rows of `src` were pasted
    /// with their top-left corner at column `left`, row `top`: inside that
    /// rectangle the samples of `src`, outside it those of `before`.
    pub open spec fn is_pasted(
        &self,
        before: &PixelGrid<C>,
        src: &PixelGrid<C>,
        left: int,
        top: int,
        rows: int,
    ) -> bool {
        &&& self.spec_width() == before.spec_width()
        &&& self.spec_height() == before.spec_height()
        &&& self@.len() == before@.len()
        &&& forall|x: int, y: int, c: int| #[trigger]
            self.holds(x, y, c) ==> self.sample(x, y, c) == if left <= x < left + src.spec_width()
                && top <= y < top + rows {
                src.sample(x - left, y - top, c)
            } else {
                before.sample(x, y, c)
            }
    }

    /// Whether the first `rows` rows of a grid of `src`'s width fit into this
    /// grid with their top-left corner at column `left`, row `top`.
    pub open spec fn fits(&self, src: &PixelGrid<C>, left: int, top: int, rows: int) -> bool {
        &&& 0 <= left
        &&& 0 <= top
        &&& 0 <= rows <= src.spec_height()
        &&& left + src.spec_width() <= self.spec_width()
        &&& top + rows <= self.spec_height()
    }

    /// What a crop holds: the `width` by `height` pixels of `of` whose
    /// top-left corner is at column `left`, row `top`.
    pub open spec fn is_crop_of(&self, of: &PixelGrid<C>, left: int, top: int) -> bool {
        &&& self.wf()
        &&& forall|x: int, y: int, c: int| #[trigger]
            self.holds(x, y, c) ==> self.sample(x, y, c) == of.sample(x + left, y + top, c)
    }

    /// The buffer of a grid fits the machine's index type, and so do the
    /// places of a run of `span` pixels from column `left` of row `row`.
    proof fn lemma_run_fits(&self, left: int, row: int, span: int)
        requires
            self.wf(),
            0 <= left,
            0 <= row < self.height,
            1 <= span,
            left + span <= self.width,
        ensures
            self.width * self.height * C <= usize::MAX,
            0 <= row * self.width,
            row * self.width + left + span <= self.width * self.height,
            self.width * self.height <= self.width * self.height * C,
            0 <= (row * self.width + left) * C,
            0 <= span * C,
            (row * self.width + left) * C + span * C <= self.width * self.height * C,
            (row * self.width + left) * C == offset(self.width as int, C as int, left, row, 0),
    {
        assert(self.data@.len() == self.data.len());
        let w = self.width as int;
        let h = self.height as int;
        let c = C as int;
        assert(0 <= row * w && row * w + w <= w * h) by (nonlinear_arith)
            requires
                0 <= row < h,
                0 < w,
        ;
        let p = row * w + left;
        assert(0 <= p * c && 0 <= span * c && p * c + span * c <= (w * h) * c && w * h <= (w * h)
            * c) by (nonlinear_arith)
            requires
                0 <= p,
                1 <= span,
                p + span <= w * h,
                1 <= c,
        ;
    }

    /// The width in pixels.
    #[verifier::when_used_as_spec(spec_width)]
    pub fn width(&self) -> (w: u32)
        ensures
            w == self.spec_width(),
    {
        self.width
    }

    /// The height in pixels.
    #[verifier::when_used_as_spec(spec_height)]
    pub fn height(&self) -> (h: u32)
        ensures
            h == self.spec_height(),
    {
        self.height
    }

    /// The number of samples that a grid of these dimensions holds, where
    /// that number fits the machine's index type.
    pub fn buffer_len(width: u32, height: u32) -> (n: Option<usize>)
        ensures
            n is Some <==> width * height * C <= usize::MAX,
            n matches Some(len) ==> len == width * height * C,
    {
        assert(0 <= width * height <= 0xffff_ffff * 0xffff_ffff) by (nonlinear_arith)
            requires
                0 <= width <= 0xffff_ffff,
                0 <= height <= 0xffff_ffff,
        ;
        let pixels: u64 = (width as u64) * (height as u64);
        assert(0 <= pixels * C <= 0xffff_ffff_ffff_ffff * 0xffff_ffff_ffff_ffff)
            by (nonlinear_arith)
            requires
                0 <= pixels <= 0xffff_ffff_ffff_ffff,
                0 <= C <= 0xffff_ffff_ffff_ffff,
        ;
        let total: u128 = (pixels as u128) * (C as u128);
        if total <= usize::MAX as u128 {
            Some(total as usize)
        } else {
            None
        }
    }

    /// A blank grid of the given dimensions, or `None` where its buffer
    /// would hold more samples than the machine can index.
    pub fn new(width: u32, height: u32) -> (r: Option<Self>)
        requires
            C >= 1,
        ensures
            r is Some <==> width * height * C <= usize::MAX,
            r matches Some(g) ==> {
                &&& g.wf()
                &&& g.spec_width() == width
                &&& g.spec_height() == height
                &&& g.is_blank()
            },
    {
        match Self::buffer_len(width, height) {
            Some(len) => {
                let data = vec![0u8; len];
                Some(PixelGrid { width, height, data })
            },
            None => None,
        }
    }

    /// Wraps a buffer of samples as a grid of the given dimensions; `None`
    /// where the buffer's length is not that of such a grid.
    pub fn from_raw(width: u32, height: u32, data: Vec<u8>) -> (r: Option<Self>)
        requires
            C >= 1,
        ensures
            r is Some <==> data@.len() == width * height * C,
            r matches Some(g) ==> {
                &&& g.wf()
                &&& g.spec_width() == width
                &&& g.spec_height() == height
                &&& g@ == data@
            },
    {
        let held = data.len();
        match Self::buffer_len(width, height) {
            Some(len) => {
                if held == len {
                    Some(PixelGrid { width, height, data })
                } else {
                    None
                }
            },
            None => None,
        }
    }

    /// The samples, row after row.
    pub fn as_raw(&self) -> (r: &Vec<u8>)
        ensures
            r@ == self@,
    {
        &self.data
    }

    /// Gives up the grid for its buffer of samples.
    pub fn into_raw(self) -> (r: Vec<u8>)
        ensures
            r@ == self@,
    {
        self.data
    }

    /// The sample of channel `c` at column `x`, row `y`; `None` outside the grid.
    pub fn get(&self, x: u32, y: u32, c: usize) -> (r: Option<u8>)
        requires
            self.wf(),
        ensures
            r is Some <==> self.holds(x as int, y as int, c as int),
            r matches Some(v) ==> v == self.sample(x as int, y as int, c as int),
    {
        if x < self.width && y < self.height && c < C {
            proof {
                self.lemma_run_fits(x as int, y as int, 1);
            }
            let p: usize = (y as usize) * (self.width as usize) + (x as usize);
            Some(self.data[p * C + c])
        } else {
            None
        }
    }

    /// Pastes the first `rows` rows of `src` with their top-left corner at
    /// column `left`, row `top`. Where they do not fit, nothing is changed
    /// and the result is `false`.
    pub fn paste(&mut self, src: &PixelGrid<C>, left: u32, top: u32, rows: u32) -> (done: bool)
        requires
            old(self).wf(),
            src.wf(),
        ensures
            final(self).wf(),
            done <==> old(self).fits(src, left as int, top as int, rows as int),
            done ==> final(self).is_pasted(old(self), src, left as int, top as int, rows as int),
            !done ==> *final(self) == *old(self),
    {
        if rows > src.height || (left as u64) + (src.width as u64) > self.width as u64 || (
        top as u64) + (rows as u64) > self.height as u64 {
            return false;
        }
        let ghost before = *self;
        if rows == 0 || src.width == 0 {
            return true;
        }
        proof {
            src.lemma_run_fits(0, 0, src.width as int);
        }
        let span: usize = src.width as usize;
        let run: usize = span * C;
        let mut r: u32 = 0;
        while r < rows
            invariant
                C >= 1,
                r <= rows,
                rows <= src.height,
                span == src.width,
                span >= 1,
                run == span * C,
                left + src.width <= self.width,
                top + rows <= self.height,
                src.wf(),
                self.wf(),
                before.wf(),
                self.width == before.width,
                self.height == before.height,
                self@.len() == before@.len(),
                forall|x: int, y: int, c: int| #[trigger]
                    self.holds(x, y, c) ==> self.sample(x, y, c) == if left <= x < left
                        + src.spec_width() && top <= y < top + r {
                        src.sample(x - left, y - top, c)
                    } else {
                        before.sample(x, y, c)
                    },
            decreases rows - r,
        {
            let ghost prior = *self;
            proof {
                self.lemma_run_fits(left as int, top + r, span as int);
                src.lemma_run_fits(0, r as int, span as int);
            }
            let row: usize = (top as usize) + (r as usize);
            let at_pixel: usize = row * (self.width as usize) + (left as usize);
            let from_pixel: usize = (r as usize) * (src.width as usize);
            let at: usize = at_pixel * C;
            let from: usize = from_pixel * C;
            copy_run(&mut self.data, at, &src.data, from, run);
            assert forall|x: int, y: int, c: int| #[trigger]
                self.holds(x, y, c) implies self.sample(x, y, c) == if left <= x < left
                + src.spec_width() && top <= y < top + r + 1 {
                src.sample(x - left, y - top, c)
            } else {
                before.sample(x, y, c)
            } by {
                assert(prior.holds(x, y, c));
                lemma_offset_in_bounds(self.width as int, self.height as int, C as int, x, y, c);
                lemma_run_covers(
                    self.width as int,
                    C as int,
                    x,
                    y,
                    c,
                    left as int,
                    top + r,
                    span as int,
                );
                if y == top + r && left <= x < left + span {
                    lemma_run_covers(
                        src.width as int,
                        C as int,
                        x - left,
                        r as int,
                        c,
                        0,
                        r as int,
                        span as int,
                    );
                }
            }
            r = r + 1;
        }
        true
    }

    /// The `width` by `height` pixels whose top-left corner is at column
    /// `left`, row `top`, as a grid of their own; `None` where they do not
    /// all lie inside this grid.
    pub fn crop(&self, left: u32, top: u32, width: u32, height: u32) -> (r: Option<PixelGrid<C>>)
        requires
            self.wf(),
        ensures
            r is Some <==> left + width <= self.spec_width() && top + height
                <= self.spec_height(),
            r matches Some(g) ==> {
                &&& g.spec_width() == width
                &&& g.spec_height() == height
                &&& g.is_crop_of(self, left as int, top as int)
            },
    {
        if (left as u64) + (width as u64) > self.width as u64 || (top as u64) + (height as u64)
            > self.height as u64 {
            return None;
        }
        proof {
            assert(self.data@.len() == self.data.len());
            assert(width * height * C <= self.width * self.height * C) by (nonlinear_arith)
                requires
                    0 <= width <= self.width,
                    0 <= height <= self.height,
                    C >= 1,
            ;
        }
        let mut out = match Self::new(width, height) {
            Some(g) => g,
            None => {
                return None;
            },
        };
        if width == 0 || height == 0 {
            return Some(out);
        }
        proof {
            out.lemma_run_fits(0, 0, width as int);
        }
        let run: usize = (width as usize) * C;
        let mut r: u32 = 0;
        while r < height
            invariant
                C >= 1,
                r <= height,
                width >= 1,
                run == width * C,
                left + width <= self.width,
                top + height <= self.height,
                self.wf(),
                out.wf(),
                out.width == width,
                out.height == height,
                forall|x: int, y: int, c: int| #[trigger]
                    out.holds(x, y, c) && y < r ==> out.sample(x, y, c) == self.sample(
                        x + left,
                        y + top,
                        c,
                    ),
            decreases height - r,
        {
            let ghost prior = out;
            proof {
                self.lemma_run_fits(left as int, top + r, width as int);
                out.lemma_run_fits(0, r as int, width as int);
            }
            let row: usize = (top as usize) + (r as usize);
            let from_pixel: usize = row * (self.width as usize) + (left as usize);
            let at_pixel: usize = (r as usize) * (width as usize);
            let from: usize = from_pixel * C;
            let at: usize = at_pixel * C;
            copy_run(&mut out.data, at, &self.data, from, run);
            assert forall|x: int, y: int, c: int| #[trigger]
                out.holds(x, y, c) && y < r + 1 implies out.sample(x, y, c) == self.sample(
                x + left,
                y + top,
                c,
            ) by {
                assert(prior.holds(x, y, c));
                lemma_offset_in_bounds(width as int, height as int, C as int, x, y, c);
                lemma_run_covers(width as int, C as int, x, y, c, 0, r as int, width as int);
                if y == r {
                    lemma_run_covers(
                        self.width as int,
                        C as int,
                        x + left,
                        top + r,
                        c,
                        left as int,
                        top + r,
                        width as int,
                    );
                }
            }
            r = r + 1;
        }
        Some(out)
    }
}

/// The colours of `src` without its alpha channel.
pub fn drop_alpha(src: &PixelGrid<4>) -> (out: PixelGrid<3>)
    requires
        src.wf(),
    ensures
        out.wf(),
        out.spec_width() == src.spec_width(),
        out.spec_height() == src.spec_height(),
        forall|x: int, y: int, c: int| #[trigger]
            out.holds(x, y, c) ==> out.sample(x, y, c) == src.sample(x, y, c),
{
    let pixels: usize = src.data.len() / 4;
    let mut data: Vec<u8> = Vec::new();
    let mut p: usize = 0;
    while p < pixels
        invariant
            p <= pixels,
            pixels * 4 == src.data@.len(),
            src.data@.len() <= usize::MAX,
            data@.len() == p * 3,
            forall|q: int, c: int|
                0 <= q < p && 0 <= c < 3 ==> data@[#[trigger] sample_index(q, 3, c)]
                    == src.data@[sample_index(q, 4, c)],
        decreases pixels - p,
    {
        data.push(src.data[p * 4]);
        data.push(src.data[p * 4 + 1]);
        data.push(src.data[p * 4 + 2]);
        p = p + 1;
    }
    let out = PixelGrid::<3> { width: src.width, height: src.height, data };
    assert(out.wf());
    assert forall|x: int, y: int, c: int| #[trigger] out.holds(x, y, c) implies out.sample(x, y, c)
        == src.sample(x, y, c) by {
        lemma_offset_in_bounds(src.width as int, src.height as int, 1, x, y, 0);
        let q = y * src.width + x;
        assert(data@[sample_index(q, 3, c)] == src.data@[sample_index(q, 4, c)]);
    }
    out
}

} // verus!
