//! The progressive image generator: the shared pixel buffer, the downscale
//! pass schedule, and the published-image slot.
//!
//! A render runs a sequence of passes at scales 16, 8, 4, 2, 1. Each pass
//! draws into a zeroed buffer sized for its scale; when a finer pass begins,
//! the completed buffer is published so a reader always has a whole (if
//! coarse) image while the next one computes. Workers fill the in-progress
//! buffer row by row; a cancelled render stops between passes and keeps the
//! last published image.

use vstd::prelude::*;

verus! {

use crate::Pixel;
use crate::PixelCoord;
use crate::layout::ceil_div;
use crate::layout::padded_width;
use crate::layout::spec_ceil_div;
use crate::layout::spec_padded_width;
use vstd::arithmetic::mul::lemma_mul_inequality;
use vstd::arithmetic::mul::lemma_mul_is_distributive_add_other_way;
use vstd::arithmetic::mul::lemma_mul_upper_bound;

/// The capability a fractal family gives the generator: map a batch of four
/// horizontally adjacent pixels to iteration results, shade those results to
/// RGB, and tell whether a parameter change invalidates the iteration (as
/// opposed to the shading alone). Implementations carry the numeric kernel,
/// which runs in double precision outside this crate.
pub trait GeneratorParameters: Clone + Send + 'static {
    /// Per-lane iteration results handed from the iteration to the shader.
    type Intermediate;

    /// Computes the iteration results for the four pixels starting at
    /// `location` in an image of the given current dimensions.
    fn calc_pixel_row(&self, width: usize, height: usize, location: PixelCoord) -> [
        Self::Intermediate; 4];

    /// Shades a batch of iteration results to four RGB pixels.
    fn shade_pixel_row(&self, parameters: [Self::Intermediate; 4]) -> [Pixel; 4];

    /// Whether going from `old_settings` to `settings` forces the iteration
    /// to run again.
    fn needs_recompute(settings: &Self, old_settings: &Self) -> bool;
}

/// A published image: the pixel bytes of the last completed pass together
/// with the dimensions they were rendered at.
pub struct ImageRef {
    /// Raw RGB bytes, row-major, rows padded to the lane width.
    pub data: Vec<u8>,
    /// Padded width of the published image in pixels.
    pub width: usize,
    /// Height of the published image in pixels.
    pub height: usize,
}

impl ImageRef {
    /// A published image is consistent: one byte triple per published pixel,
    /// which is what any consumer blitting or encoding the buffer relies on.
    pub open spec fn wf(&self) -> bool {
        self.data@.len() == self.width * self.height * 3
    }
}

/// Padded row width of the pass that renders at `1/scale` of `width`.
pub open spec fn spec_current_width(width: int, scale: int) -> int {
    spec_padded_width(spec_ceil_div(width, scale))
}

/// Height of the pass that renders at `1/scale` of `height`.
pub open spec fn spec_current_height(height: int, scale: int) -> int {
    spec_ceil_div(height, scale)
}

/// The progressive render state: requested dimensions, the scale of the pass
/// being drawn, the in-progress buffer with its dimensions, and the last
/// published image.
pub struct ImageGenerator {
    /// In-progress pixel buffer of the current pass, row-major RGB.
    pub pixels: Vec<u8>,
    /// Requested image width in pixels.
    pub width: usize,
    /// Requested image height in pixels.
    pub height: usize,
    /// Downscale factor of the current pass: 16, 8, 4, 2 or 1.
    pub scale: usize,
    /// Padded width of the current pass in pixels.
    pub current_width: usize,
    /// Height of the current pass in pixels.
    pub current_height: usize,
    /// The last completed, published image.
    pub image_ref: ImageRef,
}

impl ImageGenerator {
    /// The generator's invariant: the scale is one of the five pass scales,
    /// the current dimensions are those determined by the requested size and
    /// the scale, the buffer is exactly one byte triple per current pixel,
    /// and even the finest pass fits in memory.
    pub open spec fn wf(&self) -> bool {
        &&& (self.scale == 1 || self.scale == 2 || self.scale == 4 || self.scale == 8
            || self.scale == 16)
        &&& self.width + 4 <= usize::MAX
        &&& (self.width + 4) * self.height * 3 <= usize::MAX
        &&& self.current_width == spec_current_width(self.width as int, self.scale as int)
        &&& self.current_height == spec_current_height(self.height as int, self.scale as int)
        &&& self.pixels@.len() == self.current_width * self.current_height * 3
        &&& self.image_ref.wf()
    }

    /// A fresh generator for the requested size: the coarsest pass (scale 16)
    /// is set up with a zeroed buffer, and the published slot holds an empty
    /// zero-by-zero image.
    pub fn new(width: usize, height: usize) -> (r: Self)
        requires
            width + 4 <= usize::MAX,
            (width + 4) * height * 3 <= usize::MAX,
        ensures
            r.wf(),
            r.width == width,
            r.height == height,
            r.scale == 16,
            r.image_ref.data@.len() == 0,
            r.image_ref.width == 0,
            r.image_ref.height == 0,
            forall|k: int| 0 <= k < r.pixels@.len() ==> r.pixels@[k] == 0,
    {
        let mut new_ig = ImageGenerator {
            pixels: Vec::new(),
            width,
            height,
            scale: 16,
            current_width: 0,
            current_height: 0,
            image_ref: ImageRef { data: Vec::new(), width: 0, height: 0 },
        };
        new_ig.swap_pixel_buf();
        new_ig
    }

    /// Publishes the in-progress buffer (with the dimensions it was drawn
    /// at) into the image slot and starts a zeroed buffer sized for the
    /// current scale.
    pub fn swap_pixel_buf(&mut self)
        requires
            old(self).scale >= 1,
            old(self).width + 4 <= usize::MAX,
            (old(self).width + 4) * old(self).height * 3 <= usize::MAX,
            old(self).pixels@.len() == old(self).current_width * old(self).current_height * 3,
        ensures
            final(self).image_ref.wf(),
            final(self).width == old(self).width,
            final(self).height == old(self).height,
            final(self).scale == old(self).scale,
            final(self).image_ref.data@ == old(self).pixels@,
            final(self).image_ref.width == old(self).current_width,
            final(self).image_ref.height == old(self).current_height,
            final(self).current_width == spec_current_width(
                old(self).width as int,
                old(self).scale as int,
            ),
            final(self).current_height == spec_current_height(
                old(self).height as int,
                old(self).scale as int,
            ),
            final(self).pixels@.len() == final(self).current_width * final(self).current_height
                * 3,
            forall|k: int| 0 <= k < final(self).pixels@.len() ==> final(self).pixels@[k] == 0,
    {
        let cw = padded_width(ceil_div(self.width, self.scale));
        let ch = ceil_div(self.height, self.scale);
        proof {
            lemma_pass_buffer_fits(
                self.width as int,
                self.height as int,
                self.scale as int,
            );
        }
        let len: usize = cw * ch * 3;
        let mut fresh = zeroed_buffer(len);
        core::mem::swap(&mut self.pixels, &mut fresh);
        self.image_ref.data = fresh;
        self.image_ref.width = self.current_width;
        self.image_ref.height = self.current_height;
        self.current_width = cw;
        self.current_height = ch;
    }

    /// Closes the pass that just rendered. If the render goes on (the pass
    /// was not the finest and no cancellation was seen), halves the scale and
    /// swaps in a fresh buffer, publishing the completed pass; otherwise
    /// leaves the generator untouched.
    pub fn finish_pass(&mut self, canceled: bool) -> (more: bool)
        requires
            old(self).wf(),
        ensures
            final(self).wf(),
            more == (old(self).scale > 1 && !canceled),
            !more ==> *final(self) == *old(self),
            more ==> final(self).scale == old(self).scale / 2,
            more ==> final(self).width == old(self).width,
            more ==> final(self).height == old(self).height,
            more ==> final(self).image_ref.data@ == old(self).pixels@
                && final(self).image_ref.width == old(self).current_width
                && final(self).image_ref.height == old(self).current_height,
            more ==> forall|k: int|
                0 <= k < final(self).pixels@.len() ==> final(self).pixels@[k] == 0,
    {
        if self.scale > 1 && !canceled {
            self.scale = self.scale / 2;
            self.swap_pixel_buf();
            true
        } else {
            false
        }
    }

    /// Closes the whole render. Unless a cancellation cut the render short
    /// of even its first pass's publication point, the in-progress buffer is
    /// copied into the published slot with the dimensions it was drawn at.
    pub fn finish_compute(&mut self, canceled: bool)
        requires
            old(self).wf(),
        ensures
            final(self).wf(),
            final(self).pixels == old(self).pixels,
            final(self).width == old(self).width,
            final(self).height == old(self).height,
            final(self).scale == old(self).scale,
            final(self).current_width == old(self).current_width,
            final(self).current_height == old(self).current_height,
            old(self).scale == 16 || !canceled ==> final(self).image_ref.data@
                == old(self).pixels@ && final(self).image_ref.width == old(self).current_width
                && final(self).image_ref.height == old(self).current_height,
            !(old(self).scale == 16 || !canceled) ==> final(self).image_ref
                == old(self).image_ref,
    {
        if self.scale == 16 || !canceled {
            let published = clone_bytes(&self.pixels);
            self.image_ref.data = published;
            self.image_ref.width = self.current_width;
            self.image_ref.height = self.current_height;
        }
    }

    /// Writes the four-pixel batch starting at pixel index `x` of the
    /// in-progress buffer: exactly the twelve bytes of the batch change, to
    /// the given channel values.
    pub fn write_pixel(&mut self, x: usize, pixel: [Pixel; 4])
        requires
            old(self).wf(),
            x + 4 <= old(self).current_width * old(self).current_height,
        ensures
            final(self).wf(),
            final(self).width == old(self).width,
            final(self).height == old(self).height,
            final(self).scale == old(self).scale,
            final(self).current_width == old(self).current_width,
            final(self).current_height == old(self).current_height,
            final(self).image_ref == old(self).image_ref,
            final(self).pixels@.len() == old(self).pixels@.len(),
            forall|k: int|
                0 <= k < old(self).pixels@.len() && !(3 * x <= k < 3 * x + 12)
                    ==> final(self).pixels@[k] == old(self).pixels@[k],
            forall|l: int, b: int|
                0 <= l < 4 && 0 <= b < 3 ==> final(self).pixels@[3 * x + 3 * l + b] == pixel[l][b],
    {
        proof {
            lemma_pass_buffer_fits(
                self.width as int,
                self.height as int,
                self.scale as int,
            );
            lemma_mul_inequality(
                x as int + 4,
                old(self).current_width as int * old(self).current_height as int,
                3,
            );
        }
        let base: usize = x * 3;
        self.pixels.set(base, pixel[0][0]);
        self.pixels.set(base + 1, pixel[0][1]);
        self.pixels.set(base + 2, pixel[0][2]);
        self.pixels.set(base + 3, pixel[1][0]);
        self.pixels.set(base + 4, pixel[1][1]);
        self.pixels.set(base + 5, pixel[1][2]);
        self.pixels.set(base + 6, pixel[2][0]);
        self.pixels.set(base + 7, pixel[2][1]);
        self.pixels.set(base + 8, pixel[2][2]);
        self.pixels.set(base + 9, pixel[3][0]);
        self.pixels.set(base + 10, pixel[3][1]);
        self.pixels.set(base + 11, pixel[3][2]);
    }

    /// Writes one computed row into the in-progress buffer: exactly row `j`'s
    /// bytes change, to the given row contents.
    pub fn write_row(&mut self, j: usize, row: &Vec<u8>)
        requires
            old(self).wf(),
            j < old(self).current_height,
            row@.len() == old(self).current_width * 3,
        ensures
            final(self).wf(),
            final(self).width == old(self).width,
            final(self).height == old(self).height,
            final(self).scale == old(self).scale,
            final(self).current_width == old(self).current_width,
            final(self).current_height == old(self).current_height,
            final(self).image_ref == old(self).image_ref,
            final(self).pixels@.len() == old(self).pixels@.len(),
            forall|k: int|
                0 <= k < old(self).pixels@.len() && !(j * old(self).current_width * 3 <= k < (j
                    + 1) * old(self).current_width * 3) ==> final(self).pixels@[k] == old(
                    self,
                ).pixels@[k],
            forall|k: int|
                0 <= k < row@.len() ==> final(self).pixels@[j * old(self).current_width * 3 + k]
                    == row@[k],
    {
        proof {
            lemma_pass_buffer_fits(
                self.width as int,
                self.height as int,
                self.scale as int,
            );
            lemma_row_in_buffer(
                self.current_width as int,
                self.current_height as int,
                j as int,
            );
        }
        let base: usize = j * self.current_width * 3;
        let mut b: usize = 0;
        while b < row.len()
            invariant
                b <= row@.len(),
                base == j * old(self).current_width * 3,
                base + row@.len() <= self.pixels@.len(),
                base + row@.len() <= usize::MAX,
                self.pixels@.len() == old(self).pixels@.len(),
                row@.len() == old(self).current_width * 3,
                self.width == old(self).width,
                self.height == old(self).height,
                self.scale == old(self).scale,
                self.current_width == old(self).current_width,
                self.current_height == old(self).current_height,
                self.image_ref == old(self).image_ref,
                forall|k: int|
                    0 <= k < old(self).pixels@.len() && !(base <= k < base + b) ==> self.pixels@[k]
                        == old(self).pixels@[k],
                forall|k: int| 0 <= k < b ==> self.pixels@[base + k] == row@[k],
            decreases row@.len() - b,
        {
            self.pixels.set(base + b, row[b]);
            b = b + 1;
        }
        proof {
            assert((j + 1) * old(self).current_width * 3 == base + row@.len()) by {
                lemma_mul_is_distributive_add_other_way(
                    old(self).current_width as int,
                    j as int,
                    1,
                );
                vstd::arithmetic::mul::lemma_mul_basics(old(self).current_width as int);
                lemma_mul_is_distributive_add_other_way(
                    3,
                    j as int * old(self).current_width as int,
                    old(self).current_width as int,
                );
            }
        }
    }

    /// The in-progress pixel buffer of the current pass.
    pub fn image_data(&self) -> (r: &Vec<u8>)
        ensures
            r == &self.pixels,
    {
        &self.pixels
    }

    /// The last published image.
    pub fn image_ref(&self) -> (r: &ImageRef)
        ensures
            r == &self.image_ref,
    {
        &self.image_ref
    }
}

/// Row `j`'s bytes lie inside the pixel buffer: the byte range
/// `[j * width * 3, (j + 1) * width * 3)` sits below `width * height * 3`.
proof fn lemma_row_in_buffer(width: int, height: int, j: int)
    requires
        width >= 0,
        0 <= j < height,
    ensures
        0 <= j * width * 3,
        j * width * 3 + width * 3 <= width * height * 3,
{
    lemma_mul_inequality(j + 1, height, width);
    vstd::arithmetic::mul::lemma_mul_is_commutative(height, width);
    lemma_mul_is_distributive_add_other_way(width, j, 1);
    vstd::arithmetic::mul::lemma_mul_basics(width);
    lemma_mul_inequality(j * width + width, width * height, 3);
    lemma_mul_is_distributive_add_other_way(3, j * width, width);
    vstd::arithmetic::mul::lemma_mul_nonnegative(j, width);
}

/// Buffers of every pass fit in memory: the padded width of a downscaled
/// pass never exceeds the requested width plus the lane padding, and the
/// downscaled height never exceeds the requested height.
proof fn lemma_pass_buffer_fits(width: int, height: int, scale: int)
    requires
        width >= 0,
        height >= 0,
        scale >= 1,
    ensures
        spec_current_width(width, scale) <= width + 4,
        spec_current_height(height, scale) <= height,
        spec_current_width(width, scale) * spec_current_height(height, scale) * 3 <= (width + 4)
            * height * 3,
{
    let cw0 = spec_ceil_div(width, scale);
    vstd::arithmetic::div_mod::lemma_mod_bound(width, scale);
    vstd::arithmetic::div_mod::lemma_div_pos_is_pos(width, scale);
    if width % scale == 0 {
        vstd::arithmetic::div_mod::lemma_fundamental_div_mod(width, scale);
        lemma_mul_inequality(1, scale, width / scale);
        vstd::arithmetic::mul::lemma_mul_is_commutative(scale, width / scale);
    } else {
        // A nonzero remainder rules out scale 1, so the quotient is at most
        // half of width and the ceiling stays at or below width.
        vstd::arithmetic::div_mod::lemma_fundamental_div_mod(width, scale);
        lemma_mul_inequality(2, scale, width / scale);
        vstd::arithmetic::mul::lemma_mul_is_commutative(scale, width / scale);
    }
    assert(cw0 <= width);
    let ch = spec_current_height(height, scale);
    vstd::arithmetic::div_mod::lemma_mod_bound(height, scale);
    vstd::arithmetic::div_mod::lemma_div_pos_is_pos(height, scale);
    if height % scale == 0 {
        vstd::arithmetic::div_mod::lemma_fundamental_div_mod(height, scale);
        lemma_mul_inequality(1, scale, height / scale);
        vstd::arithmetic::mul::lemma_mul_is_commutative(scale, height / scale);
    } else {
        vstd::arithmetic::div_mod::lemma_fundamental_div_mod(height, scale);
        lemma_mul_inequality(2, scale, height / scale);
        vstd::arithmetic::mul::lemma_mul_is_commutative(scale, height / scale);
    }
    assert(ch <= height);
    let cw = spec_current_width(width, scale);
    assert(cw <= width + 4);
    lemma_mul_upper_bound(cw, width + 4, ch, height);
    lemma_mul_inequality(cw * ch, (width + 4) * height, 3);
}

/// Computes one row of a pass: walks the row in batches of four pixels,
/// runs the kernel on each batch and packs the shaded pixels into the row's
/// bytes, left to right. The result is exactly the row's slice of the pixel
/// buffer, three bytes per pixel.
pub fn compute_row<D: GeneratorParameters>(
    settings: &D,
    width: usize,
    height: usize,
    j: usize,
) -> (r: Vec<u8>)
    requires
        width % 4 == 0,
        width + 4 <= usize::MAX,
        width * 3 <= usize::MAX,
    ensures
        r@.len() == width * 3,
{
    let mut row: Vec<u8> = Vec::new();
    let mut i: usize = 0;
    while i + 4 <= width
        invariant
            width % 4 == 0,
            width + 4 <= usize::MAX,
            width * 3 <= usize::MAX,
            i % 4 == 0,
            i <= width,
            row@.len() == i * 3,
        decreases width - i,
    {
        let intermediate = settings.calc_pixel_row(width, height, (i, j));
        let pixels = settings.shade_pixel_row(intermediate);
        let mut lane: usize = 0;
        while lane < 4
            invariant
                lane <= 4,
                i + 4 <= width,
                width * 3 <= usize::MAX,
                row@.len() == i * 3 + lane * 3,
            decreases 4 - lane,
        {
            row.push(pixels[lane][0]);
            row.push(pixels[lane][1]);
            row.push(pixels[lane][2]);
            lane = lane + 1;
        }
        i = i + 4;
    }
    // The row width is a whole number of batches, so the loop stops exactly
    // at the row's end.
    assert(i == width);
    row
}

/// A zero-filled byte buffer of the given length.
fn zeroed_buffer(len: usize) -> (r: Vec<u8>)
    ensures
        r@.len() == len,
        forall|k: int| 0 <= k < len ==> r@[k] == 0,
{
    let mut buf: Vec<u8> = Vec::new();
    let mut n: usize = 0;
    while n < len
        invariant
            n <= len,
            buf@.len() == n,
            forall|k: int| 0 <= k < n ==> buf@[k] == 0,
        decreases len - n,
    {
        buf.push(0);
        n = n + 1;
    }
    buf
}

/// A byte-for-byte copy of a buffer.
fn clone_bytes(bytes: &Vec<u8>) -> (r: Vec<u8>)
    ensures
        r@ == bytes@,
{
    let r = bytes.clone();
    proof {
        assert(r@ =~= bytes@);
    }
    r
}

} // verus!
