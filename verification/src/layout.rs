//! Pixel-buffer layout: lane padding of the row width, buffer sizing, and
//! the byte offset of a pixel batch within the row-major RGB buffer.

use vstd::prelude::*;

verus! {

use vstd::arithmetic::div_mod::lemma_fundamental_div_mod;
use vstd::arithmetic::mul::lemma_mul_inequality;

/// The row width actually allocated for a requested width: the next multiple
/// of the lane count strictly above `width`, so every row splits into whole
/// batches of `LANES` pixels.
pub open spec fn spec_padded_width(width: int) -> int {
    width + (4 - width % 4)
}

/// Ceiling division, used to size the downscaled buffers of the progressive
/// preview passes.
pub open spec fn spec_ceil_div(a: int, b: int) -> int {
    if a % b == 0 {
        a / b
    } else {
        a / b + 1
    }
}

/// Rounds `width` up to the next multiple of the lane count strictly above it.
pub fn padded_width(width: usize) -> (r: usize)
    requires
        width + 4 <= usize::MAX,
    ensures
        r == spec_padded_width(width as int),
        r % 4 == 0,
        width < r <= width + 4,
{
    width + (4 - width % 4)
}

/// Ceiling division: the number of size-`divisor` chunks needed to hold
/// `value` items.
pub fn ceil_div(value: usize, divisor: usize) -> (r: usize)
    requires
        divisor >= 1,
    ensures
        r == spec_ceil_div(value as int, divisor as int),
        r <= value,
{
    let q: usize = value / divisor;
    if value % divisor == 0 {
        q
    } else {
        proof {
            lemma_fundamental_div_mod(value as int, divisor as int);
            // A nonzero remainder rules out divisor 1, so q is at most half
            // of value and q + 1 cannot overflow.
            lemma_mul_inequality(2, divisor as int, q as int);
        }
        q + 1
    }
}

/// Byte offset of the pixel at column `i`, row `j` in a row-major RGB buffer
/// whose rows are `width_padded` pixels wide.
pub open spec fn spec_pixel_byte_offset(width_padded: int, i: int, j: int) -> int {
    (j * width_padded + i) * 3
}

/// Byte offset of pixel `(i, j)` in the buffer; the three bytes of that pixel
/// lie inside row `j`'s byte range.
pub fn pixel_byte_offset(width_padded: usize, i: usize, j: usize) -> (r: usize)
    requires
        i < width_padded,
        (j + 1) * width_padded * 3 <= usize::MAX,
    ensures
        r == spec_pixel_byte_offset(width_padded as int, i as int, j as int),
        j * width_padded * 3 <= r,
        r + 3 <= (j + 1) * width_padded * 3,
{
    proof {
        let wp = width_padded as int;
        let ji = j as int;
        let ii = i as int;
        lemma_mul_inequality(ji * wp, ji * wp + ii, 3);
        lemma_mul_inequality(ii + 1, wp, 3);
        vstd::arithmetic::mul::lemma_mul_is_distributive_add_other_way(wp, ji, 1);
        vstd::arithmetic::mul::lemma_mul_basics(wp);
        vstd::arithmetic::mul::lemma_mul_is_distributive_add_other_way(3, ji * wp, ii);
        vstd::arithmetic::mul::lemma_mul_is_distributive_add_other_way(3, ji * wp, wp);
        vstd::arithmetic::mul::lemma_mul_is_distributive_add_other_way(3, ii, 1);
    }
    (j * width_padded + i) * 3
}

} // verus!
