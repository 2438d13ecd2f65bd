//! Render parameters for the two fractal families.
//!
//! Every real-valued setting (zoom, pan offsets, the Julia constant and the
//! coloring controls) is held as the 64-bit IEEE-754 encoding of its value.
//! The engine's decisions never depend on the numeric value itself, only on
//! whether two settings are the same encoding and whether an encoding is
//! finite, so the bit pattern is the exact model of what the logic reads.
//! Two encodings count as different even when they denote the same number
//! (the two zeros), and each NaN encoding is simply a non-finite pattern.

use vstd::prelude::*;

verus! {

/// IEEE-754 encoding of 0.0.
pub const BITS_ZERO: u64 = 0x0000_0000_0000_0000;

/// IEEE-754 encoding of 1.0.
pub const BITS_ONE: u64 = 0x3FF0_0000_0000_0000;

/// IEEE-754 encoding of 2.0.
pub const BITS_TWO: u64 = 0x4000_0000_0000_0000;

/// IEEE-754 encoding of -2.0.
pub const BITS_NEG_TWO: u64 = 0xC000_0000_0000_0000;

/// IEEE-754 encoding of -0.5.
pub const BITS_NEG_HALF: u64 = 0xBFE0_0000_0000_0000;

/// IEEE-754 encoding of 0.15.
pub const BITS_POINT_15: u64 = 0x3FC3_3333_3333_3333;

/// IEEE-754 encoding of -0.6.
pub const BITS_NEG_POINT_6: u64 = 0xBFE3_3333_3333_3333;

/// A 64-bit IEEE-754 pattern encodes a finite number exactly when its
/// exponent field is not all ones (all ones encodes an infinity or a NaN).
pub open spec fn spec_bits_finite(bits: u64) -> bool {
    (bits >> 52) & 0x7ff != 0x7ff
}

/// Whether `bits` encodes a finite double.
pub fn bits_finite(bits: u64) -> (r: bool)
    ensures
        r == spec_bits_finite(bits),
{
    (bits >> 52) & 0x7ff != 0x7ff
}

/// The encodings used by the default parameter values are all finite.
pub proof fn lemma_default_bits_finite()
    ensures
        spec_bits_finite(BITS_ZERO),
        spec_bits_finite(BITS_ONE),
        spec_bits_finite(BITS_TWO),
        spec_bits_finite(BITS_NEG_TWO),
        spec_bits_finite(BITS_NEG_HALF),
        spec_bits_finite(BITS_POINT_15),
        spec_bits_finite(BITS_NEG_POINT_6),
{
    assert((0x0000_0000_0000_0000u64 >> 52) & 0x7ff != 0x7ff) by (bit_vector);
    assert((0x3FF0_0000_0000_0000u64 >> 52) & 0x7ff != 0x7ff) by (bit_vector);
    assert((0x4000_0000_0000_0000u64 >> 52) & 0x7ff != 0x7ff) by (bit_vector);
    assert((0xC000_0000_0000_0000u64 >> 52) & 0x7ff != 0x7ff) by (bit_vector);
    assert((0xBFE0_0000_0000_0000u64 >> 52) & 0x7ff != 0x7ff) by (bit_vector);
    assert((0x3FC3_3333_3333_3333u64 >> 52) & 0x7ff != 0x7ff) by (bit_vector);
    assert((0xBFE3_3333_3333_3333u64 >> 52) & 0x7ff != 0x7ff) by (bit_vector);
}

/// Why a parameter value was rejected.
#[derive(Clone, Copy, Debug, PartialEq, Eq, Structural)]
pub enum ParamError {
    /// The iteration cap is zero, which leaves the escape loop undefined.
    ZeroIterations,
    /// A real-valued setting is an infinity or a NaN.
    NonFinite,
}

/// Parameters of a Mandelbrot render. Real-valued fields hold the IEEE-754
/// encoding of their value.
#[derive(Clone, Copy, Debug, PartialEq, Eq, Structural)]
pub struct MandelParameters {
    /// Upper bound on the escape-time iteration count.
    pub max_iter: usize,
    /// Log2 scale factor of the view.
    pub zoom: u64,
    /// Horizontal pan in the complex plane.
    pub offset_x: u64,
    /// Vertical pan in the complex plane.
    pub offset_y: u64,
    /// Base color saturation.
    pub saturation: u64,
    /// Frequency of the hue oscillation over the smoothed step count.
    pub color_frequency: u64,
    /// Phase offset of the hue oscillation.
    pub color_offset: u64,
    /// Additive widening of the distance-estimate glow.
    pub glow_spread: u64,
    /// Multiplicative strength of the glow.
    pub glow_strength: u64,
    /// Overall brightness factor.
    pub brightness: u64,
    /// Extra brightness factor for interior (non-escaping) points.
    pub internal_brightness: u64,
}

impl MandelParameters {
    /// All real-valued settings are finite and the iteration cap is positive.
    pub open spec fn wf(&self) -> bool {
        &&& self.max_iter >= 1
        &&& spec_bits_finite(self.zoom)
        &&& spec_bits_finite(self.offset_x)
        &&& spec_bits_finite(self.offset_y)
        &&& spec_bits_finite(self.saturation)
        &&& spec_bits_finite(self.color_frequency)
        &&& spec_bits_finite(self.color_offset)
        &&& spec_bits_finite(self.glow_spread)
        &&& spec_bits_finite(self.glow_strength)
        &&& spec_bits_finite(self.brightness)
        &&& spec_bits_finite(self.internal_brightness)
    }

    /// Rejects a zero iteration cap, then any non-finite setting; accepts
    /// exactly the well-formed values.
    pub fn validate(&self) -> (r: Result<(), ParamError>)
        ensures
            r is Ok <==> self.wf(),
            self.max_iter == 0 ==> r == Err::<(), ParamError>(ParamError::ZeroIterations),
            self.max_iter >= 1 && !self.wf() ==> r == Err::<(), ParamError>(
                ParamError::NonFinite,
            ),
    {
        if self.max_iter == 0 {
            return Err(ParamError::ZeroIterations);
        }
        if bits_finite(self.zoom) && bits_finite(self.offset_x) && bits_finite(self.offset_y)
            && bits_finite(self.saturation) && bits_finite(self.color_frequency) && bits_finite(
            self.color_offset,
        ) && bits_finite(self.glow_spread) && bits_finite(self.glow_strength) && bits_finite(
            self.brightness,
        ) && bits_finite(self.internal_brightness) {
            Ok(())
        } else {
            Err(ParamError::NonFinite)
        }
    }

    /// A change between two parameter values forces the escape-time iteration
    /// to run again exactly when a generation field differs; coloring fields
    /// alone only require re-shading.
    pub fn needs_recompute(settings: &Self, old_settings: &Self) -> (r: bool)
        ensures
            r == (settings.max_iter != old_settings.max_iter || settings.zoom
                != old_settings.zoom || settings.offset_y != old_settings.offset_y
                || settings.offset_x != old_settings.offset_x),
    {
        settings.max_iter != old_settings.max_iter || settings.zoom != old_settings.zoom
            || settings.offset_y != old_settings.offset_y || settings.offset_x
            != old_settings.offset_x
    }
}

impl Default for MandelParameters {
    /// The documented default view: 250 iterations, zoom -2.0, centered on
    /// the main cardioid, neutral coloring.
    fn default() -> (r: Self)
        ensures
            r == (MandelParameters {
                max_iter: 250,
                zoom: BITS_NEG_TWO,
                offset_x: BITS_NEG_HALF,
                offset_y: BITS_ZERO,
                saturation: BITS_ONE,
                color_frequency: BITS_ONE,
                color_offset: BITS_ZERO,
                glow_spread: BITS_ONE,
                glow_strength: BITS_ONE,
                brightness: BITS_TWO,
                internal_brightness: BITS_ONE,
            }),
            r.wf(),
    {
        proof {
            lemma_default_bits_finite();
        }
        MandelParameters {
            max_iter: 250,
            zoom: BITS_NEG_TWO,
            offset_x: BITS_NEG_HALF,
            offset_y: BITS_ZERO,
            saturation: BITS_ONE,
            color_frequency: BITS_ONE,
            color_offset: BITS_ZERO,
            glow_spread: BITS_ONE,
            glow_strength: BITS_ONE,
            brightness: BITS_TWO,
            internal_brightness: BITS_ONE,
        }
    }
}

/// Parameters of a Julia render: the Mandelbrot fields plus the fixed Julia
/// constant. Real-valued fields hold the IEEE-754 encoding of their value.
#[derive(Clone, Copy, Debug, PartialEq, Eq, Structural)]
pub struct JuliaParameters {
    /// Upper bound on the escape-time iteration count.
    pub max_iter: usize,
    /// Log2 scale factor of the view.
    pub zoom: u64,
    /// Horizontal pan in the complex plane.
    pub offset_x: u64,
    /// Vertical pan in the complex plane.
    pub offset_y: u64,
    /// Real part of the fixed Julia constant.
    pub constant_real: u64,
    /// Imaginary part of the fixed Julia constant.
    pub constant_imag: u64,
    /// Base color saturation.
    pub saturation: u64,
    /// Frequency of the hue oscillation over the smoothed step count.
    pub color_frequency: u64,
    /// Phase offset of the hue oscillation.
    pub color_offset: u64,
    /// Additive widening of the distance-estimate glow.
    pub glow_spread: u64,
    /// Multiplicative strength of the glow.
    pub glow_strength: u64,
    /// Overall brightness factor.
    pub brightness: u64,
    /// Extra brightness factor for interior (non-escaping) points.
    pub internal_brightness: u64,
}

impl JuliaParameters {
    /// All real-valued settings are finite and the iteration cap is positive.
    pub open spec fn wf(&self) -> bool {
        &&& self.max_iter >= 1
        &&& spec_bits_finite(self.zoom)
        &&& spec_bits_finite(self.offset_x)
        &&& spec_bits_finite(self.offset_y)
        &&& spec_bits_finite(self.constant_real)
        &&& spec_bits_finite(self.constant_imag)
        &&& spec_bits_finite(self.saturation)
        &&& spec_bits_finite(self.color_frequency)
        &&& spec_bits_finite(self.color_offset)
        &&& spec_bits_finite(self.glow_spread)
        &&& spec_bits_finite(self.glow_strength)
        &&& spec_bits_finite(self.brightness)
        &&& spec_bits_finite(self.internal_brightness)
    }

    /// Rejects a zero iteration cap, then any non-finite setting; accepts
    /// exactly the well-formed values.
    pub fn validate(&self) -> (r: Result<(), ParamError>)
        ensures
            r is Ok <==> self.wf(),
            self.max_iter == 0 ==> r == Err::<(), ParamError>(ParamError::ZeroIterations),
            self.max_iter >= 1 && !self.wf() ==> r == Err::<(), ParamError>(
                ParamError::NonFinite,
            ),
    {
        if self.max_iter == 0 {
            return Err(ParamError::ZeroIterations);
        }
        if bits_finite(self.zoom) && bits_finite(self.offset_x) && bits_finite(self.offset_y)
            && bits_finite(self.constant_real) && bits_finite(self.constant_imag) && bits_finite(
            self.saturation,
        ) && bits_finite(self.color_frequency) && bits_finite(self.color_offset) && bits_finite(
            self.glow_spread,
        ) && bits_finite(self.glow_strength) && bits_finite(self.brightness) && bits_finite(
            self.internal_brightness,
        ) {
            Ok(())
        } else {
            Err(ParamError::NonFinite)
        }
    }

    /// A change between two parameter values forces the escape-time iteration
    /// to run again exactly when a generation field differs, the Julia
    /// constant included; coloring fields alone only require re-shading.
    pub fn needs_recompute(settings: &Self, old_settings: &Self) -> (r: bool)
        ensures
            r == (settings.max_iter != old_settings.max_iter || settings.zoom
                != old_settings.zoom || settings.offset_y != old_settings.offset_y
                || settings.offset_x != old_settings.offset_x || settings.constant_real
                != old_settings.constant_real || settings.constant_imag
                != old_settings.constant_imag),
    {
        settings.max_iter != old_settings.max_iter || settings.zoom != old_settings.zoom
            || settings.offset_y != old_settings.offset_y || settings.offset_x
            != old_settings.offset_x || settings.constant_real != old_settings.constant_real
            || settings.constant_imag != old_settings.constant_imag
    }
}

impl Default for JuliaParameters {
    /// The documented default view: 250 iterations, zoom -2.0, centered at
    /// the origin, the classic constant 0.15 - 0.6i, neutral coloring.
    fn default() -> (r: Self)
        ensures
            r == (JuliaParameters {
                max_iter: 250,
                zoom: BITS_NEG_TWO,
                offset_x: BITS_ZERO,
                offset_y: BITS_ZERO,
                constant_real: BITS_POINT_15,
                constant_imag: BITS_NEG_POINT_6,
                saturation: BITS_ONE,
                color_frequency: BITS_ONE,
                color_offset: BITS_ZERO,
                glow_spread: BITS_ONE,
                glow_strength: BITS_ONE,
                brightness: BITS_TWO,
                internal_brightness: BITS_ONE,
            }),
            r.wf(),
    {
        proof {
            lemma_default_bits_finite();
        }
        JuliaParameters {
            max_iter: 250,
            zoom: BITS_NEG_TWO,
            offset_x: BITS_ZERO,
            offset_y: BITS_ZERO,
            constant_real: BITS_POINT_15,
            constant_imag: BITS_NEG_POINT_6,
            saturation: BITS_ONE,
            color_frequency: BITS_ONE,
            color_offset: BITS_ZERO,
            glow_spread: BITS_ONE,
            glow_strength: BITS_ONE,
            brightness: BITS_TWO,
            internal_brightness: BITS_ONE,
        }
    }
}

} // verus!
