//! Application-level value types: the tagged union over the two fractal
//! families and the render request a driver carries around.

use vstd::prelude::*;

verus! {

use crate::params::JuliaParameters;
use crate::params::MandelParameters;

/// Which fractal family a settings value belongs to.
#[derive(Clone, Copy, Debug, PartialEq, Eq, Structural)]
pub enum FractalType {
    /// The Mandelbrot family.
    Mandel,
    /// The Julia family.
    Julia,
}

/// The parameters of a render, tagged by fractal family.
#[derive(Clone, Copy, Debug, PartialEq, Eq, Structural)]
pub enum FractalSettings {
    /// A Mandelbrot render.
    Mandel(MandelParameters),
    /// A Julia render.
    Julia(JuliaParameters),
}

impl FractalSettings {
    /// The family this settings value belongs to.
    pub fn fractal_type(&self) -> (r: FractalType)
        ensures
            r == FractalType::Mandel <==> self is Mandel,
            r == FractalType::Julia <==> self is Julia,
    {
        match self {
            FractalSettings::Mandel(_) => FractalType::Mandel,
            FractalSettings::Julia(_) => FractalType::Julia,
        }
    }
}

/// A render request: the fractal settings together with the output size and
/// the destination the driver writes the exported image to.
#[derive(Clone, Debug)]
pub struct AppData {
    /// The fractal settings of the request.
    pub settings: FractalSettings,
    /// Requested output width in pixels.
    pub output_width: usize,
    /// Requested output height in pixels.
    pub output_height: usize,
    /// File name the exported image is saved under.
    pub filename: String,
    /// Status text the driver shows for the request.
    pub log_text: String,
}

impl MandelParameters {
    /// The Mandelbrot settings of a request, if it is a Mandelbrot request.
    pub fn try_from(val: AppData) -> (r: Result<Self, ()>)
        ensures
            r is Ok <==> val.settings is Mandel,
            val.settings matches FractalSettings::Mandel(p) ==> r == Ok::<Self, ()>(p),
    {
        if let FractalSettings::Mandel(settings) = val.settings {
            Ok(settings)
        } else {
            Err(())
        }
    }
}

impl JuliaParameters {
    /// The Julia settings of a request, if it is a Julia request.
    pub fn try_from(val: AppData) -> (r: Result<Self, ()>)
        ensures
            r is Ok <==> val.settings is Julia,
            val.settings matches FractalSettings::Julia(p) ==> r == Ok::<Self, ()>(p),
    {
        if let FractalSettings::Julia(settings) = val.settings {
            Ok(settings)
        } else {
            Err(())
        }
    }
}

} // verus!
