//! The scale of a slider.
use vstd::prelude::*;

verus! {

/// How a slider maps its position to its value.
#[derive(Clone, Copy, Debug, PartialEq, Eq, Structural)]
pub enum SliderScale {
    /// The value changes evenly along the slider. The default.
    Linear,
    /// The distance between values grows exponentially; the minimum must be positive.
    Logarithmic,
}

impl SliderScale {
    /// Whether the scale is linear.
    pub fn is_linear(&self) -> (r: bool)
        ensures
            r == (*self == SliderScale::Linear),
    {
        match self {
            SliderScale::Linear => true,
            SliderScale::Logarithmic => false,
        }
    }

    /// Whether the scale is logarithmic.
    pub fn is_logarithmic(&self) -> (r: bool)
        ensures
            r == (*self == SliderScale::Logarithmic),
    {
        match self {
            SliderScale::Linear => false,
            SliderScale::Logarithmic => true,
        }
    }
}

impl Default for SliderScale {
    /// The linear scale.
    fn default() -> (r: SliderScale)
        ensures
            r == SliderScale::Linear,
    {
        SliderScale::Linear
    }
}

} // verus!
