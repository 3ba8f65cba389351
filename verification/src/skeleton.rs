//! The skeleton: a pulsing placeholder shown while content loads.
use vstd::prelude::*;
use crate::theme::{ColorOp, ColorRecipe, RecipeView, ThemeToken, token, with_op};

verus! {

/// A loading placeholder.
#[derive(Clone, Copy, Debug, PartialEq, Eq, Structural)]
pub struct Skeleton {
    /// Whether the fainter secondary color is used.
    pub secondary: bool,
}

/// The pulse of the placeholder lasts this long, in milliseconds.
pub const SKELETON_PULSE_MS: u64 = 2000;

impl Skeleton {
    /// A placeholder in the primary skeleton color.
    pub fn new() -> (r: Skeleton)
        ensures
            !r.secondary,
    {
        Skeleton { secondary: false }
    }

    /// Uses the secondary color.
    pub fn secondary(self) -> (r: Skeleton)
        ensures
            r.secondary,
    {
        Skeleton { secondary: true }
    }

    /// The fill: the theme's skeleton color, at half opacity for the secondary one.
    pub fn fill(&self) -> (r: ColorRecipe)
        ensures
            r@ == (if self.secondary {
                with_op(token(ThemeToken::Skeleton), ColorOp::Opacity(50))
            } else {
                token(ThemeToken::Skeleton)
            }),
    {
        if self.secondary {
            ColorRecipe::token(ThemeToken::Skeleton).with_op(ColorOp::Opacity(50))
        } else {
            ColorRecipe::token(ThemeToken::Skeleton)
        }
    }
}

impl Default for Skeleton {
    /// A skeleton in the primary color, as `Skeleton::new` gives.
    fn default() -> (r: Skeleton)
        ensures
            !r.secondary,
    {
        Skeleton::new()
    }
}

} // verus!
