//! Separators: a vertical or horizontal rule, solid or dashed, with an
//! optional label.
use vstd::prelude::*;
use crate::element::Hsla;
use crate::geometry::Axis;
use crate::theme::{ColorRecipe, ColorSource, RecipeView, ThemeToken};

verus! {

/// How a separator's line is drawn.
#[derive(Clone, Copy, Debug, PartialEq, Eq, Structural)]
pub enum SeparatorStyle {
    /// A solid line; the default.
    Solid,
    /// A dashed line.
    Dashed,
}

impl Default for SeparatorStyle {
    fn default() -> (r: SeparatorStyle)
        ensures
            r == SeparatorStyle::Solid,
    {
        SeparatorStyle::Solid
    }
}

/// A separator.
#[derive(Clone, Debug)]
pub struct Separator {
    /// The text shown over the middle of the line.
    pub label: Option<String>,
    /// The direction of the line.
    pub axis: Axis,
    /// The line color, else the theme's border color.
    pub color: Option<Hsla>,
    pub line_style: SeparatorStyle,
}

impl Separator {
    /// A solid vertical separator.
    pub fn vertical() -> (r: Separator)
        ensures
            r.axis == Axis::Vertical,
            r.label is None,
            r.color is None,
            r.line_style == SeparatorStyle::Solid,
    {
        Separator { label: None, axis: Axis::Vertical, color: None, line_style: SeparatorStyle::Solid }
    }

    /// A solid horizontal separator.
    pub fn horizontal() -> (r: Separator)
        ensures
            r.axis == Axis::Horizontal,
            r.label is None,
            r.color is None,
            r.line_style == SeparatorStyle::Solid,
    {
        Separator { label: None, axis: Axis::Horizontal, color: None, line_style: SeparatorStyle::Solid }
    }

    /// A dashed vertical separator.
    pub fn vertical_dashed() -> (r: Separator)
        ensures
            r.axis == Axis::Vertical,
            r.label is None,
            r.color is None,
            r.line_style == SeparatorStyle::Dashed,
    {
        Self::vertical().dashed()
    }

    /// A dashed horizontal separator.
    pub fn horizontal_dashed() -> (r: Separator)
        ensures
            r.axis == Axis::Horizontal,
            r.label is None,
            r.color is None,
            r.line_style == SeparatorStyle::Dashed,
    {
        Self::horizontal().dashed()
    }

    /// Sets the label.
    pub fn label(self, label: &str) -> (r: Separator)
        ensures
            r.label matches Some(l) && l@ == label@,
            r.axis == self.axis,
            r.color == self.color,
            r.line_style == self.line_style,
    {
        Separator { label: Some(label.to_owned()), ..self }
    }

    /// Sets the line color.
    pub fn color(self, color: Hsla) -> (r: Separator)
        ensures
            r.color == Some(color),
            r.label == self.label,
            r.axis == self.axis,
            r.line_style == self.line_style,
    {
        Separator { color: Some(color), ..self }
    }

    /// Draws the line dashed.
    pub fn dashed(self) -> (r: Separator)
        ensures
            r.line_style == SeparatorStyle::Dashed,
            r.label == self.label,
            r.axis == self.axis,
            r.color == self.color,
    {
        Separator { line_style: SeparatorStyle::Dashed, ..self }
    }

    /// The color of the line: the separator's, else the theme's border color.
    pub fn line_color(&self) -> (r: ColorRecipe)
        ensures
            r@ == (RecipeView {
                source: match self.color {
                    Some(c) => ColorSource::Custom(c),
                    None => ColorSource::Theme(ThemeToken::Border),
                },
                ops: Seq::empty(),
            }),
    {
        match self.color {
            Some(c) => ColorRecipe::plain(ColorSource::Custom(c)),
            None => ColorRecipe::token(ThemeToken::Border),
        }
    }
}

} // verus!
