//! The card: a bordered container with an optional title bar, and the caret
//! that marks drop-down triggers.
use vstd::prelude::*;
use crate::element::{ElementSize, Hsla};

verus! {

/// A card.
#[derive(Clone, Debug)]
pub struct Card {
    pub title: Option<String>,
}

impl Card {
    /// A card without title.
    pub fn new() -> (r: Card)
        ensures
            r.title is None,
    {
        Card { title: None }
    }

    /// Sets the title shown in the card's header.
    pub fn title(self, title: &str) -> (r: Card)
        ensures
            r.title matches Some(t) && t@ == title@,
    {
        Card { title: Some(title.to_owned()) }
    }
}

impl Default for Card {
    fn default() -> (r: Card)
        ensures
            r.title is None,
    {
        Card::new()
    }
}

/// The drop-down caret of a select trigger.
#[derive(Clone, Copy, Debug, PartialEq, Eq, Structural)]
pub struct Caret {
    pub size: ElementSize,
    pub color: Option<Hsla>,
}

impl Caret {
    /// A caret sized to fit a trigger of `size`, in the text color.
    pub fn new(size: ElementSize) -> (r: Caret)
        ensures
            r == (Caret { size, color: None }),
    {
        Caret { size, color: None }
    }

    /// Sets the caret's color.
    pub fn text_color(self, color: Hsla) -> (r: Caret)
        ensures
            r == (Caret { color: Some(color), ..self }),
    {
        Caret { color: Some(color), ..self }
    }

    /// The size of the chevron icon: extra small and small carets keep their size,
    /// all others are medium.
    pub fn icon_size(&self) -> (r: ElementSize)
        ensures
            r == (match self.size {
                ElementSize::XSmall => ElementSize::XSmall,
                ElementSize::Small => ElementSize::Small,
                _ => ElementSize::Medium,
            }),
    {
        match self.size {
            ElementSize::XSmall => ElementSize::XSmall,
            ElementSize::Small => ElementSize::Small,
            _ => ElementSize::Medium,
        }
    }
}

} // verus!
