//! Spinners: an icon turning at a steady pace to show that work is under way.
use vstd::prelude::*;
use crate::element::{ElementSize, Hsla};
use crate::icon::Icon;

verus! {

/// The asset path of the default spinner icon.
pub const LOADER_ICON_PATH: &'static str = "icons/loader.svg";

/// A spinner.
#[derive(Clone, Debug)]
pub struct Spinner {
    pub size: ElementSize,
    /// The icon that turns.
    pub icon: Icon,
    /// How long one full turn takes, in milliseconds.
    pub speed_ms: u64,
    /// The icon color, else the text color.
    pub color: Option<Hsla>,
}

impl Spinner {
    /// A medium spinner turning the loader icon once every 800 milliseconds.
    pub fn new() -> (r: Spinner)
        ensures
            r.size == ElementSize::Medium,
            r.speed_ms == 800,
            r.color is None,
            r.icon.path@ == LOADER_ICON_PATH@,
            r.icon.size is None,
    {
        let icon = Icon::empty().path(LOADER_ICON_PATH);
        Spinner { size: ElementSize::Medium, icon, speed_ms: 800, color: None }
    }

    /// Turns `icon` instead; it should look right while turning.
    pub fn icon(self, icon: Icon) -> (r: Spinner)
        ensures
            r.icon == icon,
            r.size == self.size,
            r.speed_ms == self.speed_ms,
            r.color == self.color,
    {
        Spinner { icon, ..self }
    }

    /// Sets the icon color.
    pub fn color(self, color: Hsla) -> (r: Spinner)
        ensures
            r.color == Some(color),
            r.icon == self.icon,
            r.size == self.size,
            r.speed_ms == self.speed_ms,
    {
        Spinner { color: Some(color), ..self }
    }

    /// Sets the size.
    pub fn with_size(self, size: ElementSize) -> (r: Spinner)
        ensures
            r.size == size,
            r.icon == self.icon,
            r.speed_ms == self.speed_ms,
            r.color == self.color,
    {
        Spinner { size, ..self }
    }

    /// The icon as drawn: at the spinner's size and, when set, in its color.
    pub fn drawn_icon(&self) -> (r: Icon)
        ensures
            r.path == self.icon.path,
            r.data == self.icon.data,
            r.size == Some(self.size),
            r.text_color == (match self.color {
                Some(c) => Some(c),
                None => self.icon.text_color,
            }),
    {
        let icon = self.icon.duplicate().with_size(self.size);
        match self.color {
            Some(c) => icon.text_color(c),
            None => icon,
        }
    }
}

impl Default for Spinner {
    fn default() -> (r: Spinner)
        ensures
            r.size == ElementSize::Medium,
            r.speed_ms == 800,
            r.color is None,
            r.icon.path@ == LOADER_ICON_PATH@,
    {
        Spinner::new()
    }
}

} // verus!
