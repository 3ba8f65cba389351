//! The icon of a button: an icon, or a spinner while the button is loading.
use vstd::prelude::*;
use crate::element::ElementSize;
use crate::icon::Icon;
use crate::spinner::Spinner;

verus! {

/// An icon or a spinner.
#[derive(Clone, Debug)]
pub enum ButtonIconVariant {
    Icon(Icon),
    Spinner(Spinner),
}

impl ButtonIconVariant {
    /// Whether this is a spinner.
    pub fn is_spinner(&self) -> (r: bool)
        ensures
            r == (*self is Spinner),
    {
        match self {
            ButtonIconVariant::Spinner(_) => true,
            ButtonIconVariant::Icon(_) => false,
        }
    }

    /// The same icon or spinner at `size`.
    pub fn with_size(self, size: ElementSize) -> (r: ButtonIconVariant)
        ensures
            match (self, r) {
                (ButtonIconVariant::Icon(a), ButtonIconVariant::Icon(b)) => b.path == a.path && b.data == a.data
                    && b.text_color == a.text_color && b.size == Some(size),
                (ButtonIconVariant::Spinner(a), ButtonIconVariant::Spinner(b)) => b.icon == a.icon
                    && b.speed_ms == a.speed_ms && b.color == a.color && b.size == size,
                _ => false,
            },
    {
        match self {
            ButtonIconVariant::Icon(icon) => ButtonIconVariant::Icon(icon.with_size(size)),
            ButtonIconVariant::Spinner(spinner) => ButtonIconVariant::Spinner(spinner.with_size(size)),
        }
    }
}

/// The icon of a button.
#[derive(Clone, Debug)]
pub struct ButtonIcon {
    pub icon: ButtonIconVariant,
    /// The icon a loading button's spinner turns, else the default one.
    pub loading_icon: Option<Icon>,
    pub loading: bool,
    pub size: ElementSize,
}

impl ButtonIcon {
    /// A medium button icon, not loading.
    pub fn new(icon: ButtonIconVariant) -> (r: ButtonIcon)
        ensures
            r.icon == icon,
            r.loading_icon is None,
            !r.loading,
            r.size == ElementSize::Medium,
    {
        ButtonIcon { icon, loading_icon: None, loading: false, size: ElementSize::Medium }
    }

    /// Sets the icon a loading button's spinner turns.
    pub fn loading_icon(self, icon: Option<Icon>) -> (r: ButtonIcon)
        ensures
            r.loading_icon == icon,
            r.icon == self.icon,
            r.loading == self.loading,
            r.size == self.size,
    {
        ButtonIcon { loading_icon: icon, ..self }
    }

    /// Sets whether the button is loading.
    pub fn loading(self, loading: bool) -> (r: ButtonIcon)
        ensures
            r.loading == loading,
            r.icon == self.icon,
            r.loading_icon == self.loading_icon,
            r.size == self.size,
    {
        ButtonIcon { loading, ..self }
    }

    /// Sets the size.
    pub fn with_size(self, size: ElementSize) -> (r: ButtonIcon)
        ensures
            r.size == size,
            r.icon == self.icon,
            r.loading_icon == self.loading_icon,
            r.loading == self.loading,
    {
        ButtonIcon { size, ..self }
    }

    /// What is drawn: while loading, a spinner (the icon itself when it is one,
    /// else the default spinner turning the loading icon, if any); otherwise
    /// the icon; either at the button icon's size.
    pub fn drawn(self) -> (r: ButtonIconVariant)
        ensures
            (self.loading && !(self.icon is Spinner)) ==> (r matches ButtonIconVariant::Spinner(s)
                && s.size == self.size && s.speed_ms == 800 && s.color is None && match self.loading_icon {
                Some(i) => s.icon == i,
                None => s.icon.path@ == crate::spinner::LOADER_ICON_PATH@,
            }),
            !(self.loading && !(self.icon is Spinner)) ==> (r is Spinner == self.icon is Spinner),
    {
        let size = self.size;
        if self.loading && !self.icon.is_spinner() {
            let spinner = match self.loading_icon {
                Some(icon) => Spinner::new().icon(icon),
                None => Spinner::new(),
            };
            ButtonIconVariant::Spinner(spinner.with_size(size))
        } else {
            self.icon.with_size(size)
        }
    }
}

} // verus!
