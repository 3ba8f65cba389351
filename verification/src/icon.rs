//! Icons: a named vector image and how large it is drawn.
use vstd::prelude::*;
use crate::element::{ElementSize, Hsla};
use crate::geometry::{AbsoluteLength, Pixels};

verus! {

/// A named icon: the asset path of its image and the image's bytes.
///
/// An implementation that states what `path` and `bytes` give overrides
/// `obeys_icon_spec` to be `true` and defines `path_view` and `bytes_view` as
/// those results; of an implementation that does not, nothing is claimed.
pub trait IconNamed {
    /// Whether `path` and `bytes` give `path_view` and `bytes_view`.
    open spec fn obeys_icon_spec() -> bool {
        false
    }

    /// The asset path that `path` gives.
    open spec fn path_view(&self) -> Seq<char> {
        Seq::empty()
    }

    /// The image that `bytes` gives.
    open spec fn bytes_view(&self) -> Seq<u8> {
        Seq::empty()
    }

    /// The asset path, such as `icons/check.svg`.
    fn path(&self) -> (r: String)
        ensures
            Self::obeys_icon_spec() ==> r@ == self.path_view(),
    ;

    /// The image, embedded at build time.
    fn bytes(&self) -> (r: &'static [u8])
        ensures
            Self::obeys_icon_spec() ==> r@ == self.bytes_view(),
    ;
}

/// An icon drawn from a vector image.
#[derive(Clone, Debug)]
pub struct Icon {
    /// The asset path of the image.
    pub path: String,
    /// The image itself, when it is embedded.
    pub data: Option<&'static [u8]>,
    /// The color it is drawn in, else the text color.
    pub text_color: Option<Hsla>,
    /// The size it is drawn at, else its style's or the text size.
    pub size: Option<ElementSize>,
}

impl Icon {
    /// An icon without an image.
    pub fn empty() -> (r: Icon)
        ensures
            r.path@ == Seq::<char>::empty(),
            r.data is None,
            r.text_color is None,
            r.size is None,
    {
        proof {
            reveal_strlit("");
        }
        Icon { path: "".to_owned(), data: None, text_color: None, size: None }
    }

    /// The icon of a named image: its asset path and its embedded image.
    pub fn new<T: IconNamed>(name: T) -> (r: Icon)
        ensures
            r.data is Some,
            T::obeys_icon_spec() ==> r.path@ == name.path_view(),
            T::obeys_icon_spec() ==> (r.data matches Some(d) && d@ == name.bytes_view()),
            r.text_color is None,
            r.size is None,
    {
        let path = name.path();
        let bytes = name.bytes();
        Icon { path, data: Some(bytes), text_color: None, size: None }
    }

    /// A copy of the icon.
    pub fn duplicate(&self) -> (r: Icon)
        ensures
            r == *self,
    {
        Icon { path: self.path.clone(), data: self.data, text_color: self.text_color, size: self.size }
    }

    /// Sets the asset path, such as `icons/foo.svg`.
    pub fn path(self, path: &str) -> (r: Icon)
        ensures
            r.path@ == path@,
            r.data == self.data,
            r.text_color == self.text_color,
            r.size == self.size,
    {
        Icon { path: path.to_owned(), ..self }
    }

    /// Sets the embedded image.
    pub fn data(self, data: &'static [u8]) -> (r: Icon)
        ensures
            r.path == self.path,
            r.data == Some(data),
            r.text_color == self.text_color,
            r.size == self.size,
    {
        Icon { data: Some(data), ..self }
    }

    /// Sets the color.
    pub fn text_color(self, color: Hsla) -> (r: Icon)
        ensures
            r.path == self.path,
            r.data == self.data,
            r.text_color == Some(color),
            r.size == self.size,
    {
        Icon { text_color: Some(color), ..self }
    }

    /// Sets the size.
    pub fn with_size(self, size: ElementSize) -> (r: Icon)
        ensures
            r.path == self.path,
            r.data == self.data,
            r.text_color == self.text_color,
            r.size == Some(size),
    {
        Icon { size: Some(size), ..self }
    }

    /// The side length the icon is drawn at: its size (extra small, small,
    /// medium and large are three quarters, seven eighths, one and one and a
    /// half rem), else the text size when its style sets no size; none when
    /// its style sets one.
    pub fn render_size(&self, text_size: Pixels, style_has_size: bool) -> (r: Option<AbsoluteLength>)
        ensures
            r == (match self.size {
                Some(ElementSize::ElementSize(px)) => Some(AbsoluteLength::Pixels(px)),
                Some(ElementSize::XSmall) => Some(AbsoluteLength::Rems(750)),
                Some(ElementSize::Small) => Some(AbsoluteLength::Rems(875)),
                Some(ElementSize::Medium) => Some(AbsoluteLength::Rems(1000)),
                Some(ElementSize::Large) => Some(AbsoluteLength::Rems(1500)),
                None => if style_has_size {
                    None
                } else {
                    Some(AbsoluteLength::Pixels(text_size))
                },
            }),
    {
        match self.size {
            Some(ElementSize::ElementSize(px)) => Some(AbsoluteLength::Pixels(px)),
            Some(ElementSize::XSmall) => Some(AbsoluteLength::Rems(750)),
            Some(ElementSize::Small) => Some(AbsoluteLength::Rems(875)),
            Some(ElementSize::Medium) => Some(AbsoluteLength::Rems(1000)),
            Some(ElementSize::Large) => Some(AbsoluteLength::Rems(1500)),
            None => if style_has_size {
                None
            } else {
                Some(AbsoluteLength::Pixels(text_size))
            },
        }
    }
}

} // verus!
