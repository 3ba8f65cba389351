//! The avatar: a round picture, or initials when there is none, with an
//! optional status dot.
use vstd::prelude::*;
use crate::geometry::Pixels;

verus! {

/// The presence shown by an avatar's dot.
#[derive(Clone, Copy, Debug, PartialEq, Eq, Structural)]
pub enum AvatarStatus {
    /// No dot; the default.
    NoStatus,
    /// Green.
    Online,
    /// Red.
    Busy,
    /// Yellow.
    Away,
}

/// An avatar.
#[derive(Clone, Debug)]
pub struct Avatar {
    /// Where the picture is loaded from; the fallback text shows without one.
    pub src: Option<String>,
    /// The text shown without a picture, such as initials.
    pub fallback: String,
    /// The side of the square the avatar fills.
    pub size: Pixels,
    pub status: AvatarStatus,
}

impl Avatar {
    /// An avatar of 32 pixels showing `fallback`, without status.
    pub fn new(fallback: &str) -> (r: Avatar)
        ensures
            r.src is None,
            r.fallback@ == fallback@,
            r.size == Pixels(32),
            r.status == AvatarStatus::NoStatus,
    {
        Avatar { src: None, fallback: fallback.to_owned(), size: Pixels(32), status: AvatarStatus::NoStatus }
    }

    /// Sets where the picture is loaded from.
    pub fn src(self, src: &str) -> (r: Avatar)
        ensures
            r.src matches Some(s) && s@ == src@,
            r == (Avatar { src: r.src, ..self }),
    {
        Avatar { src: Some(src.to_owned()), ..self }
    }

    /// Sets the size.
    pub fn size(self, size: Pixels) -> (r: Avatar)
        ensures
            r == (Avatar { size, ..self }),
    {
        Avatar { size, ..self }
    }

    /// Sets the status.
    pub fn status(self, status: AvatarStatus) -> (r: Avatar)
        ensures
            r == (Avatar { status, ..self }),
    {
        Avatar { status, ..self }
    }

    /// The color of the status dot as `0xRRGGBB`, or `None` without a dot.
    pub fn status_color(&self) -> (r: Option<u32>)
        ensures
            r == (match self.status {
                AvatarStatus::NoStatus => None,
                AvatarStatus::Online => Some(0x22c55eu32),
                AvatarStatus::Busy => Some(0xef4444u32),
                AvatarStatus::Away => Some(0xeab308u32),
            }),
    {
        match self.status {
            AvatarStatus::NoStatus => None,
            AvatarStatus::Online => Some(0x22c55e),
            AvatarStatus::Busy => Some(0xef4444),
            AvatarStatus::Away => Some(0xeab308),
        }
    }
}

} // verus!
