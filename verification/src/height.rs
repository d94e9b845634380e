//! Height styling: the CSS properties and layout class that one height
//! choice pins down.
//!
//! A height is at most one value for each of `min-height`, `height`,
//! `max-height` and `flex-grow`, plus a layout mode: an exact height or
//! one that fills the container.

use vstd::prelude::*;
use crate::ids::{dec_digits, u128_to_dec_string};

verus! {

/// How the element participates in layout.
#[derive(Clone, Copy, PartialEq, Eq, Debug, Structural)]
pub enum HeightMode {
    ExactHeight,
    FillHeight,
}

impl Default for HeightMode {
    fn default() -> (r: Self)
        ensures
            r == HeightMode::ExactHeight,
    {
        HeightMode::ExactHeight
    }
}

/// The CSS pixel form of `n`: its decimal digits followed by `px`.
pub open spec fn px_string(n: nat) -> Seq<char> {
    dec_digits(n) + "px"@
}

/// Write `height` as a CSS pixel value.
pub fn px(height: u32) -> (r: String)
    ensures
        r@ == px_string(height as nat),
{
    let mut r = u128_to_dec_string(height as u128);
    r.append("px");
    r
}

/// Styling for height.
pub struct Height {
    pub min_height: Option<String>,
    pub height: Option<String>,
    pub max_height: Option<String>,
    pub flex_grow: Option<String>,
    pub height_mode: HeightMode,
}

impl Default for Height {
    fn default() -> (r: Self)
        ensures
            r.min_height is None,
            r.height is None,
            r.max_height is None,
            r.flex_grow is None,
            r.height_mode == HeightMode::ExactHeight,
    {
        Height {
            min_height: None,
            height: None,
            max_height: None,
            flex_grow: None,
            height_mode: HeightMode::ExactHeight,
        }
    }
}

impl Height {
    /// An exact height in pixels.
    pub fn exact(height: u32) -> (r: Self)
        ensures
            r.height matches Some(h) && h@ == px_string(height as nat),
            r.min_height is None,
            r.max_height is None,
            r.flex_grow is None,
            r.height_mode == HeightMode::ExactHeight,
    {
        let mut this = Self::default();
        this.height = Some(px(height));
        this.height_mode = HeightMode::ExactHeight;
        this
    }

    /// Fill the container's height.
    pub fn fill() -> (r: Self)
        ensures
            r.height matches Some(h) && h@ == "100%"@,
            r.min_height is None,
            r.max_height is None,
            r.flex_grow is None,
            r.height_mode == HeightMode::FillHeight,
    {
        let mut this = Self::default();
        this.height = Some(String::from_str("100%"));
        this.height_mode = HeightMode::FillHeight;
        this
    }

    /// Grow with the content, competing for free space in the container.
    pub fn growable() -> (r: Self)
        ensures
            r.height matches Some(h) && h@ == "auto"@,
            r.min_height is None,
            r.max_height is None,
            r.flex_grow is None,
            r.height_mode == HeightMode::FillHeight,
    {
        let mut this = Self::default();
        this.height = Some(String::from_str("auto"));
        this.height_mode = HeightMode::FillHeight;
        this
    }

    /// The height of the device screen or browser frame.
    pub fn screen() -> (r: Self)
        ensures
            r.height matches Some(h) && h@ == "100vh"@,
            r.min_height is None,
            r.max_height is None,
            r.flex_grow is None,
            r.height_mode == HeightMode::ExactHeight,
    {
        let mut this = Self::default();
        this.height = Some(String::from_str("100vh"));
        this.height_mode = HeightMode::ExactHeight;
        this
    }

    /// Add a minimum height in pixels.
    pub fn min(self, height: u32) -> (r: Self)
        ensures
            r.min_height matches Some(h) && h@ == px_string(height as nat),
            r.height == self.height,
            r.max_height == self.max_height,
            r.flex_grow == self.flex_grow,
            r.height_mode == self.height_mode,
    {
        let mut this = self;
        this.min_height = Some(px(height));
        this
    }

    /// Add the screen height as the minimum height.
    pub fn min_screen(self) -> (r: Self)
        ensures
            r.min_height matches Some(h) && h@ == "100vh"@,
            r.height == self.height,
            r.max_height == self.max_height,
            r.flex_grow == self.flex_grow,
            r.height_mode == self.height_mode,
    {
        let mut this = self;
        this.min_height = Some(String::from_str("100vh"));
        this
    }

    /// Add a maximum height in pixels.
    pub fn max(self, height: u32) -> (r: Self)
        ensures
            r.max_height matches Some(h) && h@ == px_string(height as nat),
            r.height == self.height,
            r.min_height == self.min_height,
            r.flex_grow == self.flex_grow,
            r.height_mode == self.height_mode,
    {
        let mut this = self;
        this.max_height = Some(px(height));
        this
    }

    /// Cap the height at the container's height.
    pub fn max_fill(self) -> (r: Self)
        ensures
            r.max_height matches Some(h) && h@ == "100%"@,
            r.height == self.height,
            r.min_height == self.min_height,
            r.flex_grow == self.flex_grow,
            r.height_mode == self.height_mode,
    {
        let mut this = self;
        this.max_height = Some(String::from_str("100%"));
        this
    }
}

} // verus!
