//! The line between the parts of a list.
use vstd::prelude::*;

use crate::elements::{Length, ThemeColor};

verus! {

/// Distances that follow the density of the interface.
#[derive(Clone, Copy, Debug, PartialEq, Eq, Structural)]
pub enum DynamicSpacing {
    Base06,
}

/// A plain box.
#[derive(Clone, Copy, Debug, PartialEq, Eq, Structural)]
pub struct Div {
    pub height: Length,
    pub width: Length,
    /// The distance to what stands above and below.
    pub margin_y: DynamicSpacing,
    pub background: ThemeColor,
}

/// The line between the parts of a list.
#[derive(Clone, Copy, Debug)]
pub struct ListSeparator;

impl ListSeparator {
    /// The box that is drawn: one pixel high, as wide as the list, in the color of
    /// the theme's subtle borders.
    pub fn render(self) -> (element: Div)
        ensures
            element == (Div {
                height: Length::Pixels(1),
                width: Length::Full,
                margin_y: DynamicSpacing::Base06,
                background: ThemeColor::BorderVariant,
            }),
    {
        Div {
            height: Length::Pixels(1),
            width: Length::Full,
            margin_y: DynamicSpacing::Base06,
            background: ThemeColor::BorderVariant,
        }
    }
}

} // verus!
