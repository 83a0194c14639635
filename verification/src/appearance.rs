//! Light and dark, and the background of a window.
use vstd::prelude::*;

use crate::theme::Theme;

verus! {

/// Whether a theme, or the system, is light or dark.
#[derive(Clone, Copy, Debug, PartialEq, Eq, Structural)]
pub enum Appearance {
    Light,
    Dark,
}

impl Appearance {
    /// Whether this is the light appearance.
    pub fn is_light(&self) -> (light: bool)
        ensures
            light == (*self is Light),
    {
        match self {
            Appearance::Light => true,
            Appearance::Dark => false,
        }
    }
}

/// What a window paints behind its surfaces.
#[derive(Clone, Copy, Debug, PartialEq, Eq, Structural)]
pub enum WindowBackgroundAppearance {
    /// What is behind the window shows through.
    Transparent,
    /// What is behind the window shows through, blurred.
    Blurred,
    /// Any other background, such as an opaque one.
    Other,
}

/// The window background that `theme` asks for.
pub fn window_appearance(theme: &Theme) -> (background: WindowBackgroundAppearance)
    ensures
        background == theme@.styles.window_background_appearance,
{
    theme.styles.window_background_appearance
}

/// Whether the window and its surfaces are expected to be transparent.
///
/// Helps to determine whether extra steps are needed to prevent transparent
/// backgrounds.
pub fn theme_is_transparent(theme: &Theme) -> (transparent: bool)
    ensures
        transparent <==> {
            ||| theme@.styles.window_background_appearance is Transparent
            ||| theme@.styles.window_background_appearance is Blurred
        },
{
    matches!(
        window_appearance(theme),
        WindowBackgroundAppearance::Transparent | WindowBackgroundAppearance::Blurred
    )
}

} // verus!
