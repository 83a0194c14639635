//! Themes as the picker sees them.
use vstd::prelude::*;

use crate::appearance::{Appearance, WindowBackgroundAppearance};

verus! {

/// The part of a theme's styles that decides how its window is painted.
#[derive(Clone, Copy, Debug, PartialEq, Eq, Structural)]
pub struct ThemeStyles {
    pub window_background_appearance: WindowBackgroundAppearance,
}

/// A loaded theme.
#[derive(Debug)]
pub struct Theme {
    /// The number under which the host keeps the rest of the theme: its colors,
    /// its syntax styles, its icons.
    pub key: u64,
    pub name: String,
    pub appearance: Appearance,
    pub styles: ThemeStyles,
}

/// A theme, with its name as a sequence of characters.
#[verifier::ext_equal]
pub struct ThemeView {
    pub key: u64,
    pub name: Seq<char>,
    pub appearance: Appearance,
    pub styles: ThemeStyles,
}

impl View for Theme {
    type V = ThemeView;

    open spec fn view(&self) -> ThemeView {
        ThemeView {
            key: self.key,
            name: self.name@,
            appearance: self.appearance,
            styles: self.styles,
        }
    }
}

impl DeepView for Theme {
    type V = ThemeView;

    open spec fn deep_view(&self) -> ThemeView {
        self@
    }
}

impl Clone for Theme {
    fn clone(&self) -> (copy: Self)
        ensures
            copy@ == self@,
    {
        Theme {
            key: self.key,
            name: self.name.clone(),
            appearance: self.appearance,
            styles: self.styles,
        }
    }
}

/// What the registry lists of a theme without loading it.
#[derive(Debug)]
pub struct ThemeMeta {
    pub name: String,
    pub appearance: Appearance,
}

/// A listed theme, with its name as a sequence of characters.
#[verifier::ext_equal]
pub struct ThemeMetaView {
    pub name: Seq<char>,
    pub appearance: Appearance,
}

impl View for ThemeMeta {
    type V = ThemeMetaView;

    open spec fn view(&self) -> ThemeMetaView {
        ThemeMetaView { name: self.name@, appearance: self.appearance }
    }
}

impl DeepView for ThemeMeta {
    type V = ThemeMetaView;

    open spec fn deep_view(&self) -> ThemeMetaView {
        self@
    }
}

} // verus!
