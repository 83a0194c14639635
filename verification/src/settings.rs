//! The theme settings, and what a picked theme makes of them.
use vstd::prelude::*;

use crate::appearance::Appearance;
use crate::theme::{Theme, ThemeView};

verus! {

/// The name of a theme, as the settings hold it.
#[derive(Debug)]
pub struct ThemeName(pub String);

impl View for ThemeName {
    type V = Seq<char>;

    open spec fn view(&self) -> Seq<char> {
        self.0@
    }
}

impl Clone for ThemeName {
    fn clone(&self) -> (copy: Self)
        ensures
            copy@ == self@,
    {
        ThemeName(self.0.clone())
    }
}

/// Which theme of a light and a dark one is shown.
#[derive(Clone, Copy, Debug, PartialEq, Eq, Structural)]
pub enum ThemeAppearanceMode {
    /// The light one.
    Light,
    /// The dark one.
    Dark,
    /// The one that matches the system.
    System,
}

/// The theme setting: one theme, or a light and a dark one.
#[derive(Debug)]
pub enum ThemeSelection {
    Static(ThemeName),
    Dynamic { mode: ThemeAppearanceMode, light: ThemeName, dark: ThemeName },
}

/// The theme setting, with names as sequences of characters.
#[verifier::ext_equal]
pub enum ThemeSelectionView {
    Static(Seq<char>),
    Dynamic { mode: ThemeAppearanceMode, light: Seq<char>, dark: Seq<char> },
}

impl View for ThemeSelection {
    type V = ThemeSelectionView;

    open spec fn view(&self) -> ThemeSelectionView {
        match self {
            ThemeSelection::Static(name) => ThemeSelectionView::Static(name@),
            ThemeSelection::Dynamic { mode, light, dark } => ThemeSelectionView::Dynamic {
                mode: *mode,
                light: light@,
                dark: dark@,
            },
        }
    }
}

impl Clone for ThemeSelection {
    fn clone(&self) -> (copy: Self)
        ensures
            copy@ == self@,
    {
        match self {
            ThemeSelection::Static(name) => ThemeSelection::Static(name.clone()),
            ThemeSelection::Dynamic { mode, light, dark } => ThemeSelection::Dynamic {
                mode: *mode,
                light: light.clone(),
                dark: dark.clone(),
            },
        }
    }
}

impl ThemeSelectionView {
    /// The name of the theme that this setting shows under `system_appearance`.
    pub open spec fn shown_name(self, system_appearance: Appearance) -> Seq<char> {
        match self {
            ThemeSelectionView::Static(name) => name,
            ThemeSelectionView::Dynamic { mode, light, dark } => match mode {
                ThemeAppearanceMode::Light => light,
                ThemeAppearanceMode::Dark => dark,
                ThemeAppearanceMode::System => if system_appearance is Light {
                    light
                } else {
                    dark
                },
            },
        }
    }
}

/// The theme settings.
#[derive(Debug)]
pub struct ThemeSettings {
    pub theme: ThemeSelection,
    /// The number under which the host keeps the settings other than `theme`: the
    /// fonts, their sizes, the density of the interface.
    pub rest: u64,
}

/// The theme settings, with names as sequences of characters.
#[verifier::ext_equal]
pub struct ThemeSettingsView {
    pub theme: ThemeSelectionView,
    pub rest: u64,
}

impl View for ThemeSettings {
    type V = ThemeSettingsView;

    open spec fn view(&self) -> ThemeSettingsView {
        ThemeSettingsView { theme: self.theme@, rest: self.rest }
    }
}

impl DeepView for ThemeSettings {
    type V = ThemeSettingsView;

    open spec fn deep_view(&self) -> ThemeSettingsView {
        self@
    }
}

impl Clone for ThemeSettings {
    fn clone(&self) -> (copy: Self)
        ensures
            copy@ == self@,
    {
        ThemeSettings { theme: self.theme.clone(), rest: self.rest }
    }
}

/// The mode that shows the theme of this appearance whatever the system's is.
pub open spec fn mode_of(appearance: Appearance) -> ThemeAppearanceMode {
    match appearance {
        Appearance::Light => ThemeAppearanceMode::Light,
        Appearance::Dark => ThemeAppearanceMode::Dark,
    }
}

/// The mode that shows the theme of this appearance whatever the system's is.
pub fn appearance_to_mode(appearance: Appearance) -> (mode: ThemeAppearanceMode)
    ensures
        mode == mode_of(appearance),
{
    match appearance {
        Appearance::Light => ThemeAppearanceMode::Light,
        Appearance::Dark => ThemeAppearanceMode::Dark,
    }
}

/// The mode under which a theme of `new_appearance` is seen: the system's, where
/// that was the mode and shows such a theme, otherwise that of the appearance.
pub open spec fn mode_showing(
    original_mode: ThemeAppearanceMode,
    system_appearance: Appearance,
    new_appearance: Appearance,
) -> ThemeAppearanceMode {
    if original_mode is System && system_appearance == new_appearance {
        ThemeAppearanceMode::System
    } else {
        mode_of(new_appearance)
    }
}

/// Determines the new mode for a new theme.
///
/// If the original mode follows the system and the new theme's appearance matches
/// the system's, the mode need not change. Otherwise it has to, for the new theme
/// to be seen.
pub fn update_mode_if_new_appearance_is_different_from_system(
    original_mode: &ThemeAppearanceMode,
    system_appearance: Appearance,
    new_appearance: Appearance,
) -> (mode: ThemeAppearanceMode)
    ensures
        mode == mode_showing(*original_mode, system_appearance, new_appearance),
{
    if *original_mode == ThemeAppearanceMode::System && system_appearance == new_appearance {
        ThemeAppearanceMode::System
    } else {
        appearance_to_mode(new_appearance)
    }
}

/// Puts the new theme in the place of the original one of its appearance.
///
/// The other theme is that of the original settings (before the picker was
/// opened), not the one selected since, which has likely changed several times
/// while the picker has been open.
pub fn retain_original_opposing_theme(
    new_theme_is_light: bool,
    new_mode: ThemeAppearanceMode,
    theme_name: ThemeName,
    original_light: &ThemeName,
    original_dark: &ThemeName,
) -> (selection: ThemeSelection)
    ensures
        selection@ == (ThemeSelectionView::Dynamic {
            mode: new_mode,
            light: if new_theme_is_light {
                theme_name@
            } else {
                original_light@
            },
            dark: if new_theme_is_light {
                original_dark@
            } else {
                theme_name@
            },
        }),
{
    if new_theme_is_light {
        ThemeSelection::Dynamic { mode: new_mode, light: theme_name, dark: original_dark.clone() }
    } else {
        ThemeSelection::Dynamic { mode: new_mode, light: original_light.clone(), dark: theme_name }
    }
}

/// The theme setting under which `new_theme` is seen, where `original` was the
/// setting before the picker was opened: of the same kind as `original`, with the
/// other theme of a pair kept.
pub open spec fn selection_showing(
    original: ThemeSelectionView,
    new_theme: ThemeView,
    system_appearance: Appearance,
) -> ThemeSelectionView {
    match original {
        ThemeSelectionView::Static(_) => ThemeSelectionView::Static(new_theme.name),
        ThemeSelectionView::Dynamic { mode, light, dark } => ThemeSelectionView::Dynamic {
            mode: mode_showing(mode, system_appearance, new_theme.appearance),
            light: if new_theme.appearance is Light {
                new_theme.name
            } else {
                light
            },
            dark: if new_theme.appearance is Light {
                dark
            } else {
                new_theme.name
            },
        },
    }
}

/// The settings that replace `current` for `new_theme` to be seen. There are none
/// where the setting has changed between one theme and a pair since the picker was
/// opened.
pub open spec fn settings_showing(
    current: ThemeSettingsView,
    new_theme: ThemeView,
    original: ThemeSelectionView,
    system_appearance: Appearance,
) -> Option<ThemeSettingsView> {
    if (original is Static) == (current.theme is Static) {
        Some(
            ThemeSettingsView {
                theme: selection_showing(original, new_theme, system_appearance),
                rest: current.rest,
            },
        )
    } else {
        None
    }
}

/// Determines the in-memory theme settings that are to override `current` while
/// `new_theme` is previewed, or that nothing is to be done.
///
/// This is about the settings in memory, not those in the settings file.
pub fn override_global_theme(
    current: &ThemeSettings,
    new_theme: &Theme,
    original_theme: &ThemeSelection,
    system_appearance: Appearance,
) -> (settings: Option<ThemeSettings>)
    ensures
        settings.deep_view() == settings_showing(
            current@,
            new_theme@,
            original_theme@,
            system_appearance,
        ),
{
    let theme_name = ThemeName(new_theme.name.clone());
    let new_appearance = new_theme.appearance;
    let new_theme_is_light = new_appearance.is_light();
    match (original_theme, &current.theme) {
        // Override the currently selected static theme.
        (ThemeSelection::Static(_), ThemeSelection::Static(_)) => Some(
            ThemeSettings { theme: ThemeSelection::Static(theme_name), rest: current.rest },
        ),
        // If the current theme selection is dynamic, then only override the setting
        // for the specific mode (light or dark).
        (
            ThemeSelection::Dynamic { mode: original_mode, light: original_light, dark: original_dark },
            ThemeSelection::Dynamic { .. },
        ) => {
            let new_mode = update_mode_if_new_appearance_is_different_from_system(
                original_mode,
                system_appearance,
                new_appearance,
            );
            let updated_theme = retain_original_opposing_theme(
                new_theme_is_light,
                new_mode,
                theme_name,
                original_light,
                original_dark,
            );
            Some(ThemeSettings { theme: updated_theme, rest: current.rest })
        },
        // The kind of selection changed while themes were being previewed (someone
        // edited the settings file while the picker was open), so do nothing.
        _ => None,
    }
}

} // verus!
