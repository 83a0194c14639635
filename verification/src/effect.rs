//! What the host is to carry out, and what comes of it.
use vstd::prelude::*;

use crate::appearance::Appearance;
use crate::settings::{ThemeName, ThemeSettings, ThemeSettingsView};
use crate::theme::{Theme, ThemeView};

verus! {

/// A change of the theme in the settings file.
#[derive(Debug)]
pub struct SettingsUpdate {
    pub theme_name: ThemeName,
    pub theme_appearance: Appearance,
    pub system_appearance: Appearance,
}

/// A change of the theme in the settings file, with its name as a sequence of
/// characters.
#[verifier::ext_equal]
pub struct SettingsUpdateView {
    pub theme_name: Seq<char>,
    pub theme_appearance: Appearance,
    pub system_appearance: Appearance,
}

impl View for SettingsUpdate {
    type V = SettingsUpdateView;

    open spec fn view(&self) -> SettingsUpdateView {
        SettingsUpdateView {
            theme_name: self.theme_name@,
            theme_appearance: self.theme_appearance,
            system_appearance: self.system_appearance,
        }
    }
}

/// An event that is counted.
#[derive(Debug)]
pub enum Report {
    /// "Settings Changed", of the setting "theme".
    SettingsChanged { value: ThemeName },
    /// "Window Theme Changed".
    WindowThemeChanged { value: ThemeName },
}

/// An event that is counted, with its value as a sequence of characters.
#[verifier::ext_equal]
pub enum ReportView {
    SettingsChanged { value: Seq<char> },
    WindowThemeChanged { value: Seq<char> },
}

impl View for Report {
    type V = ReportView;

    open spec fn view(&self) -> ReportView {
        match self {
            Report::SettingsChanged { value } => ReportView::SettingsChanged { value: value@ },
            Report::WindowThemeChanged { value } => ReportView::WindowThemeChanged {
                value: value@,
            },
        }
    }
}

/// Something that the host is to carry out.
#[derive(Debug)]
pub enum Effect {
    /// Replace the theme settings in memory.
    OverrideSettings(ThemeSettings),
    /// Override the theme of the window.
    ApplyToWindow(Theme),
    /// Drop the override of the window's theme.
    ClearForWindow,
    /// Let the window's workspace override the theme of its window.
    SetWindowTheme(Theme),
    /// Let the window's workspace drop the override of its window's theme.
    ClearWindowTheme,
    /// Set the theme in the settings file.
    UpdateSettingsFile(SettingsUpdate),
    /// Count an event.
    Count(Report),
    /// Close the picker.
    Dismiss,
}

/// Something that the host is to carry out, with names as sequences of characters.
#[verifier::ext_equal]
pub enum EffectView {
    OverrideSettings(ThemeSettingsView),
    ApplyToWindow(ThemeView),
    ClearForWindow,
    SetWindowTheme(ThemeView),
    ClearWindowTheme,
    UpdateSettingsFile(SettingsUpdateView),
    Count(ReportView),
    Dismiss,
}

impl View for Effect {
    type V = EffectView;

    open spec fn view(&self) -> EffectView {
        match self {
            Effect::OverrideSettings(settings) => EffectView::OverrideSettings(settings@),
            Effect::ApplyToWindow(theme) => EffectView::ApplyToWindow(theme@),
            Effect::ClearForWindow => EffectView::ClearForWindow,
            Effect::SetWindowTheme(theme) => EffectView::SetWindowTheme(theme@),
            Effect::ClearWindowTheme => EffectView::ClearWindowTheme,
            Effect::UpdateSettingsFile(update) => EffectView::UpdateSettingsFile(update@),
            Effect::Count(report) => EffectView::Count(report@),
            Effect::Dismiss => EffectView::Dismiss,
        }
    }
}

impl DeepView for Effect {
    type V = EffectView;

    open spec fn deep_view(&self) -> EffectView {
        self@
    }
}

/// What the effects act on.
#[verifier::ext_equal]
pub struct Surroundings {
    /// The theme settings in memory.
    pub settings: ThemeSettingsView,
    /// The theme that overrides the configured one in the window.
    pub window_override: Option<ThemeView>,
    /// The name of the theme that the workspace remembers for its window.
    pub workspace_override: Option<Seq<char>>,
    /// The changes made to the settings file.
    pub file_updates: Seq<SettingsUpdateView>,
    /// The events counted.
    pub reports: Seq<ReportView>,
    /// Whether the picker is open.
    pub picker_open: bool,
}

impl Surroundings {
    /// What there is once `effect` has been carried out.
    pub open spec fn after(self, effect: EffectView) -> Surroundings {
        match effect {
            EffectView::OverrideSettings(settings) => Surroundings { settings, ..self },
            EffectView::ApplyToWindow(theme) => Surroundings {
                window_override: Some(theme),
                ..self
            },
            EffectView::ClearForWindow => Surroundings { window_override: None, ..self },
            EffectView::SetWindowTheme(theme) => Surroundings {
                window_override: Some(theme),
                workspace_override: Some(theme.name),
                ..self
            },
            EffectView::ClearWindowTheme => Surroundings {
                window_override: None,
                workspace_override: None,
                ..self
            },
            EffectView::UpdateSettingsFile(update) => Surroundings {
                file_updates: self.file_updates.push(update),
                ..self
            },
            EffectView::Count(report) => Surroundings {
                reports: self.reports.push(report),
                ..self
            },
            EffectView::Dismiss => Surroundings { picker_open: false, ..self },
        }
    }

    /// What there is once all of `effects` have been carried out, in order.
    pub open spec fn after_all(self, effects: Seq<EffectView>) -> Surroundings
        decreases effects.len(),
    {
        if effects.len() == 0 {
            self
        } else {
            self.after_all(effects.drop_last()).after(effects.last())
        }
    }

    /// The name of the theme that the window shows.
    pub open spec fn window_theme_name(self, system_appearance: Appearance) -> Seq<char> {
        match self.window_override {
            Some(theme) => theme.name,
            None => self.settings.theme.shown_name(system_appearance),
        }
    }
}

} // verus!
