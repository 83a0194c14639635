//! The picker as a dialog: what opens it, and what closing it does.
use vstd::prelude::*;

use crate::delegate::{ThemeSelectorDelegate, ThemeSelectorScope};
use crate::effect::Effect;
use crate::elements::{Frame, Length};

verus! {

/// What the user can ask for.
#[derive(Debug)]
pub enum Action {
    /// Open or close the picker that edits the settings.
    ToggleThemeSelector { themes_filter: Option<Vec<String>> },
    /// Open or close the picker that overrides the window's theme.
    ToggleWindowTheme { themes_filter: Option<Vec<String>> },
    /// Drop the override of the window's theme.
    ClearWindowTheme,
    /// Open or close the picker of icon themes.
    ToggleIconThemeSelector { themes_filter: Option<Vec<String>> },
}

/// What the workspace is to do.
#[derive(Debug)]
pub enum Command {
    /// Open a theme picker with this filter and scope, or close it.
    ToggleThemeSelector { themes_filter: Option<Vec<String>>, scope: ThemeSelectorScope },
    /// Open a picker of icon themes with this filter, or close it.
    ToggleIconThemeSelector { themes_filter: Option<Vec<String>> },
    /// Carry this out.
    Perform(Effect),
}

/// What the workspace is to do when the user asks for `action`.
pub fn command_for(action: Action) -> (command: Command)
    ensures
        command == match action {
            Action::ToggleThemeSelector { themes_filter } => Command::ToggleThemeSelector {
                themes_filter,
                scope: ThemeSelectorScope::Global,
            },
            Action::ToggleWindowTheme { themes_filter } => Command::ToggleThemeSelector {
                themes_filter,
                scope: ThemeSelectorScope::Window,
            },
            Action::ClearWindowTheme => Command::Perform(Effect::ClearWindowTheme),
            Action::ToggleIconThemeSelector { themes_filter } => Command::ToggleIconThemeSelector {
                themes_filter,
            },
        },
{
    match action {
        Action::ToggleThemeSelector { themes_filter } => Command::ToggleThemeSelector {
            themes_filter,
            scope: ThemeSelectorScope::Global,
        },
        Action::ToggleWindowTheme { themes_filter } => Command::ToggleThemeSelector {
            themes_filter,
            scope: ThemeSelectorScope::Window,
        },
        Action::ClearWindowTheme => Command::Perform(Effect::ClearWindowTheme),
        Action::ToggleIconThemeSelector { themes_filter } => Command::ToggleIconThemeSelector {
            themes_filter,
        },
    }
}

/// Whether a dialog that is asked to close does so.
#[derive(Clone, Copy, Debug, PartialEq, Eq, Structural)]
pub enum DismissDecision {
    Dismiss(bool),
}

/// The picker as a dialog.
#[derive(Debug)]
pub struct ThemeSelector {
    pub delegate: ThemeSelectorDelegate,
}

impl ThemeSelector {
    /// A dialog around the picker.
    pub fn new(delegate: ThemeSelectorDelegate) -> (selector: ThemeSelector)
        ensures
            selector.delegate == delegate,
    {
        ThemeSelector { delegate }
    }

    /// Takes back what was shown, unless the picker has been confirmed or reverted,
    /// and lets the dialog close.
    pub fn on_before_dismiss(&mut self) -> (outcome: (DismissDecision, Vec<Effect>))
        ensures
            outcome.0 == DismissDecision::Dismiss(true),
            outcome.1.deep_view() == old(self).delegate@.reversion(),
            final(self).delegate@ == old(self).delegate@.completed(),
    {
        let effects = self.delegate.revert_theme();
        (DismissDecision::Dismiss(true), effects)
    }

    /// The box around the picker.
    pub fn render(&self) -> (frame: Frame)
        ensures
            frame.key_context@ == "ThemeSelector"@,
            frame.width == Length::Rems(34),
    {
        Frame { key_context: "ThemeSelector", width: Length::Rems(34) }
    }
}

} // verus!
