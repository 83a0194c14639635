//! An open picker together with what it acts on.
use vstd::prelude::*;

use crate::delegate::ThemeSelectorDelegateView;
use crate::effect::Surroundings;
use crate::matching;
use crate::matching::StringMatchView;
use crate::settings::ThemeSettingsView;
use crate::theme::{ThemeMetaView, ThemeView};

verus! {

/// Something that happens while the picker is open.
pub enum Move {
    /// The user moves to a match, and loading its theme gives `loaded`.
    Select { ix: int, loaded: Option<ThemeView> },
    /// The user types a query, it has these matches, and loading the theme that is
    /// then selected gives `loaded`.
    Search { query: Seq<char>, matches: Seq<StringMatchView>, loaded: Option<ThemeView> },
    /// A theme is shown without the selection moving to it.
    Preview(ThemeView),
    /// Someone else changes the theme settings.
    Edit(ThemeSettingsView),
}

/// A picker and what it acts on.
#[verifier::ext_equal]
pub struct Session {
    pub picker: ThemeSelectorDelegateView,
    pub surroundings: Surroundings,
}

impl Session {
    /// Whether the picker has just been opened: what it remembers is what there is,
    /// and it has been neither confirmed nor reverted.
    pub open spec fn just_opened(self) -> bool {
        &&& self.surroundings.settings == self.picker.original_theme_settings
        &&& self.surroundings.window_override == self.own_override()
        &&& !self.picker.selection_completed
    }

    /// The override that the window had before the picker was opened.
    pub open spec fn own_override(self) -> Option<ThemeView> {
        if self.picker.original_had_window_override {
            Some(self.picker.original_window_theme)
        } else {
            None
        }
    }

    /// Whether nothing masks what a picker of the settings shows, as long as the
    /// window had no override of its own.
    pub open spec fn unmasked(self) -> bool {
        self.picker.scope is Global && !self.picker.original_had_window_override
            ==> self.surroundings.window_override is None
    }

    /// What there is after a move.
    pub open spec fn after(self, step: Move) -> Session {
        match step {
            Move::Select { ix, loaded } => Session {
                picker: self.picker.after_select(ix, loaded),
                surroundings: self.surroundings.after_all(
                    self.picker.at_index(ix).showing(loaded, self.surroundings.settings),
                ),
            },
            Move::Search { query, matches, loaded } => Session {
                picker: self.picker.with_matches(query, matches).after_matches_shown(loaded),
                surroundings: self.surroundings.after_all(
                    self.picker.with_matches(query, matches).showing(
                        loaded,
                        self.surroundings.settings,
                    ),
                ),
            },
            Move::Preview(theme) => Session {
                picker: self.picker.with_new_theme(theme),
                surroundings: self.surroundings.after_all(
                    self.picker.preview(theme, self.surroundings.settings),
                ),
            },
            Move::Edit(settings) => Session {
                surroundings: Surroundings { settings, ..self.surroundings },
                ..self
            },
        }
    }

    /// What there is after all of `moves`, in order.
    pub open spec fn after_all(self, moves: Seq<Move>) -> Session
        decreases moves.len(),
    {
        if moves.len() == 0 {
            self
        } else {
            self.after_all(moves.drop_last()).after(moves.last())
        }
    }
}

/// Whether all matches that `moves` bring are themes of the list.
pub open spec fn bring_matches_of(moves: Seq<Move>, themes: Seq<ThemeMetaView>) -> bool {
    forall|i: int|
        0 <= i < moves.len() ==> match #[trigger] moves[i] {
            Move::Search { matches, .. } => matching::are_matches_of(matches, themes),
            _ => true,
        }
}

/// Whether each theme that `moves` show is one that the selection moves to.
pub open spec fn show_by_selecting(moves: Seq<Move>) -> bool {
    forall|i: int| 0 <= i < moves.len() ==> !(#[trigger] moves[i] is Preview)
}

/// The settings after `moves` if only what others do to them counts.
pub open spec fn edited(settings: ThemeSettingsView, moves: Seq<Move>) -> ThemeSettingsView
    decreases moves.len(),
{
    if moves.len() == 0 {
        settings
    } else {
        match moves.last() {
            Move::Edit(settings) => settings,
            _ => edited(settings, moves.drop_last()),
        }
    }
}

} // verus!
