//! The state of an open picker, and what the user's moves make of it.
use vstd::prelude::*;

use crate::appearance::Appearance;
use crate::effect::{
    Effect, EffectView, Report, ReportView, SettingsUpdate, SettingsUpdateView, Surroundings,
};
use crate::elements::{
    ExtensionCategoryFilter, Footer, FooterAction, FooterButton, Icon, IconColor, IconName,
    IconSize, Justify, Length, ListItem, ListItemSpacing, ListItemView, Spacing, ThemeColor,
};
use crate::listing;
use crate::matching;
use crate::matching::{
    MatchRequest, MatchRequestView, StringMatch, StringMatchView, MAX_MATCHES,
};
use crate::settings;
use crate::settings::{ThemeName, ThemeSettings, ThemeSettingsView};
use crate::text;
use crate::theme::{Theme, ThemeMeta, ThemeMetaView, ThemeView};

verus! {

/// What the picker writes to.
#[derive(Clone, Copy, Debug, PartialEq, Eq, Structural)]
pub enum ThemeSelectorScope {
    /// The settings.
    Global,
    /// An override for one window.
    Window,
}

/// What the host holds when the picker is opened.
#[derive(Debug)]
pub struct HostState {
    /// The theme of the window: its override if it has one, otherwise the
    /// configured theme.
    pub window_theme: Theme,
    /// Whether the window overrides the configured theme.
    pub had_window_override: bool,
    /// The theme that the settings configure.
    pub configured_theme: Theme,
    /// The theme settings in memory.
    pub theme_settings: ThemeSettings,
    /// The appearance of the system.
    pub system_appearance: Appearance,
    /// The themes that the registry lists.
    pub registered_themes: Vec<ThemeMeta>,
}

impl HostState {
    /// The theme that a picker of this scope starts from.
    pub open spec fn original_theme(self, scope: ThemeSelectorScope) -> ThemeView {
        match scope {
            ThemeSelectorScope::Global => self.configured_theme@,
            ThemeSelectorScope::Window => self.window_theme@,
        }
    }

    /// Whether this is what there is.
    pub open spec fn describes(self, surroundings: Surroundings) -> bool {
        &&& surroundings.settings == self.theme_settings@
        &&& surroundings.window_override == if self.had_window_override {
            Some(self.window_theme@)
        } else {
            None
        }
    }
}

/// The state of an open picker.
#[derive(Debug)]
pub struct ThemeSelectorDelegate {
    /// The listed themes.
    pub themes: Vec<ThemeMeta>,
    /// The listed themes that match the query.
    pub matches: Vec<StringMatch>,
    /// The theme settings from before the picker was opened.
    ///
    /// They come back if the user dismisses the picker.
    pub original_theme_settings: ThemeSettings,
    /// The appearance of the system when the picker was opened.
    pub original_system_appearance: Appearance,
    /// The theme of the window from before the picker was opened.
    pub original_window_theme: Theme,
    /// Whether the window had an override before the picker was opened.
    pub original_had_window_override: bool,
    /// Whether this picker writes a window override or the settings.
    pub scope: ThemeSelectorScope,
    /// The place of the original theme in the list of themes.
    ///
    /// There is none where the filter keeps the original theme out of the list. For
    /// example, when themes are installed, the filter holds just their names; with
    /// a fallback to the first place, the first theme of the list would be shown as
    /// the active one.
    pub original_theme_id: Option<usize>,
    /// The theme that is shown.
    pub new_theme: Theme,
    /// Whether the picker has been confirmed or reverted.
    pub selection_completed: bool,
    /// The theme that the user moved to.
    pub selected_theme: Option<Theme>,
    /// The place of the selected match.
    pub selected_index: usize,
}

/// The state of an open picker, with names as sequences of characters.
#[verifier::ext_equal]
pub struct ThemeSelectorDelegateView {
    pub themes: Seq<ThemeMetaView>,
    pub matches: Seq<StringMatchView>,
    pub original_theme_settings: ThemeSettingsView,
    pub original_system_appearance: Appearance,
    pub original_window_theme: ThemeView,
    pub original_had_window_override: bool,
    pub scope: ThemeSelectorScope,
    pub original_theme_id: Option<int>,
    pub new_theme: ThemeView,
    pub selection_completed: bool,
    pub selected_theme: Option<ThemeView>,
    pub selected_index: int,
}

impl View for ThemeSelectorDelegate {
    type V = ThemeSelectorDelegateView;

    open spec fn view(&self) -> ThemeSelectorDelegateView {
        ThemeSelectorDelegateView {
            themes: self.themes.deep_view(),
            matches: self.matches.deep_view(),
            original_theme_settings: self.original_theme_settings@,
            original_system_appearance: self.original_system_appearance,
            original_window_theme: self.original_window_theme@,
            original_had_window_override: self.original_had_window_override,
            scope: self.scope,
            original_theme_id: match self.original_theme_id {
                Some(id) => Some(id as int),
                None => None,
            },
            new_theme: self.new_theme@,
            selection_completed: self.selection_completed,
            selected_theme: self.selected_theme.deep_view(),
            selected_index: self.selected_index as int,
        }
    }
}

impl ThemeSelectorDelegateView {
    /// Whether this is the state of a picker that has just been opened: the list of
    /// the registered themes that the filter admits, all of them as matches, with
    /// the original theme selected where it is listed, and what the host holds
    /// remembered.
    pub open spec fn opened(
        self,
        filter: Option<Seq<Seq<char>>>,
        scope: ThemeSelectorScope,
        host: HostState,
    ) -> bool {
        &&& listing::is_listing(self.themes, host.registered_themes.deep_view(), filter)
        &&& self.matches == matching::all_matches(self.themes)
        &&& self.original_theme_settings == host.theme_settings@
        &&& self.original_system_appearance == host.system_appearance
        &&& self.original_window_theme == host.window_theme@
        &&& self.original_had_window_override == host.had_window_override
        &&& self.scope == scope
        &&& self.original_theme_id == text::first_index(
            matching::theme_names(self.themes),
            host.original_theme(scope).name,
        )
        &&& self.new_theme == host.original_theme(scope)
        &&& !self.selection_completed
        &&& self.selected_theme is None
        &&& self.selected_index == match self.original_theme_id {
            Some(id) => id,
            None => 0,
        }
    }

    /// The name of the match at `ix`, if there is one.
    pub open spec fn name_at(self, ix: int) -> Option<Seq<char>> {
        if 0 <= ix < self.matches.len() {
            Some(self.matches[ix].string)
        } else {
            None
        }
    }

    /// Whether the match at `ix` is the theme from before the picker was opened.
    pub open spec fn is_original(self, ix: int) -> bool {
        &&& 0 <= ix < self.matches.len()
        &&& self.original_theme_id == Some(self.matches[ix].candidate_id)
    }

    /// The effects that show `theme` while the settings in memory are `current`.
    pub open spec fn preview(self, theme: ThemeView, current: ThemeSettingsView) -> Seq<
        EffectView,
    > {
        match self.scope {
            ThemeSelectorScope::Global => {
                let shown = settings::settings_showing(
                    current,
                    theme,
                    self.original_theme_settings.theme,
                    self.original_system_appearance,
                );
                let in_settings = match shown {
                    Some(settings) => seq![EffectView::OverrideSettings(settings)],
                    None => seq![],
                };
                if self.original_had_window_override {
                    in_settings.push(EffectView::ApplyToWindow(theme))
                } else {
                    in_settings
                }
            },
            ThemeSelectorScope::Window => seq![EffectView::ApplyToWindow(theme)],
        }
    }

    /// This state with `theme` as the one that is shown.
    pub open spec fn with_new_theme(self, theme: ThemeView) -> ThemeSelectorDelegateView {
        ThemeSelectorDelegateView { new_theme: theme, ..self }
    }

    /// The effects that put the window's own override back.
    pub open spec fn window_restoration(self) -> Seq<EffectView> {
        if self.original_had_window_override {
            seq![EffectView::ApplyToWindow(self.original_window_theme)]
        } else {
            seq![]
        }
    }

    /// The effects that take back what was shown. There are none once the picker
    /// has been confirmed or reverted.
    pub open spec fn reversion(self) -> Seq<EffectView> {
        if self.selection_completed {
            seq![]
        } else {
            match self.scope {
                ThemeSelectorScope::Global => seq![
                    EffectView::OverrideSettings(self.original_theme_settings),
                ] + self.window_restoration(),
                ThemeSelectorScope::Window => if self.original_had_window_override {
                    self.window_restoration()
                } else {
                    seq![EffectView::ClearForWindow]
                },
            }
        }
    }

    /// The effects that make the shown theme the chosen one.
    pub open spec fn confirmation(self, system_appearance: Appearance, has_workspace: bool) -> Seq<
        EffectView,
    > {
        match self.scope {
            ThemeSelectorScope::Global => seq![
                EffectView::Count(ReportView::SettingsChanged { value: self.new_theme.name }),
                EffectView::UpdateSettingsFile(
                    SettingsUpdateView {
                        theme_name: self.new_theme.name,
                        theme_appearance: self.new_theme.appearance,
                        system_appearance,
                    },
                ),
            ] + self.window_restoration() + seq![EffectView::Dismiss],
            ThemeSelectorScope::Window => seq![
                EffectView::Count(ReportView::WindowThemeChanged { value: self.new_theme.name }),
                if has_workspace {
                    EffectView::SetWindowTheme(self.new_theme)
                } else {
                    EffectView::ApplyToWindow(self.new_theme)
                },
                EffectView::Dismiss,
            ],
        }
    }

    /// This state, confirmed or reverted.
    pub open spec fn completed(self) -> ThemeSelectorDelegateView {
        ThemeSelectorDelegateView { selection_completed: true, ..self }
    }

    /// The theme that the selected match shows: what loading it gave, where there
    /// is a selected match.
    pub open spec fn shown(self, loaded: Option<ThemeView>) -> Option<ThemeView> {
        if self.name_at(self.selected_index) is Some {
            loaded
        } else {
            None
        }
    }

    /// This state once the selected match, loaded as `loaded`, is shown.
    pub open spec fn after_showing(self, loaded: Option<ThemeView>) -> ThemeSelectorDelegateView {
        match self.shown(loaded) {
            Some(theme) => self.with_new_theme(theme),
            None => self,
        }
    }

    /// The effects of showing the selected match, loaded as `loaded`, while the
    /// settings in memory are `current`.
    pub open spec fn showing(self, loaded: Option<ThemeView>, current: ThemeSettingsView) -> Seq<
        EffectView,
    > {
        match self.shown(loaded) {
            Some(theme) => self.preview(theme, current),
            None => seq![],
        }
    }

    /// This state with the match at `ix` selected.
    pub open spec fn at_index(self, ix: int) -> ThemeSelectorDelegateView {
        ThemeSelectorDelegateView { selected_index: ix, ..self }
    }

    /// This state once the user has moved to `ix`, where loading the theme there
    /// gave `loaded`.
    pub open spec fn after_select(
        self,
        ix: int,
        loaded: Option<ThemeView>,
    ) -> ThemeSelectorDelegateView {
        ThemeSelectorDelegateView {
            selected_theme: self.at_index(ix).shown(loaded),
            ..self.at_index(ix).after_showing(loaded)
        }
    }

    /// Where the selection goes when `matches` are the matches of a query: to the
    /// theme that the user moved to, or to the first match where it is not among
    /// them. As long as the user has not moved, it stays where it is for the empty
    /// query, as far as there are matches, and goes to the first match for any
    /// other.
    pub open spec fn index_among(
        self,
        query: Seq<char>,
        matches: Seq<StringMatchView>,
    ) -> int {
        match self.selected_theme {
            Some(theme) => match text::first_index(matching::match_names(matches), theme.name) {
                Some(ix) => ix,
                None => 0,
            },
            None => if query.len() > 0 || matches.len() == 0 {
                0
            } else if self.selected_index < matches.len() {
                self.selected_index
            } else {
                matches.len() - 1
            },
        }
    }

    /// This state with `matches` as the matches of `query`.
    pub open spec fn with_matches(
        self,
        query: Seq<char>,
        matches: Seq<StringMatchView>,
    ) -> ThemeSelectorDelegateView {
        ThemeSelectorDelegateView {
            matches,
            selected_index: self.index_among(query, matches),
            ..self
        }
    }

    /// This state once new matches are in place and the selected one, loaded as
    /// `loaded`, is shown: a theme that the user moved to stays selected where
    /// there is nothing to show.
    pub open spec fn after_matches_shown(
        self,
        loaded: Option<ThemeView>,
    ) -> ThemeSelectorDelegateView {
        ThemeSelectorDelegateView {
            selected_theme: match self.shown(loaded) {
                Some(theme) => Some(theme),
                None => self.selected_theme,
            },
            ..self.after_showing(loaded)
        }
    }

    /// How the matches of `query` are come by.
    pub open spec fn match_request(self, query: Seq<char>) -> MatchRequestView {
        if query.len() == 0 {
            MatchRequestView::Listed(matching::all_matches(self.themes))
        } else {
            MatchRequestView::Search {
                candidates: matching::all_candidates(self.themes),
                query,
                smart_case: false,
                penalize_length: true,
                max_results: MAX_MATCHES,
            }
        }
    }

    /// Whether the theme that the user moved to, if any, is the one that is shown.
    pub open spec fn selected_is_shown(self) -> bool {
        self.selected_theme matches Some(theme) ==> theme == self.new_theme
    }

    /// What every picker keeps: its themes are in the order of the list, and the
    /// original theme, if it has a place, has it among them.
    pub open spec fn wf(self) -> bool {
        &&& listing::in_theme_order(self.themes)
        &&& self.original_theme_id matches Some(id) ==> 0 <= id < self.themes.len()
    }
}

impl ThemeSelectorDelegate {
    /// Opens a picker.
    pub fn new(
        themes_filter: Option<&Vec<String>>,
        scope: ThemeSelectorScope,
        host: HostState,
    ) -> (delegate: ThemeSelectorDelegate)
        ensures
            delegate@.opened(themes_filter.deep_view(), scope, host),
    {
        let original_window_theme = host.window_theme;
        let original_theme = match scope {
            // The global picker edits the settings, so it starts from the configured
            // theme and not from that of the window: otherwise, in a window with an
            // override, confirming at once would write the override to the settings.
            ThemeSelectorScope::Global => host.configured_theme,
            ThemeSelectorScope::Window => original_window_theme.clone(),
        };
        let themes = listing::list_themes(host.registered_themes, themes_filter);
        let original_theme_id = matching::position_of_theme(&themes, &original_theme.name);
        let matches = matching::list_matches(&themes);
        proof {
            text::lemma_first_index(
                matching::theme_names(themes.deep_view()),
                original_theme.name@,
            );
            assert(matching::match_names(matches.deep_view()) =~= matching::theme_names(
                themes.deep_view(),
            ));
        }
        // The current theme is likely in this list, so it is shown first.
        let selected_index = match matching::position_of_match(&matches, &original_theme.name) {
            Some(ix) => ix,
            None => 0,
        };
        ThemeSelectorDelegate {
            themes,
            matches,
            original_theme_settings: host.theme_settings,
            original_system_appearance: host.system_appearance,
            original_window_theme,
            original_had_window_override: host.had_window_override,
            scope,
            original_theme_id,
            new_theme: original_theme,
            selection_completed: false,
            selected_theme: None,
            selected_index,
        }
    }

    /// Whether the match at `index` is the theme from before the picker was opened.
    pub fn is_original_theme(&self, index: usize) -> (original: bool)
        ensures
            original == self@.is_original(index as int),
    {
        if index < self.matches.len() {
            match self.original_theme_id {
                Some(id) => self.matches[index].candidate_id == id,
                None => false,
            }
        } else {
            false
        }
    }

    /// The name of the theme to be loaded for the match at `index`.
    pub fn theme_name_at(&self, index: usize) -> (name: Option<String>)
        ensures
            name.deep_view() == self@.name_at(index as int),
    {
        if index < self.matches.len() {
            Some(self.matches[index].string.clone())
        } else {
            None
        }
    }

    /// Shows `new_theme` while the settings in memory are `current`.
    pub fn set_theme(&mut self, new_theme: Theme, current: &ThemeSettings) -> (effects: Vec<Effect>)
        ensures
            effects.deep_view() == old(self)@.preview(new_theme@, current@),
            final(self)@ == old(self)@.with_new_theme(new_theme@),
    {
        let mut effects: Vec<Effect> = Vec::new();
        match self.scope {
            ThemeSelectorScope::Global => {
                let overriding = settings::override_global_theme(
                    current,
                    &new_theme,
                    &self.original_theme_settings.theme,
                    self.original_system_appearance,
                );
                match overriding {
                    Some(settings) => {
                        effects.push(Effect::OverrideSettings(settings));
                    },
                    None => {},
                }
                // A window override would mask the preview, so the previewed theme is
                // painted over it; it is put back on confirm or dismiss.
                if self.original_had_window_override {
                    effects.push(Effect::ApplyToWindow(new_theme.clone()));
                }
            },
            ThemeSelectorScope::Window => {
                effects.push(Effect::ApplyToWindow(new_theme.clone()));
            },
        }
        self.new_theme = new_theme;
        assert(effects.deep_view() =~= old(self)@.preview(new_theme@, current@));
        effects
    }

    /// Shows the selected match, where loading its theme gave `loaded`, while the
    /// settings in memory are `current`. The name to load is
    /// [`theme_name_at`](Self::theme_name_at) the selected index.
    pub fn show_selected_theme(&mut self, loaded: Option<Theme>, current: &ThemeSettings) -> (shown: (
        Option<Theme>,
        Vec<Effect>,
    ))
        ensures
            shown.0.deep_view() == old(self)@.shown(loaded.deep_view()),
            shown.1.deep_view() == old(self)@.showing(loaded.deep_view(), current@),
            final(self)@ == old(self)@.after_showing(loaded.deep_view()),
    {
        if self.selected_index < self.matches.len() {
            match loaded {
                Some(theme) => {
                    let effects = self.set_theme(theme.clone(), current);
                    return (Some(theme), effects);
                },
                None => {},
            }
        }
        let effects: Vec<Effect> = Vec::new();
        assert(effects.deep_view() =~= seq![]);
        (None, effects)
    }

    /// Takes back what was shown, unless the picker has been confirmed or reverted.
    pub fn revert_theme(&mut self) -> (effects: Vec<Effect>)
        ensures
            effects.deep_view() == old(self)@.reversion(),
            final(self)@ == old(self)@.completed(),
    {
        let mut effects: Vec<Effect> = Vec::new();
        if self.selection_completed {
            assert(effects.deep_view() =~= seq![]);
            return effects;
        }
        match self.scope {
            ThemeSelectorScope::Global => {
                effects.push(Effect::OverrideSettings(self.original_theme_settings.clone()));
                self.restore_window_override(&mut effects);
            },
            ThemeSelectorScope::Window => {
                if self.original_had_window_override {
                    effects.push(Effect::ApplyToWindow(self.original_window_theme.clone()));
                } else {
                    effects.push(Effect::ClearForWindow);
                }
            },
        }
        self.selection_completed = true;
        assert(effects.deep_view() =~= old(self)@.reversion());
        effects
    }

    /// Puts back the window's own override after a preview has painted over it.
    fn restore_window_override(&self, effects: &mut Vec<Effect>)
        ensures
            final(effects).deep_view() == old(effects).deep_view() + self@.window_restoration(),
    {
        if self.original_had_window_override {
            effects.push(Effect::ApplyToWindow(self.original_window_theme.clone()));
        }
        assert(effects.deep_view() =~= old(effects).deep_view() + self@.window_restoration());
    }

    /// The name of this kind of picker.
    pub fn name() -> (name: &'static str)
        ensures
            name@ == "theme selector"@,
    {
        "theme selector"
    }

    /// What stands in the empty query field.
    pub fn placeholder_text(&self) -> (text: &'static str)
        ensures
            text@ == match self@.scope {
                ThemeSelectorScope::Global => "Select Theme..."@,
                ThemeSelectorScope::Window => "Select Window Theme..."@,
            },
    {
        match self.scope {
            ThemeSelectorScope::Global => "Select Theme...",
            ThemeSelectorScope::Window => "Select Window Theme...",
        }
    }

    /// How many matches there are.
    pub fn match_count(&self) -> (count: usize)
        ensures
            count == self@.matches.len(),
    {
        self.matches.len()
    }

    /// Makes the shown theme the chosen one, where the system now appears as
    /// `system_appearance` and the window has a workspace or not.
    pub fn confirm(&mut self, system_appearance: Appearance, has_workspace: bool) -> (effects: Vec<
        Effect,
    >)
        ensures
            effects.deep_view() == old(self)@.confirmation(system_appearance, has_workspace),
            final(self)@ == old(self)@.completed(),
    {
        self.selection_completed = true;
        let mut effects: Vec<Effect> = Vec::new();
        let theme = self.new_theme.clone();
        let theme_name = ThemeName(theme.name.clone());
        match self.scope {
            ThemeSelectorScope::Global => {
                effects.push(Effect::Count(Report::SettingsChanged { value: theme_name.clone() }));
                effects.push(
                    Effect::UpdateSettingsFile(
                        SettingsUpdate {
                            theme_name,
                            theme_appearance: theme.appearance,
                            system_appearance,
                        },
                    ),
                );
                assert(effects.deep_view() =~= seq![
                    EffectView::Count(ReportView::SettingsChanged { value: self@.new_theme.name }),
                    EffectView::UpdateSettingsFile(
                        SettingsUpdateView {
                            theme_name: self@.new_theme.name,
                            theme_appearance: self@.new_theme.appearance,
                            system_appearance,
                        },
                    ),
                ]);
                // The window's own override still wins over the new configured theme.
                self.restore_window_override(&mut effects);
            },
            ThemeSelectorScope::Window => {
                effects.push(Effect::Count(Report::WindowThemeChanged { value: theme_name }));
                if has_workspace {
                    effects.push(Effect::SetWindowTheme(theme));
                } else {
                    effects.push(Effect::ApplyToWindow(theme));
                }
            },
        }
        effects.push(Effect::Dismiss);
        assert(effects.deep_view() =~= old(self)@.confirmation(system_appearance, has_workspace));
        effects
    }

    /// Takes back what was shown, unless the picker has been confirmed or reverted,
    /// and closes the picker.
    pub fn dismissed(&mut self) -> (effects: Vec<Effect>)
        ensures
            effects.deep_view() == old(self)@.reversion().push(EffectView::Dismiss),
            final(self)@ == old(self)@.completed(),
    {
        let mut effects = self.revert_theme();
        effects.push(Effect::Dismiss);
        assert(effects.deep_view() =~= old(self)@.reversion().push(EffectView::Dismiss));
        effects
    }

    /// The place of the selected match.
    pub fn selected_index(&self) -> (ix: usize)
        ensures
            ix == self@.selected_index,
    {
        self.selected_index
    }

    /// Moves to the match at `ix`, where loading its theme gave `loaded`, while the
    /// settings in memory are `current`. The name to load is
    /// [`theme_name_at`](Self::theme_name_at) `ix`.
    pub fn set_selected_index(
        &mut self,
        ix: usize,
        loaded: Option<Theme>,
        current: &ThemeSettings,
    ) -> (effects: Vec<Effect>)
        ensures
            effects.deep_view() == old(self)@.at_index(ix as int).showing(
                loaded.deep_view(),
                current@,
            ),
            final(self)@ == old(self)@.after_select(ix as int, loaded.deep_view()),
    {
        self.selected_index = ix;
        let (shown, effects) = self.show_selected_theme(loaded, current);
        self.selected_theme = shown;
        effects
    }

    /// How the matches of `query` are come by. They then go to
    /// [`set_matches`](Self::set_matches).
    pub fn update_matches(&self, query: &String) -> (request: MatchRequest)
        ensures
            request@ == self@.match_request(query@),
    {
        if query.as_str().is_empty() {
            MatchRequest::Listed(matching::list_matches(&self.themes))
        } else {
            MatchRequest::Search {
                candidates: matching::list_candidates(&self.themes),
                query: query.clone(),
                smart_case: false,
                penalize_length: true,
                max_results: MAX_MATCHES,
            }
        }
    }

    /// Puts the matches of `query` in place and moves the selection among them.
    /// [`show_matches`](Self::show_matches) is to follow.
    pub fn set_matches(&mut self, query: &String, matches: Vec<StringMatch>)
        ensures
            final(self)@ == old(self)@.with_matches(query@, matches.deep_view()),
    {
        let ix = match &self.selected_theme {
            None => {
                if query.as_str().is_empty() {
                    let last = if matches.len() > 0 {
                        matches.len() - 1
                    } else {
                        0
                    };
                    if self.selected_index < last {
                        self.selected_index
                    } else {
                        last
                    }
                } else {
                    0
                }
            },
            Some(selected) => {
                proof {
                    text::lemma_first_index(
                        matching::match_names(matches.deep_view()),
                        selected.name@,
                    );
                }
                match matching::position_of_match(&matches, &selected.name) {
                    Some(ix) => ix,
                    None => 0,
                }
            },
        };
        self.matches = matches;
        self.selected_index = ix;
    }

    /// Shows the selected match once new matches are in place, where loading its
    /// theme gave `loaded`, while the settings in memory are `current`. The name to
    /// load is [`theme_name_at`](Self::theme_name_at) the selected index.
    pub fn show_matches(&mut self, loaded: Option<Theme>, current: &ThemeSettings) -> (effects: Vec<
        Effect,
    >)
        ensures
            effects.deep_view() == old(self)@.showing(loaded.deep_view(), current@),
            final(self)@ == old(self)@.after_matches_shown(loaded.deep_view()),
    {
        let (shown, effects) = self.show_selected_theme(loaded, current);
        // The theme that the user moved to stays when the filter yields no results.
        match shown {
            Some(theme) => {
                self.selected_theme = Some(theme);
            },
            None => {},
        }
        effects
    }

    /// The line for the match at `ix`, drawn as selected or not: its name with the
    /// query highlighted, and a check mark on the theme from before the picker was
    /// opened.
    pub fn render_match(&self, ix: usize, selected: bool) -> (item: Option<ListItem>)
        ensures
            item.deep_view() == if ix < self@.matches.len() {
                Some(
                    ListItemView {
                        id: ix as int,
                        inset: true,
                        spacing: ListItemSpacing::Sparse,
                        toggle_state: selected,
                        label: self@.matches[ix as int].string,
                        highlights: self@.matches[ix as int].positions,
                        end_slot: if self@.is_original(ix as int) {
                            Some(
                                Icon {
                                    name: IconName::Check,
                                    size: IconSize::Normal,
                                    color: IconColor::Muted,
                                },
                            )
                        } else {
                            None
                        },
                    },
                )
            } else {
                None
            },
    {
        if ix < self.matches.len() {
            let end_slot = if self.is_original_theme(ix) {
                Some(
                    Icon {
                        name: IconName::Check,
                        size: IconSize::Normal,
                        color: IconColor::Muted,
                    },
                )
            } else {
                None
            };
            let highlights = self.matches[ix].positions.clone();
            assert(highlights@ =~= self@.matches[ix as int].positions);
            Some(
                ListItem {
                    id: ix,
                    inset: true,
                    spacing: ListItemSpacing::Sparse,
                    toggle_state: selected,
                    label: self.matches[ix].string.clone(),
                    highlights,
                    end_slot,
                },
            )
        } else {
            None
        }
    }

    /// What stands below the matches: a row, set off by a line in the color of the
    /// theme's subtle borders, with a way to the documentation and a way to more themes.
    pub fn render_footer(&self) -> (footer: Option<Footer>)
        ensures
            footer matches Some(footer) && {
                &&& footer.padding == Spacing::Two
                &&& footer.width == Length::Full
                &&& footer.justify == Justify::Between
                &&& footer.gap == Spacing::Two
                &&& footer.border_top == Length::Pixels(1)
                &&& footer.border_color == ThemeColor::BorderVariant
                &&& footer.start.id@ == "docs"@
                &&& footer.start.label@ == "View Theme Docs"@
                &&& footer.start.end_icon == Some(
                    Icon {
                        name: IconName::ArrowUpRight,
                        size: IconSize::Small,
                        color: IconColor::Muted,
                    },
                )
                &&& footer.start.on_click matches FooterAction::OpenUrl(url) && url@
                    == "https://zed.dev/docs/themes"@
                &&& footer.end.id@ == "more-themes"@
                &&& footer.end.label@ == "Install Themes"@
                &&& footer.end.end_icon is None
                &&& footer.end.on_click == FooterAction::Extensions(ExtensionCategoryFilter::Themes)
            },
    {
        Some(
            Footer {
                padding: Spacing::Two,
                width: Length::Full,
                justify: Justify::Between,
                gap: Spacing::Two,
                border_top: Length::Pixels(1),
                border_color: ThemeColor::BorderVariant,
                start: FooterButton {
                    id: "docs",
                    label: "View Theme Docs",
                    end_icon: Some(
                        Icon {
                            name: IconName::ArrowUpRight,
                            size: IconSize::Small,
                            color: IconColor::Muted,
                        },
                    ),
                    on_click: FooterAction::OpenUrl("https://zed.dev/docs/themes"),
                },
                end: FooterButton {
                    id: "more-themes",
                    label: "Install Themes",
                    end_icon: None,
                    on_click: FooterAction::Extensions(ExtensionCategoryFilter::Themes),
                },
            },
        )
    }
}

} // verus!
