//! Whole sessions, on a host that carries the effects out.
use theme_selector::appearance::{Appearance, WindowBackgroundAppearance};
use theme_selector::delegate::{HostState, ThemeSelectorDelegate, ThemeSelectorScope};
use theme_selector::effect::{Effect, SettingsUpdate};
use theme_selector::matching::{MatchRequest, StringMatch, StringMatchCandidate};
use theme_selector::selector::{command_for, Action, Command, DismissDecision, ThemeSelector};
use theme_selector::settings::{ThemeAppearanceMode, ThemeName, ThemeSelection, ThemeSettings};
use theme_selector::theme::{Theme, ThemeMeta, ThemeStyles};

struct Host {
    registry: Vec<Theme>,
    settings: ThemeSettings,
    system_appearance: Appearance,
    window_override: Option<Theme>,
    has_workspace: bool,
    theme_override: Option<String>,
    file_updates: Vec<SettingsUpdate>,
    reports: usize,
    open: bool,
}

fn theme(key: u64, name: &str, appearance: Appearance) -> Theme {
    Theme {
        key,
        name: name.to_string(),
        appearance,
        styles: ThemeStyles { window_background_appearance: WindowBackgroundAppearance::Other },
    }
}

fn only(name: &str) -> ThemeSelection {
    ThemeSelection::Static(ThemeName(name.to_string()))
}

fn pair(mode: ThemeAppearanceMode, light: &str, dark: &str) -> ThemeSelection {
    ThemeSelection::Dynamic {
        mode,
        light: ThemeName(light.to_string()),
        dark: ThemeName(dark.to_string()),
    }
}

fn setup_test() -> Host {
    Host {
        registry: vec![
            theme(1, "One Dark", Appearance::Dark),
            theme(2, "Test Light", Appearance::Light),
            theme(3, "Test Dark A", Appearance::Dark),
            theme(4, "Test Dark B", Appearance::Dark),
        ],
        settings: ThemeSettings { theme: only("One Dark"), rest: 11 },
        system_appearance: Appearance::Dark,
        window_override: None,
        has_workspace: true,
        theme_override: None,
        file_updates: Vec::new(),
        reports: 0,
        open: false,
    }
}

impl Host {
    fn load(&self, name: &str) -> Option<Theme> {
        self.registry.iter().find(|theme| theme.name == name).cloned()
    }

    fn configured_theme(&self) -> Theme {
        let name = match &self.settings.theme {
            ThemeSelection::Static(name) => &name.0,
            ThemeSelection::Dynamic { mode, light, dark } => {
                let is_light = match mode {
                    ThemeAppearanceMode::Light => true,
                    ThemeAppearanceMode::Dark => false,
                    ThemeAppearanceMode::System => self.system_appearance == Appearance::Light,
                };
                if is_light {
                    &light.0
                } else {
                    &dark.0
                }
            }
        };
        self.load(name).expect("the configured theme should be registered")
    }

    fn window_theme(&self) -> Theme {
        match &self.window_override {
            Some(theme) => theme.clone(),
            None => self.configured_theme(),
        }
    }

    fn perform(&mut self, effects: Vec<Effect>) {
        for effect in effects {
            match effect {
                Effect::OverrideSettings(settings) => self.settings = settings,
                Effect::ApplyToWindow(theme) => self.window_override = Some(theme),
                Effect::ClearForWindow => self.window_override = None,
                Effect::SetWindowTheme(theme) => {
                    self.theme_override = Some(theme.name.clone());
                    self.window_override = Some(theme);
                }
                Effect::ClearWindowTheme => {
                    self.theme_override = None;
                    self.window_override = None;
                }
                Effect::UpdateSettingsFile(update) => self.file_updates.push(update),
                Effect::Count(_) => self.reports += 1,
                Effect::Dismiss => self.open = false,
            }
        }
    }

    fn run(&mut self, action: Action) -> Option<ThemeSelector> {
        match command_for(action) {
            Command::ToggleThemeSelector { themes_filter, scope } => {
                let state = HostState {
                    window_theme: self.window_theme(),
                    had_window_override: self.window_override.is_some(),
                    configured_theme: self.configured_theme(),
                    theme_settings: self.settings.clone(),
                    system_appearance: self.system_appearance,
                    registered_themes: self
                        .registry
                        .iter()
                        .map(|theme| ThemeMeta {
                            name: theme.name.clone(),
                            appearance: theme.appearance,
                        })
                        .collect(),
                };
                self.open = true;
                Some(ThemeSelector::new(ThemeSelectorDelegate::new(
                    themes_filter.as_ref(),
                    scope,
                    state,
                )))
            }
            Command::ToggleIconThemeSelector { .. } => None,
            Command::Perform(effect) => {
                self.perform(vec![effect]);
                None
            }
        }
    }

    fn open_theme_selector(&mut self) -> ThemeSelector {
        self.run(Action::ToggleThemeSelector { themes_filter: None })
            .expect("theme selector should be open")
    }

    fn open_window_theme_selector(&mut self) -> ThemeSelector {
        self.run(Action::ToggleWindowTheme { themes_filter: None })
            .expect("theme selector should be open")
    }

    fn select(&mut self, picker: &mut ThemeSelectorDelegate, name: &str) {
        let target_index = picker
            .matches
            .iter()
            .position(|m| m.string == name)
            .expect("theme should be in the match list");
        let loaded = picker.theme_name_at(target_index).and_then(|name| self.load(&name));
        let effects = picker.set_selected_index(target_index, loaded, &self.settings);
        self.perform(effects);
    }

    fn confirm(&mut self, picker: &mut ThemeSelectorDelegate) {
        let effects = picker.confirm(self.system_appearance, self.has_workspace);
        self.perform(effects);
    }

    fn select_and_confirm(&mut self, picker: &mut ThemeSelectorDelegate, name: &str) {
        self.select(picker, name);
        self.confirm(picker);
    }

    fn update_matches(&mut self, picker: &mut ThemeSelectorDelegate, query: &str) {
        let query = query.to_string();
        let matches = match picker.update_matches(&query) {
            MatchRequest::Listed(matches) => matches,
            MatchRequest::Search { candidates, query, max_results, .. } => {
                search(&candidates, &query, max_results)
            }
        };
        picker.set_matches(&query, matches);
        let loaded = picker
            .theme_name_at(picker.selected_index())
            .and_then(|name| self.load(&name));
        let effects = picker.show_matches(loaded, &self.settings);
        self.perform(effects);
    }
}

fn search(
    candidates: &[StringMatchCandidate],
    query: &str,
    max_results: usize,
) -> Vec<StringMatch> {
    candidates
        .iter()
        .filter_map(|candidate| {
            candidate.string.find(query).map(|start| StringMatch {
                candidate_id: candidate.id,
                positions: (start..start + query.len()).collect(),
                string: candidate.string.clone(),
            })
        })
        .take(max_results)
        .collect()
}

fn selected_is_shown(picker: &ThemeSelectorDelegate) -> bool {
    match &picker.selected_theme {
        Some(theme) => theme.key == picker.new_theme.key,
        None => true,
    }
}

fn selected_theme_name(picker: &ThemeSelectorDelegate) -> String {
    picker
        .matches
        .get(picker.selected_index)
        .expect("selected index should point to a match")
        .string
        .clone()
}

fn previewed_theme_name(picker: &ThemeSelectorDelegate) -> String {
    picker.new_theme.name.to_string()
}

fn settings_text(settings: &ThemeSettings) -> String {
    format!("{:?}", settings)
}

#[test]
fn test_window_theme_selection_and_clear() {
    let mut host = setup_test();
    let global_theme = host.configured_theme().name;

    let mut selector = host.open_window_theme_selector();
    host.select_and_confirm(&mut selector.delegate, "Test Dark A");

    assert_eq!(
        host.window_theme().name,
        "Test Dark A",
        "confirming a window-scoped selection should override the window theme"
    );
    assert_eq!(
        host.configured_theme().name,
        global_theme,
        "a window-scoped selection must not change the configured theme"
    );
    assert_eq!(host.theme_override, Some("Test Dark A".to_string()));

    assert!(host.run(Action::ClearWindowTheme).is_none());

    assert_eq!(
        host.window_theme().name,
        global_theme,
        "clearing the override should restore the configured theme"
    );
    assert!(host.theme_override.is_none());
}

#[test]
fn test_window_theme_dismiss_reverts_preview() {
    let mut host = setup_test();
    let original_theme = host.window_theme().name;

    let mut selector = host.open_window_theme_selector();
    host.select(&mut selector.delegate, "Test Dark B");

    assert_eq!(
        host.window_theme().name,
        "Test Dark B",
        "selection should preview in the window"
    );

    let effects = selector.delegate.dismissed();
    host.perform(effects);

    assert_eq!(
        host.window_theme().name,
        original_theme,
        "dismissing without confirming should revert the window theme"
    );
}

#[test]
fn test_theme_selector_preserves_selection_on_empty_filter() {
    let mut host = setup_test();
    let mut selector = host.open_theme_selector();
    let picker = &mut selector.delegate;

    host.select(picker, "Test Light");
    assert_eq!(previewed_theme_name(picker), "Test Light");

    host.update_matches(picker, "zzz");
    assert_eq!(picker.match_count(), 0);
    assert_eq!(picker.selected_index(), 0);
    assert_eq!(previewed_theme_name(picker), "Test Light");

    host.update_matches(picker, "");

    assert_eq!(
        selected_theme_name(picker),
        "Test Light",
        "selected theme should be preserved after clearing an empty filter"
    );
    assert_eq!(
        previewed_theme_name(picker),
        "Test Light",
        "previewed theme should be preserved after clearing an empty filter"
    );
}

#[test]
fn dismissing_a_global_picker_takes_settings_and_override_back() {
    let mut host = setup_test();
    host.settings.theme = pair(ThemeAppearanceMode::System, "Test Light", "One Dark");
    host.window_override = Some(theme(4, "Test Dark B", Appearance::Dark));
    let settings = settings_text(&host.settings);

    let mut selector = host.open_theme_selector();
    host.select(&mut selector.delegate, "Test Light");
    host.select(&mut selector.delegate, "Test Dark A");
    assert_eq!(host.window_theme().name, "Test Dark A");
    assert_eq!(host.configured_theme().name, "Test Dark A");

    let (decision, effects) = selector.on_before_dismiss();
    host.perform(effects);
    assert_eq!(decision, DismissDecision::Dismiss(true));
    assert_eq!(settings_text(&host.settings), settings);
    assert_eq!(host.window_theme().name, "Test Dark B");
    assert_eq!(host.configured_theme().name, "One Dark");
    assert!(host.file_updates.is_empty());
    assert_eq!(host.reports, 0);
}

#[test]
fn dismissing_a_global_picker_takes_edits_by_others_back() {
    let mut host = setup_test();
    let settings = settings_text(&host.settings);
    let mut selector = host.open_theme_selector();
    host.settings = ThemeSettings {
        theme: pair(ThemeAppearanceMode::Dark, "Test Light", "Test Dark A"),
        rest: 12,
    };
    let edited = settings_text(&host.settings);

    // One theme has become a pair, so the preview leaves the settings alone.
    host.select(&mut selector.delegate, "Test Light");
    assert_eq!(settings_text(&host.settings), edited);
    assert_eq!(previewed_theme_name(&selector.delegate), "Test Light");

    let effects = selector.delegate.dismissed();
    host.perform(effects);
    assert_eq!(settings_text(&host.settings), settings);
    assert!(!host.open);
}

#[test]
fn dismissing_a_window_picker_keeps_edits_by_others() {
    let mut host = setup_test();
    let mut selector = host.open_window_theme_selector();
    host.select(&mut selector.delegate, "Test Dark A");
    host.settings = ThemeSettings { theme: only("Test Dark B"), rest: 12 };
    let edited = settings_text(&host.settings);
    let effects = selector.delegate.dismissed();
    host.perform(effects);
    assert_eq!(settings_text(&host.settings), edited);
    assert_eq!(host.window_theme().name, "Test Dark B");
}

#[test]
fn dismissing_a_window_picker_puts_an_override_back() {
    let mut host = setup_test();
    host.window_override = Some(theme(2, "Test Light", Appearance::Light));
    let mut selector = host.open_window_theme_selector();
    assert_eq!(selected_theme_name(&selector.delegate), "Test Light");
    host.select(&mut selector.delegate, "Test Dark A");
    let effects = selector.delegate.dismissed();
    host.perform(effects);
    assert_eq!(host.window_theme().name, "Test Light");
    assert_eq!(host.window_theme().key, 2);
}

#[test]
fn confirming_a_global_picker_writes_the_file_and_keeps_the_override() {
    let mut host = setup_test();
    host.window_override = Some(theme(4, "Test Dark B", Appearance::Dark));
    let mut selector = host.open_theme_selector();
    host.select_and_confirm(&mut selector.delegate, "Test Light");
    assert_eq!(host.window_theme().name, "Test Dark B");
    assert_eq!(host.file_updates.len(), 1);
    assert_eq!(host.file_updates[0].theme_name.0, "Test Light");
    assert_eq!(host.file_updates[0].theme_appearance, Appearance::Light);
    assert_eq!(host.file_updates[0].system_appearance, Appearance::Dark);
    assert_eq!(host.reports, 1);
    assert!(!host.open);

    // Closing afterwards takes nothing back.
    let (_, effects) = selector.on_before_dismiss();
    assert!(effects.is_empty());
}

#[test]
fn confirming_a_global_picker_at_once_writes_the_configured_theme() {
    let mut host = setup_test();
    host.window_override = Some(theme(4, "Test Dark B", Appearance::Dark));
    let mut selector = host.open_theme_selector();
    assert_eq!(selected_theme_name(&selector.delegate), "One Dark");
    host.confirm(&mut selector.delegate);
    assert_eq!(host.file_updates.len(), 1);
    assert_eq!(host.file_updates[0].theme_name.0, "One Dark");
    assert_eq!(host.window_theme().name, "Test Dark B");
}

#[test]
fn confirming_a_window_picker_without_a_workspace_overrides_the_window() {
    let mut host = setup_test();
    host.has_workspace = false;
    let mut selector = host.open_window_theme_selector();
    host.select_and_confirm(&mut selector.delegate, "Test Light");
    assert_eq!(host.window_theme().name, "Test Light");
    assert!(host.theme_override.is_none());
    assert!(host.file_updates.is_empty());
    assert_eq!(host.configured_theme().name, "One Dark");
}

#[test]
fn the_last_previewed_theme_counts() {
    let mut one = setup_test();
    one.settings.theme = pair(ThemeAppearanceMode::System, "Test Light", "One Dark");
    let mut two = setup_test();
    two.settings.theme = pair(ThemeAppearanceMode::System, "Test Light", "One Dark");
    let mut first = one.open_theme_selector();
    let mut second = two.open_theme_selector();
    one.select(&mut first.delegate, "Test Dark B");
    one.select(&mut first.delegate, "Test Light");
    two.select(&mut second.delegate, "Test Light");
    assert_eq!(settings_text(&one.settings), settings_text(&two.settings));
    assert_eq!(
        settings_text(&one.settings),
        settings_text(&ThemeSettings {
            theme: pair(ThemeAppearanceMode::Light, "Test Light", "One Dark"),
            rest: 11,
        })
    );
}

#[test]
fn a_filter_without_the_original_theme_marks_no_theme() {
    let mut host = setup_test();
    let selector = host
        .run(Action::ToggleThemeSelector {
            themes_filter: Some(vec!["Test Light".to_string(), "Test Dark A".to_string()]),
        })
        .expect("theme selector should be open");
    let picker = &selector.delegate;
    assert_eq!(picker.match_count(), 2);
    assert_eq!(picker.original_theme_id, None);
    assert_eq!(picker.selected_index(), 0);
    assert_eq!(selected_theme_name(picker), "Test Dark A");
    assert!(!picker.is_original_theme(0));
    assert!(!picker.is_original_theme(1));
    assert_eq!(picker.scope, ThemeSelectorScope::Global);
}

#[test]
fn a_query_moves_to_the_first_match_and_back() {
    let mut host = setup_test();
    let mut selector = host.open_theme_selector();
    let picker = &mut selector.delegate;
    host.update_matches(picker, "Dark B");
    assert_eq!(picker.match_count(), 1);
    assert_eq!(selected_theme_name(picker), "Test Dark B");
    assert_eq!(picker.matches[0].candidate_id, 2);
    assert_eq!(picker.matches[0].positions, vec![5, 6, 7, 8, 9, 10]);
    assert_eq!(host.configured_theme().name, "Test Dark B");
    host.update_matches(picker, "");
    assert_eq!(picker.match_count(), 4);
    assert_eq!(selected_theme_name(picker), "Test Dark B");
    assert_eq!(picker.selected_index(), 2);
}

#[test]
fn the_selected_theme_is_the_shown_one_after_any_move() {
    let mut host = setup_test();
    let mut selector = host.open_theme_selector();
    let picker = &mut selector.delegate;
    assert!(selected_is_shown(picker));
    host.select(picker, "Test Light");
    assert!(selected_is_shown(picker) && picker.selected_theme.is_some());
    for query in ["Dark A", "zzz", "", "Test"] {
        host.update_matches(picker, query);
        assert!(selected_is_shown(picker), "{:?}", query);
    }
    // A theme that fails to load is no longer selected, and the shown one stays.
    let shown = picker.new_theme.key;
    let effects = picker.set_selected_index(0, None, &host.settings);
    host.perform(effects);
    assert!(picker.selected_theme.is_none());
    assert_eq!(picker.new_theme.key, shown);
}

#[test]
fn the_check_mark_follows_the_original_theme_through_filtering() {
    let mut host = setup_test();
    let mut selector = host.open_theme_selector();
    let picker = &mut selector.delegate;
    for query in ["Dark", "One", "Light", "zzz", "", "Test"] {
        host.update_matches(picker, query);
        for ix in 0..5 {
            let marked = picker.is_original_theme(ix);
            let name = picker.theme_name_at(ix);
            assert_eq!(marked, name == Some("One Dark".to_string()), "{:?} {}", query, ix);
            if let Some(item) = picker.render_match(ix, false) {
                assert_eq!(item.end_slot.is_some(), marked);
            }
        }
    }
}

#[test]
fn a_direct_preview_is_taken_back_too() {
    let mut host = setup_test();
    host.window_override = Some(theme(4, "Test Dark B", Appearance::Dark));
    let settings = settings_text(&host.settings);
    let mut selector = host.open_theme_selector();
    let effects =
        selector.delegate.set_theme(theme(2, "Test Light", Appearance::Light), &host.settings);
    host.perform(effects);
    assert_eq!(host.window_theme().name, "Test Light");
    assert!(selector.delegate.selected_theme.is_none());
    let effects = selector.delegate.revert_theme();
    host.perform(effects);
    assert_eq!(settings_text(&host.settings), settings);
    assert_eq!(host.window_theme().name, "Test Dark B");
    assert!(host.open);
}
