//! The parts of the library, one by one.
use theme_selector::appearance::{
    theme_is_transparent, window_appearance, Appearance, WindowBackgroundAppearance,
};
use theme_selector::delegate::{HostState, ThemeSelectorDelegate, ThemeSelectorScope};
use theme_selector::effect::Effect;
use theme_selector::elements::{
    ExtensionCategoryFilter, FooterAction, Icon, IconColor, IconName, IconSize, Justify, Length,
    ListItemSpacing, Spacing, ThemeColor,
};
use theme_selector::list_separator::{Div, DynamicSpacing, ListSeparator};
use theme_selector::listing::list_themes;
use theme_selector::matching::{
    list_candidates, list_matches, position_of_match, position_of_theme, MatchRequest, StringMatch,
};
use theme_selector::selector::{command_for, Action, Command, ThemeSelector};
use theme_selector::settings::{
    appearance_to_mode, override_global_theme, retain_original_opposing_theme,
    update_mode_if_new_appearance_is_different_from_system, ThemeAppearanceMode, ThemeName,
    ThemeSelection, ThemeSettings,
};
use theme_selector::text::name_not_after;
use theme_selector::theme::{Theme, ThemeMeta, ThemeStyles};

fn theme(name: &str, appearance: Appearance) -> Theme {
    Theme {
        key: 5,
        name: name.to_string(),
        appearance,
        styles: ThemeStyles { window_background_appearance: WindowBackgroundAppearance::Other },
    }
}

fn meta(name: &str, appearance: Appearance) -> ThemeMeta {
    ThemeMeta { name: name.to_string(), appearance }
}

fn name(text: &str) -> ThemeName {
    ThemeName(text.to_string())
}

fn only(text: &str) -> ThemeSelection {
    ThemeSelection::Static(name(text))
}

fn pair(mode: ThemeAppearanceMode, light: &str, dark: &str) -> ThemeSelection {
    ThemeSelection::Dynamic { mode, light: name(light), dark: name(dark) }
}

fn found(id: usize, text: &str) -> StringMatch {
    StringMatch { candidate_id: id, positions: vec![1, 3], string: text.to_string() }
}

fn host(had_window_override: bool) -> HostState {
    HostState {
        window_theme: theme("Window", Appearance::Dark),
        had_window_override,
        configured_theme: theme("Configured", Appearance::Light),
        theme_settings: ThemeSettings { theme: only("Configured"), rest: 9 },
        system_appearance: Appearance::Dark,
        registered_themes: vec![
            meta("Other", Appearance::Light),
            meta("Configured", Appearance::Light),
            meta("Window", Appearance::Dark),
        ],
    }
}

fn picker(scope: ThemeSelectorScope, had_window_override: bool) -> ThemeSelectorDelegate {
    ThemeSelectorDelegate::new(None, scope, host(had_window_override))
}

fn text_of(effects: &Vec<Effect>) -> Vec<String> {
    effects
        .iter()
        .map(|effect| match effect {
            Effect::OverrideSettings(settings) => match &settings.theme {
                ThemeSelection::Static(name) => format!("settings {} {}", name.0, settings.rest),
                ThemeSelection::Dynamic { .. } => format!("settings pair {}", settings.rest),
            },
            Effect::ApplyToWindow(theme) => format!("apply {}", theme.name),
            Effect::ClearForWindow => "clear".to_string(),
            Effect::SetWindowTheme(theme) => format!("workspace {}", theme.name),
            Effect::ClearWindowTheme => "workspace clear".to_string(),
            Effect::UpdateSettingsFile(update) => format!(
                "file {} {:?} {:?}",
                update.theme_name.0, update.theme_appearance, update.system_appearance
            ),
            Effect::Count(report) => format!("count {:?}", report),
            Effect::Dismiss => "dismiss".to_string(),
        })
        .collect()
}

#[test]
fn transparent_and_blurred_themes_are_transparent() {
    let mut subject = theme("T", Appearance::Dark);
    assert!(!theme_is_transparent(&subject));
    subject.styles.window_background_appearance = WindowBackgroundAppearance::Transparent;
    assert!(theme_is_transparent(&subject));
    assert_eq!(window_appearance(&subject), WindowBackgroundAppearance::Transparent);
    subject.styles.window_background_appearance = WindowBackgroundAppearance::Blurred;
    assert!(theme_is_transparent(&subject));
}

#[test]
fn names_are_ordered_as_strings_are() {
    let names = ["", "A", "Ab", "B", "a", "Zed", "\u{e9}", "\u{ffff}", "\u{10000}"];
    for a in names {
        for b in names {
            assert_eq!(name_not_after(a, b), a <= b, "{:?} {:?}", a, b);
        }
    }
}

#[test]
fn themes_are_listed_dark_first_and_by_name() {
    let listing = list_themes(
        vec![
            meta("Solar", Appearance::Light),
            meta("Night", Appearance::Dark),
            meta("Ash", Appearance::Light),
            meta("Night", Appearance::Dark),
            meta("Coal", Appearance::Dark),
        ],
        None,
    );
    let names: Vec<&str> = listing.iter().map(|meta| meta.name.as_str()).collect();
    assert_eq!(names, vec!["Coal", "Night", "Night", "Ash", "Solar"]);
    assert!(!listing[2].appearance.is_light());
    assert!(listing[3].appearance.is_light());
}

#[test]
fn the_list_does_not_depend_on_the_order_of_registration() {
    let forward = list_themes(
        vec![meta("A", Appearance::Light), meta("B", Appearance::Dark), meta("C", Appearance::Dark)],
        None,
    );
    let backward = list_themes(
        vec![meta("C", Appearance::Dark), meta("B", Appearance::Dark), meta("A", Appearance::Light)],
        None,
    );
    assert_eq!(format!("{:?}", forward), format!("{:?}", backward));
}

#[test]
fn a_filter_keeps_the_named_themes() {
    let filter = vec!["B".to_string(), "Missing".to_string()];
    let registered =
        || vec![meta("A", Appearance::Light), meta("B", Appearance::Dark), meta("C", Appearance::Dark)];
    let listing = list_themes(registered(), Some(&filter));
    assert_eq!(listing.len(), 1);
    assert_eq!(listing[0].name, "B");
    assert!(list_themes(registered(), Some(&Vec::new())).is_empty());
}

#[test]
fn matches_and_candidates_follow_the_list() {
    let themes = vec![meta("A", Appearance::Dark), meta("B", Appearance::Light)];
    let matches = list_matches(&themes);
    assert_eq!(matches.len(), 2);
    assert_eq!(matches[1].candidate_id, 1);
    assert_eq!(matches[1].string, "B");
    assert!(matches[1].positions.is_empty());
    let candidates = list_candidates(&themes);
    assert_eq!(candidates.len(), 2);
    assert_eq!(candidates[1].id, 1);
    assert_eq!(candidates[1].string, "B");
}

#[test]
fn positions_are_those_of_the_first_of_the_name() {
    let themes =
        vec![meta("A", Appearance::Dark), meta("B", Appearance::Dark), meta("B", Appearance::Light)];
    assert_eq!(position_of_theme(&themes, &"B".to_string()), Some(1));
    assert_eq!(position_of_theme(&themes, &"C".to_string()), None);
    let matches = vec![found(7, "X"), found(8, "Y"), found(9, "Y")];
    assert_eq!(position_of_match(&matches, &"Y".to_string()), Some(1));
    assert_eq!(position_of_match(&matches, &"Z".to_string()), None);
}

#[test]
fn the_mode_changes_only_for_the_theme_to_be_seen() {
    let mode = |mode, system, new| {
        update_mode_if_new_appearance_is_different_from_system(&mode, system, new)
    };
    let (light, dark) = (Appearance::Light, Appearance::Dark);
    assert_eq!(mode(ThemeAppearanceMode::System, dark, dark), ThemeAppearanceMode::System);
    assert_eq!(mode(ThemeAppearanceMode::System, light, light), ThemeAppearanceMode::System);
    assert_eq!(mode(ThemeAppearanceMode::System, dark, light), ThemeAppearanceMode::Light);
    assert_eq!(mode(ThemeAppearanceMode::System, light, dark), ThemeAppearanceMode::Dark);
    assert_eq!(mode(ThemeAppearanceMode::Light, dark, dark), ThemeAppearanceMode::Dark);
    assert_eq!(mode(ThemeAppearanceMode::Dark, dark, dark), ThemeAppearanceMode::Dark);
    assert_eq!(mode(ThemeAppearanceMode::Dark, dark, light), ThemeAppearanceMode::Light);
    assert_eq!(appearance_to_mode(light), ThemeAppearanceMode::Light);
    assert_eq!(appearance_to_mode(dark), ThemeAppearanceMode::Dark);
}

#[test]
fn the_opposing_theme_is_retained() {
    let made = |is_light| {
        retain_original_opposing_theme(
            is_light,
            ThemeAppearanceMode::System,
            name("New"),
            &name("Old Light"),
            &name("Old Dark"),
        )
    };
    assert_eq!(
        format!("{:?}", made(true)),
        format!("{:?}", pair(ThemeAppearanceMode::System, "New", "Old Dark"))
    );
    assert_eq!(
        format!("{:?}", made(false)),
        format!("{:?}", pair(ThemeAppearanceMode::System, "Old Light", "New"))
    );
}

#[test]
fn settings_are_overridden_within_their_kind() {
    let system = Appearance::Dark;
    let new_theme = theme("New", Appearance::Light);
    let current = |theme| ThemeSettings { theme, rest: 3 };
    let made = |now, original| override_global_theme(&current(now), &new_theme, &original, system);

    let text = |settings: Option<ThemeSettings>| format!("{:?}", settings);
    assert_eq!(text(made(only("Now"), only("Old"))), text(Some(current(only("New")))));
    assert_eq!(
        text(made(
            pair(ThemeAppearanceMode::Dark, "Now Light", "Now Dark"),
            pair(ThemeAppearanceMode::System, "Old Light", "Old Dark"),
        )),
        text(Some(current(pair(ThemeAppearanceMode::Light, "New", "Old Dark"))))
    );
    assert!(made(only("Now"), pair(ThemeAppearanceMode::Dark, "L", "D")).is_none());
    assert!(made(pair(ThemeAppearanceMode::Dark, "L", "D"), only("Old")).is_none());
}

#[test]
fn a_global_picker_starts_from_the_configured_theme() {
    let opened = picker(ThemeSelectorScope::Global, true);
    assert_eq!(opened.new_theme.name, "Configured");
    assert_eq!(opened.original_window_theme.name, "Window");
    assert!(opened.original_had_window_override);
    assert_eq!(opened.original_theme_id, Some(1));
    assert_eq!(opened.selected_index(), 1);
    assert!(opened.is_original_theme(1));
    assert!(!opened.is_original_theme(0));
    assert!(!opened.is_original_theme(3));
    assert!(!opened.selection_completed);
    assert!(opened.selected_theme.is_none());
    assert_eq!(opened.original_system_appearance, Appearance::Dark);
    assert_eq!(opened.original_theme_settings.rest, 9);
    let names: Vec<&str> = opened.themes.iter().map(|meta| meta.name.as_str()).collect();
    assert_eq!(names, vec!["Window", "Configured", "Other"]);
}

#[test]
fn a_window_picker_starts_from_the_theme_of_the_window() {
    let opened = picker(ThemeSelectorScope::Window, true);
    assert_eq!(opened.new_theme.name, "Window");
    assert_eq!(opened.selected_index(), 0);
    assert!(opened.is_original_theme(0));
}

#[test]
fn previews_go_to_the_settings_or_to_the_window() {
    let current = ThemeSettings { theme: only("Now"), rest: 4 };
    let new_theme = || theme("New", Appearance::Dark);

    let mut subject = picker(ThemeSelectorScope::Global, false);
    assert_eq!(text_of(&subject.set_theme(new_theme(), &current)), vec!["settings New 4"]);
    assert_eq!(subject.new_theme.name, "New");

    let mut subject = picker(ThemeSelectorScope::Global, true);
    assert_eq!(
        text_of(&subject.set_theme(new_theme(), &current)),
        vec!["settings New 4", "apply New"]
    );

    let mut subject = picker(ThemeSelectorScope::Window, false);
    assert_eq!(text_of(&subject.set_theme(new_theme(), &current)), vec!["apply New"]);
}

#[test]
fn a_place_without_a_match_shows_nothing() {
    let current = ThemeSettings { theme: only("Now"), rest: 4 };
    let mut subject = picker(ThemeSelectorScope::Window, false);
    assert!(subject.theme_name_at(3).is_none());
    assert_eq!(subject.theme_name_at(2), Some("Other".to_string()));
    let effects =
        subject.set_selected_index(3, Some(theme("New", Appearance::Dark)), &current);
    assert!(effects.is_empty());
    assert_eq!(subject.selected_index(), 3);
    assert!(subject.selected_theme.is_none());
    assert_eq!(subject.new_theme.name, "Window");
}

#[test]
fn a_theme_that_fails_to_load_is_not_shown() {
    let current = ThemeSettings { theme: only("Now"), rest: 4 };
    let mut subject = picker(ThemeSelectorScope::Window, false);
    let effects = subject.set_selected_index(1, Some(theme("Configured", Appearance::Light)), &current);
    assert_eq!(text_of(&effects), vec!["apply Configured"]);
    assert!(subject.selected_theme.is_some());
    let effects = subject.set_selected_index(2, None, &current);
    assert!(effects.is_empty());
    assert!(subject.selected_theme.is_none());
    assert_eq!(subject.new_theme.name, "Configured");
    let (shown, effects) = subject.show_selected_theme(None, &current);
    assert!(shown.is_none());
    assert!(effects.is_empty());
}

#[test]
fn reverting_depends_on_scope_and_override_and_happens_once() {
    let mut subject = picker(ThemeSelectorScope::Global, false);
    assert_eq!(text_of(&subject.revert_theme()), vec!["settings Configured 9"]);
    assert!(subject.selection_completed);
    assert!(subject.revert_theme().is_empty());

    let mut subject = picker(ThemeSelectorScope::Global, true);
    assert_eq!(
        text_of(&subject.revert_theme()),
        vec!["settings Configured 9", "apply Window"]
    );

    let mut subject = picker(ThemeSelectorScope::Window, false);
    assert_eq!(text_of(&subject.revert_theme()), vec!["clear"]);

    let mut subject = picker(ThemeSelectorScope::Window, true);
    assert_eq!(text_of(&subject.dismissed()), vec!["apply Window", "dismiss"]);
    assert_eq!(text_of(&subject.dismissed()), vec!["dismiss"]);
}

#[test]
fn confirming_depends_on_scope_override_and_workspace() {
    let mut subject = picker(ThemeSelectorScope::Global, true);
    assert_eq!(
        text_of(&subject.confirm(Appearance::Light, true)),
        vec![
            "count SettingsChanged { value: ThemeName(\"Configured\") }",
            "file Configured Light Light",
            "apply Window",
            "dismiss",
        ]
    );
    assert!(subject.selection_completed);
    assert!(subject.revert_theme().is_empty());

    let mut subject = picker(ThemeSelectorScope::Global, false);
    assert_eq!(
        text_of(&subject.confirm(Appearance::Dark, false)),
        vec![
            "count SettingsChanged { value: ThemeName(\"Configured\") }",
            "file Configured Light Dark",
            "dismiss",
        ]
    );

    let mut subject = picker(ThemeSelectorScope::Window, false);
    assert_eq!(
        text_of(&subject.confirm(Appearance::Dark, true)),
        vec![
            "count WindowThemeChanged { value: ThemeName(\"Window\") }",
            "workspace Window",
            "dismiss",
        ]
    );

    let mut subject = picker(ThemeSelectorScope::Window, true);
    assert_eq!(
        text_of(&subject.confirm(Appearance::Dark, false)),
        vec![
            "count WindowThemeChanged { value: ThemeName(\"Window\") }",
            "apply Window",
            "dismiss",
        ]
    );
}

#[test]
fn the_empty_query_lists_and_any_other_searches() {
    let subject = picker(ThemeSelectorScope::Global, false);
    match subject.update_matches(&String::new()) {
        MatchRequest::Listed(matches) => {
            assert_eq!(matches.len(), 3);
            assert_eq!(matches[2].string, "Other");
            assert_eq!(matches[2].candidate_id, 2);
        }
        MatchRequest::Search { .. } => panic!("the empty query needs no search"),
    }
    match subject.update_matches(&"o".to_string()) {
        MatchRequest::Listed(_) => panic!("the query needs a search"),
        MatchRequest::Search { candidates, query, smart_case, penalize_length, max_results } => {
            assert_eq!(candidates.len(), 3);
            assert_eq!(query, "o");
            assert!(!smart_case);
            assert!(penalize_length);
            assert_eq!(max_results, 100);
        }
    }
}

#[test]
fn the_selection_moves_among_new_matches() {
    let empty = String::new();
    let query = "q".to_string();
    let current = ThemeSettings { theme: only("Now"), rest: 4 };

    // As long as the user has not moved.
    let mut subject = picker(ThemeSelectorScope::Window, false);
    subject.selected_index = 2;
    subject.set_matches(&empty, vec![found(0, "A"), found(1, "B")]);
    assert_eq!(subject.selected_index(), 1);
    subject.set_matches(&empty, vec![found(0, "A"), found(1, "B"), found(2, "C")]);
    assert_eq!(subject.selected_index(), 1);
    subject.set_matches(&query, vec![found(0, "A"), found(1, "B"), found(2, "C")]);
    assert_eq!(subject.selected_index(), 0);
    subject.selected_index = 2;
    subject.set_matches(&empty, Vec::new());
    assert_eq!(subject.selected_index(), 0);

    // Once the user has moved to a theme.
    subject.selected_theme = Some(theme("B", Appearance::Dark));
    subject.set_matches(&query, vec![found(0, "A"), found(1, "B"), found(2, "B")]);
    assert_eq!(subject.selected_index(), 1);
    subject.set_matches(&query, vec![found(0, "A"), found(2, "C")]);
    assert_eq!(subject.selected_index(), 0);
    let effects = subject.show_matches(None, &current);
    assert!(effects.is_empty());
    assert_eq!(subject.selected_theme.as_ref().map(|theme| theme.name.as_str()), Some("B"));
    let effects = subject.show_matches(Some(theme("A", Appearance::Dark)), &current);
    assert_eq!(text_of(&effects), vec!["apply A"]);
    assert_eq!(subject.selected_theme.as_ref().map(|theme| theme.name.as_str()), Some("A"));
}

#[test]
fn matches_are_drawn_with_their_highlights() {
    let mut subject = picker(ThemeSelectorScope::Global, false);
    subject.set_matches(&"q".to_string(), vec![found(0, "Window"), found(1, "Configured")]);
    let item = subject.render_match(1, true).expect("there is a match");
    assert_eq!(item.id, 1);
    assert!(item.inset);
    assert_eq!(item.spacing, ListItemSpacing::Sparse);
    assert!(item.toggle_state);
    assert_eq!(item.label, "Configured");
    assert_eq!(item.highlights, vec![1, 3]);
    assert_eq!(
        item.end_slot,
        Some(Icon { name: IconName::Check, size: IconSize::Normal, color: IconColor::Muted })
    );
    let item = subject.render_match(0, false).expect("there is a match");
    assert!(!item.toggle_state);
    assert_eq!(item.end_slot, None);
    assert!(subject.render_match(2, false).is_none());
}

#[test]
fn the_footer_leads_to_docs_and_themes() {
    let footer = picker(ThemeSelectorScope::Global, false)
        .render_footer()
        .expect("there is a footer");
    assert_eq!((footer.padding, footer.gap), (Spacing::Two, Spacing::Two));
    assert_eq!((footer.width, footer.justify), (Length::Full, Justify::Between));
    assert_eq!(footer.border_top, Length::Pixels(1));
    assert_eq!(footer.border_color, ThemeColor::BorderVariant);
    assert_eq!((footer.start.id, footer.start.label), ("docs", "View Theme Docs"));
    assert!(matches!(
        footer.start.on_click,
        FooterAction::OpenUrl("https://zed.dev/docs/themes")
    ));
    assert_eq!((footer.end.id, footer.end.label), ("more-themes", "Install Themes"));
    assert!(matches!(
        footer.end.on_click,
        FooterAction::Extensions(ExtensionCategoryFilter::Themes)
    ));
    assert_eq!(footer.end.end_icon, None);
    assert_eq!(footer.start.end_icon.map(|icon| icon.name), Some(IconName::ArrowUpRight));
}

#[test]
fn the_frame_is_wide_and_named() {
    let frame = ThemeSelector::new(picker(ThemeSelectorScope::Global, false)).render();
    assert_eq!(frame.key_context, "ThemeSelector");
    assert_eq!(frame.width, Length::Rems(34));
}

#[test]
fn texts_depend_on_the_scope() {
    assert_eq!(ThemeSelectorDelegate::name(), "theme selector");
    assert_eq!(picker(ThemeSelectorScope::Global, false).placeholder_text(), "Select Theme...");
    assert_eq!(
        picker(ThemeSelectorScope::Window, false).placeholder_text(),
        "Select Window Theme..."
    );
    assert_eq!(picker(ThemeSelectorScope::Window, false).match_count(), 3);
}

#[test]
fn actions_become_commands() {
    let filter = || Some(vec!["A".to_string()]);
    match command_for(Action::ToggleThemeSelector { themes_filter: filter() }) {
        Command::ToggleThemeSelector { themes_filter, scope } => {
            assert_eq!(themes_filter, filter());
            assert_eq!(scope, ThemeSelectorScope::Global);
        }
        _ => panic!("expected a theme picker"),
    }
    match command_for(Action::ToggleWindowTheme { themes_filter: None }) {
        Command::ToggleThemeSelector { themes_filter, scope } => {
            assert_eq!(themes_filter, None);
            assert_eq!(scope, ThemeSelectorScope::Window);
        }
        _ => panic!("expected a theme picker"),
    }
    match command_for(Action::ToggleIconThemeSelector { themes_filter: filter() }) {
        Command::ToggleIconThemeSelector { themes_filter } => assert_eq!(themes_filter, filter()),
        _ => panic!("expected a picker of icon themes"),
    }
    assert!(matches!(
        command_for(Action::ClearWindowTheme),
        Command::Perform(Effect::ClearWindowTheme)
    ));
}

#[test]
fn separators_are_thin_lines() {
    assert_eq!(
        ListSeparator.render(),
        Div {
            height: Length::Pixels(1),
            width: Length::Full,
            margin_y: DynamicSpacing::Base06,
            background: ThemeColor::BorderVariant,
        }
    );
}
