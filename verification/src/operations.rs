//! What the operations on names, lists and settings do, read off what they are given and
//! what they give back.
use vstd::prelude::*;

use crate::appearance;
use crate::appearance::{Appearance, WindowBackgroundAppearance};
use crate::delegate::ThemeSelectorScope;
use crate::effect::Effect;
use crate::elements::{Length, ThemeColor};
use crate::laws;
use crate::list_separator::{Div, DynamicSpacing, ListSeparator};
use crate::listing;
use crate::matching;
use crate::matching::{StringMatch, StringMatchCandidate};
use crate::selector;
use crate::selector::{Action, Command};
use crate::settings;
use crate::settings::{ThemeAppearanceMode, ThemeName, ThemeSelection, ThemeSettings};
use crate::text;
use crate::theme::{Theme, ThemeMeta, ThemeMetaView};

verus! {

// The order of names and the list of themes.

/// Of two names that agree before `i` and differ there, the first is not after the
/// second if and only if it has the character of the smaller code point.
pub proof fn names_are_ordered_where_they_differ(a: &str, b: &str, leq: bool, i: int)
    requires
        call_ensures(text::name_not_after, (a, b), leq),
        0 <= i < a@.len(),
        i < b@.len(),
        forall|j: int| 0 <= j < i ==> a@[j] == b@[j],
        a@[i] != b@[i],
    ensures
        leq <==> (a@[i] as int) < (b@[i] as int),
{
    text::lemma_name_leq_where_names_differ(a@, b@, i);
}

/// A name is not after a name that starts with it, and is after every shorter one that
/// it starts with.
pub proof fn names_are_before_their_extensions(a: &str, b: &str, leq: bool)
    requires
        call_ensures(text::name_not_after, (a, b), leq),
        forall|j: int| 0 <= j < a@.len() && j < b@.len() ==> a@[j] == b@[j],
    ensures
        leq <==> a@.len() <= b@.len(),
{
    if a@.len() <= b@.len() {
        text::lemma_name_leq_of_extension(a@, b@);
    } else {
        text::lemma_name_leq_of_extension(b@, a@);
    }
}

/// In a list in order, of two themes of one appearance whose names agree before `i` and
/// differ there, the one with the character of the smaller code point stands first; and
/// of two of which one name starts with the other, the longer does not.
pub proof fn listed_names_ascend(themes: Seq<ThemeMetaView>, p: int, q: int, i: int)
    requires
        listing::in_theme_order(themes),
        0 <= p < q < themes.len(),
        themes[p].appearance == themes[q].appearance,
        0 <= i <= themes[p].name.len(),
        i <= themes[q].name.len(),
        forall|j: int| 0 <= j < i ==> themes[p].name[j] == themes[q].name[j],
    ensures
        i < themes[p].name.len() && i < themes[q].name.len() && themes[p].name[i]
            != themes[q].name[i] ==> (themes[p].name[i] as int) < (themes[q].name[i] as int),
        i == themes[q].name.len() ==> themes[p].name.len() == i,
{
    let a = themes[p].name;
    let b = themes[q].name;
    assert(listing::theme_leq(themes[p], themes[q]));
    if i < a.len() && i < b.len() && a[i] != b[i] {
        text::lemma_name_leq_where_names_differ(a, b, i);
    }
    if i == b.len() {
        text::lemma_name_leq_of_extension(b, a);
    }
}

/// In a list in order, no light theme stands before a dark one.
pub proof fn listed_appearances_ascend(themes: Seq<ThemeMetaView>, p: int, q: int)
    requires
        listing::in_theme_order(themes),
        0 <= p < q < themes.len(),
        themes[q].appearance is Dark,
    ensures
        themes[p].appearance is Dark,
{
    assert(listing::theme_leq(themes[p], themes[q]));
}

/// How often a theme is listed: as often as it is registered if there is no filter or
/// one that holds its name, and otherwise not at all.
pub proof fn listed_as_often_as_registered(
    themes: Seq<ThemeMetaView>,
    registered: Seq<ThemeMetaView>,
    filter: Option<Seq<Seq<char>>>,
    meta: ThemeMetaView,
)
    requires
        listing::is_listing(themes, registered, filter),
    ensures
        filter is None ==> themes.to_multiset().count(meta) == registered.to_multiset().count(meta),
        filter matches Some(names) ==> themes.to_multiset().count(meta) == if names.contains(
            meta.name,
        ) {
            registered.to_multiset().count(meta)
        } else {
            0
        },
{
    laws::lemma_filter_multiset(registered, filter);
}

/// The list of themes: a theme is listed if and only if it is registered and, where there
/// is a filter, the filter holds its name; each as often as it is registered.
pub proof fn list_themes_keeps_the_named_themes(
    registered: Vec<ThemeMeta>,
    themes_filter: Option<&Vec<String>>,
    themes: Vec<ThemeMeta>,
    meta: ThemeMetaView,
)
    requires
        call_ensures(listing::list_themes, (registered, themes_filter), themes),
    ensures
        themes_filter is None ==> (themes.deep_view().contains(meta)
            <==> registered.deep_view().contains(meta)),
        themes_filter matches Some(names) ==> (themes.deep_view().contains(meta)
            <==> registered.deep_view().contains(meta) && names.deep_view().contains(meta.name)),
        themes.deep_view().contains(meta) ==> themes.deep_view().to_multiset().count(meta)
            == registered.deep_view().to_multiset().count(meta),
{
    listed_as_often_as_registered(
        themes.deep_view(),
        registered.deep_view(),
        themes_filter.deep_view(),
        meta,
    );
    vstd::seq_lib::to_multiset_contains(themes.deep_view(), meta);
    vstd::seq_lib::to_multiset_contains(registered.deep_view(), meta);
}

/// The list of themes is in order: dark before light, and among themes of one appearance
/// by the first character in which the names differ, shorter names first.
pub proof fn list_themes_sorts(
    registered: Vec<ThemeMeta>,
    themes_filter: Option<&Vec<String>>,
    themes: Vec<ThemeMeta>,
    p: int,
    q: int,
    i: int,
)
    requires
        call_ensures(listing::list_themes, (registered, themes_filter), themes),
        0 <= p < q < themes@.len(),
        0 <= i <= themes@[p].name@.len(),
        i <= themes@[q].name@.len(),
        forall|j: int| 0 <= j < i ==> themes@[p].name@[j] == themes@[q].name@[j],
    ensures
        themes@[q].appearance is Dark ==> themes@[p].appearance is Dark,
        themes@[p].appearance == themes@[q].appearance && i < themes@[p].name@.len() && i
            < themes@[q].name@.len() && themes@[p].name@[i] != themes@[q].name@[i] ==> (
        themes@[p].name@[i] as int) < (themes@[q].name@[i] as int),
        themes@[p].appearance == themes@[q].appearance && i == themes@[q].name@.len()
            ==> themes@[p].name@.len() == i,
{
    let views = themes.deep_view();
    assert(views[p] == themes@[p]@ && views[q] == themes@[q]@);
    if views[q].appearance is Dark {
        listed_appearances_ascend(views, p, q);
    }
    if views[p].appearance == views[q].appearance {
        listed_names_ascend(views, p, q, i);
    }
}

// Matches and candidates.

/// Listing the matches gives one for each theme, at its place and under its name, with
/// nothing highlighted.
pub proof fn list_matches_lists_all(themes: &Vec<ThemeMeta>, matches: Vec<StringMatch>, i: int)
    requires
        call_ensures(matching::list_matches, (themes,), matches),
    ensures
        matches@.len() == themes@.len(),
        0 <= i < themes@.len() ==> {
            &&& matches@[i].candidate_id == i
            &&& matches@[i].string@ == themes@[i].name@
            &&& matches@[i].positions@.len() == 0
        },
{
    assert(matches.deep_view().len() == themes.deep_view().len());
    if 0 <= i < themes@.len() {
        assert(matches.deep_view()[i] == matches@[i]@);
        assert(themes.deep_view()[i] == themes@[i]@);
    }
}

/// Listing the candidates gives one for each theme, at its place and under its name.
pub proof fn list_candidates_lists_all(
    themes: &Vec<ThemeMeta>,
    candidates: Vec<StringMatchCandidate>,
    i: int,
)
    requires
        call_ensures(matching::list_candidates, (themes,), candidates),
    ensures
        candidates@.len() == themes@.len(),
        0 <= i < themes@.len() ==> {
            &&& candidates@[i].id == i
            &&& candidates@[i].string@ == themes@[i].name@
        },
{
    assert(candidates.deep_view().len() == themes.deep_view().len());
    if 0 <= i < themes@.len() {
        assert(candidates.deep_view()[i] == candidates@[i]@);
        assert(themes.deep_view()[i] == themes@[i]@);
    }
}

/// The position of a theme is the first place of its name; there is none only if no
/// theme has the name.
pub proof fn position_of_theme_is_the_first(
    themes: &Vec<ThemeMeta>,
    name: &String,
    position: Option<usize>,
    j: int,
)
    requires
        call_ensures(matching::position_of_theme, (themes, name), position),
    ensures
        position matches Some(i) ==> i < themes@.len() && themes@[i as int].name@ == name@,
        0 <= j < themes@.len() && themes@[j].name@ == name@ ==> position is Some && position->0 <= j,
{
    let names = matching::theme_names(themes.deep_view());
    text::lemma_first_index(names, name@);
    if 0 <= j < themes@.len() {
        assert(names[j] == themes@[j].name@);
    }
    if let Some(i) = position {
        assert(names[i as int] == themes@[i as int].name@);
    }
}

/// The position of a match is the first place of its name; there is none only if no
/// match has the name.
pub proof fn position_of_match_is_the_first(
    matches: &Vec<StringMatch>,
    name: &String,
    position: Option<usize>,
    j: int,
)
    requires
        call_ensures(matching::position_of_match, (matches, name), position),
    ensures
        position matches Some(i) ==> i < matches@.len() && matches@[i as int].string@ == name@,
        0 <= j < matches@.len() && matches@[j].string@ == name@ ==> position is Some && position->0 <= j,
{
    let names = matching::match_names(matches.deep_view());
    text::lemma_first_index(names, name@);
    if 0 <= j < matches@.len() {
        assert(names[j] == matches@[j].string@);
    }
    if let Some(i) = position {
        assert(names[i as int] == matches@[i as int].string@);
    }
}

// Appearances and settings.

/// Light is light and dark is not.
pub proof fn only_light_is_light(appearance: &Appearance, light: bool)
    requires
        call_ensures(Appearance::is_light, (appearance,), light),
    ensures
        light <==> *appearance == Appearance::Light,
{
}

/// The window background is the one that the theme's styles hold.
pub proof fn window_appearance_is_of_the_styles(
    theme: &Theme,
    background: WindowBackgroundAppearance,
)
    requires
        call_ensures(appearance::window_appearance, (theme,), background),
    ensures
        background == theme.styles.window_background_appearance,
{
}

/// A theme is transparent if and only if its window's background is transparent or
/// blurred.
pub proof fn transparent_is_transparent_or_blurred(theme: &Theme, transparent: bool)
    requires
        call_ensures(appearance::theme_is_transparent, (theme,), transparent),
    ensures
        transparent <==> theme.styles.window_background_appearance
            == WindowBackgroundAppearance::Transparent
            || theme.styles.window_background_appearance == WindowBackgroundAppearance::Blurred,
{
}

/// The mode of an appearance is of the same name.
pub proof fn mode_is_named_like_the_appearance(
    appearance: Appearance,
    mode: ThemeAppearanceMode,
)
    requires
        call_ensures(settings::appearance_to_mode, (appearance,), mode),
    ensures
        appearance == Appearance::Light ==> mode == ThemeAppearanceMode::Light,
        appearance == Appearance::Dark ==> mode == ThemeAppearanceMode::Dark,
{
}

/// The mode follows the system if and only if it did so before and the system has the new
/// theme's appearance; otherwise it is of the new theme's appearance.
pub proof fn mode_follows_the_system_only_as_before(
    original_mode: &ThemeAppearanceMode,
    system_appearance: Appearance,
    new_appearance: Appearance,
    mode: ThemeAppearanceMode,
)
    requires
        call_ensures(
            settings::update_mode_if_new_appearance_is_different_from_system,
            (original_mode, system_appearance, new_appearance),
            mode,
        ),
    ensures
        mode == ThemeAppearanceMode::System <==> *original_mode == ThemeAppearanceMode::System
            && system_appearance == new_appearance,
        mode == ThemeAppearanceMode::Light ==> new_appearance == Appearance::Light,
        mode == ThemeAppearanceMode::Dark ==> new_appearance == Appearance::Dark,
{
}

/// A pair takes the new theme at the place of its appearance and keeps the other.
pub proof fn pair_takes_the_new_theme(
    new_theme_is_light: bool,
    new_mode: ThemeAppearanceMode,
    theme_name: ThemeName,
    original_light: &ThemeName,
    original_dark: &ThemeName,
    selection: ThemeSelection,
)
    requires
        call_ensures(
            settings::retain_original_opposing_theme,
            (new_theme_is_light, new_mode, theme_name, original_light, original_dark),
            selection,
        ),
    ensures
        selection is Dynamic,
        selection->mode == new_mode,
        new_theme_is_light ==> selection->light.0@ == theme_name.0@ && selection->dark.0@
            == original_dark.0@,
        !new_theme_is_light ==> selection->light.0@ == original_light.0@ && selection->dark.0@
            == theme_name.0@,
{
}

/// Whether `picked` is what a picked theme makes of a setting: the theme alone where there
/// was one theme, and where there was a pair, the pair with the theme at the place of its
/// appearance, under a mode that shows it.
pub open spec fn is_picked(
    picked: ThemeSelection,
    original: ThemeSelection,
    theme: Theme,
    system_appearance: Appearance,
) -> bool {
    match (original, picked) {
        (ThemeSelection::Static(_), ThemeSelection::Static(name)) => name.0@ == theme.name@,
        (
            ThemeSelection::Dynamic { mode: original_mode, light: original_light, dark: original_dark },
            ThemeSelection::Dynamic { mode, light, dark },
        ) => {
            &&& theme.appearance == Appearance::Light ==> {
                &&& light.0@ == theme.name@
                &&& dark.0@ == original_dark.0@
                &&& mode == ThemeAppearanceMode::Light || mode == ThemeAppearanceMode::System
            }
            &&& theme.appearance == Appearance::Dark ==> {
                &&& dark.0@ == theme.name@
                &&& light.0@ == original_light.0@
                &&& mode == ThemeAppearanceMode::Dark || mode == ThemeAppearanceMode::System
            }
            &&& mode == ThemeAppearanceMode::System <==> original_mode
                == ThemeAppearanceMode::System && system_appearance == theme.appearance
        },
        _ => false,
    }
}

/// Overriding the settings gives new ones if and only if the setting is still of its
/// original kind. They hold what the theme makes of the original setting, and the rest of
/// the current settings.
pub proof fn overriding_shows_the_theme(
    current: &ThemeSettings,
    new_theme: &Theme,
    original_theme: &ThemeSelection,
    system_appearance: Appearance,
    made: Option<ThemeSettings>,
)
    requires
        call_ensures(
            settings::override_global_theme,
            (current, new_theme, original_theme, system_appearance),
            made,
        ),
    ensures
        made is Some <==> (current.theme is Static <==> *original_theme is Static),
        made matches Some(made) ==> made.rest == current.rest && is_picked(
            made.theme,
            *original_theme,
            *new_theme,
            system_appearance,
        ),
{
    if let Some(made) = made {
        lemma_is_picked(made.theme, *original_theme, *new_theme, system_appearance);
    }
}

/// What a picked theme makes of a setting, on the views of the values.
pub proof fn lemma_is_picked(
    picked: ThemeSelection,
    original: ThemeSelection,
    theme: Theme,
    system_appearance: Appearance,
)
    requires
        picked@ == settings::selection_showing(original@, theme@, system_appearance),
    ensures
        is_picked(picked, original, theme, system_appearance),
{
    match (original, picked) {
        (ThemeSelection::Static(_), ThemeSelection::Static(name)) => {
            assert(name@ == theme.name@);
        },
        (
            ThemeSelection::Dynamic { mode: _, light: original_light, dark: original_dark },
            ThemeSelection::Dynamic { mode: _, light, dark },
        ) => {
            assert(light@ == light.0@ && dark@ == dark.0@);
            assert(original_light@ == original_light.0@ && original_dark@ == original_dark.0@);
        },
        _ => {},
    }
}

// Actions and separators.

/// Each action has its command: one picker for the settings, one for the window's theme,
/// one for icon themes, each with the filter of the action, and the dropping of the
/// window's override.
pub proof fn actions_have_their_commands(action: Action, command: Command)
    requires
        call_ensures(selector::command_for, (action,), command),
    ensures
        action matches Action::ToggleThemeSelector { themes_filter } ==> command == (
        Command::ToggleThemeSelector { themes_filter, scope: ThemeSelectorScope::Global }),
        action matches Action::ToggleWindowTheme { themes_filter } ==> command == (
        Command::ToggleThemeSelector { themes_filter, scope: ThemeSelectorScope::Window }),
        action matches Action::ToggleIconThemeSelector { themes_filter } ==> command == (
        Command::ToggleIconThemeSelector { themes_filter }),
        action is ClearWindowTheme ==> command == Command::Perform(Effect::ClearWindowTheme),
{
}

/// A separator is a line of one pixel over the whole width.
pub proof fn separator_is_a_line(separator: ListSeparator, element: Div)
    requires
        call_ensures(ListSeparator::render, (separator,), element),
    ensures
        element.height == Length::Pixels(1),
        element.width == Length::Full,
        element.margin_y == DynamicSpacing::Base06,
        element.background == ThemeColor::BorderVariant,
{
}

} // verus!
