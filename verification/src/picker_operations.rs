//! What the operations of a picker do, read off what they are given and what they give
//! back.
use vstd::prelude::*;

use crate::appearance::Appearance;
use crate::delegate::{HostState, ThemeSelectorDelegate, ThemeSelectorScope};
use crate::effect::{Effect, EffectView, Report};
use crate::elements::{
    ExtensionCategoryFilter, Footer, FooterAction, Frame, IconColor, IconName, IconSize, Justify,
    Length, ListItem, ListItemSpacing, Spacing, ThemeColor,
};
use crate::listing;
use crate::matching;
use crate::matching::{MatchRequest, StringMatch};
use crate::operations;
use crate::selector::{DismissDecision, ThemeSelector};
use crate::settings::{ThemeName, ThemeSelection, ThemeSettings};
use crate::text;
use crate::theme::{Theme, ThemeMeta, ThemeMetaView};

verus! {

// When two values say the same.

/// Whether two themes agree in everything.
pub open spec fn same_theme(a: Theme, b: Theme) -> bool {
    &&& a.key == b.key
    &&& a.name@ == b.name@
    &&& a.appearance == b.appearance
    &&& a.styles.window_background_appearance == b.styles.window_background_appearance
}

/// Whether there are no themes, or two that agree in everything.
pub open spec fn same_optional_theme(a: Option<Theme>, b: Option<Theme>) -> bool {
    match (a, b) {
        (Some(a), Some(b)) => same_theme(a, b),
        (None, None) => true,
        _ => false,
    }
}

/// Whether two settings agree in everything.
pub open spec fn same_settings(a: ThemeSettings, b: ThemeSettings) -> bool {
    &&& a.rest == b.rest
    &&& match (a.theme, b.theme) {
        (ThemeSelection::Static(a), ThemeSelection::Static(b)) => a.0@ == b.0@,
        (
            ThemeSelection::Dynamic { mode: a_mode, light: a_light, dark: a_dark },
            ThemeSelection::Dynamic { mode: b_mode, light: b_light, dark: b_dark },
        ) => a_mode == b_mode && a_light.0@ == b_light.0@ && a_dark.0@ == b_dark.0@,
        _ => false,
    }
}

/// Whether two lists hold the same themes at the same places.
pub open spec fn same_themes(a: Seq<ThemeMeta>, b: Seq<ThemeMeta>) -> bool {
    &&& a.len() == b.len()
    &&& forall|i: int|
        0 <= i < a.len() ==> (#[trigger] a[i]).name@ == b[i].name@ && a[i].appearance
            == b[i].appearance
}

/// Whether two lists hold the same matches at the same places.
pub open spec fn same_matches(a: Seq<StringMatch>, b: Seq<StringMatch>) -> bool {
    &&& a.len() == b.len()
    &&& forall|i: int|
        0 <= i < a.len() ==> {
            &&& (#[trigger] a[i]).candidate_id == b[i].candidate_id
            &&& a[i].positions@ == b[i].positions@
            &&& a[i].string@ == b[i].string@
        }
}

/// Whether two pickers list the same themes and remember the same from when they were
/// opened.
pub open spec fn same_origin(a: ThemeSelectorDelegate, b: ThemeSelectorDelegate) -> bool {
    &&& same_themes(a.themes@, b.themes@)
    &&& same_settings(a.original_theme_settings, b.original_theme_settings)
    &&& a.original_system_appearance == b.original_system_appearance
    &&& same_theme(a.original_window_theme, b.original_window_theme)
    &&& a.original_had_window_override == b.original_had_window_override
    &&& a.scope == b.scope
    &&& a.original_theme_id == b.original_theme_id
}

proof fn lemma_same_settings(a: ThemeSettings, b: ThemeSettings)
    requires
        a@ == b@,
    ensures
        same_settings(a, b),
{
    match (a.theme, b.theme) {
        (ThemeSelection::Static(x), ThemeSelection::Static(y)) => {
            assert(x@ == y@);
        },
        (
            ThemeSelection::Dynamic { mode: _, light: a_light, dark: a_dark },
            ThemeSelection::Dynamic { mode: _, light: b_light, dark: b_dark },
        ) => {
            assert(a_light@ == b_light@ && a_dark@ == b_dark@);
        },
        _ => {},
    }
}

proof fn lemma_same_themes(a: Vec<ThemeMeta>, b: Vec<ThemeMeta>)
    requires
        a.deep_view() == b.deep_view(),
    ensures
        same_themes(a@, b@),
{
    assert(a.deep_view().len() == a@.len() && b.deep_view().len() == b@.len());
    assert forall|i: int| 0 <= i < a@.len() implies (#[trigger] a@[i]).name@ == b@[i].name@
        && a@[i].appearance == b@[i].appearance by {
        assert(a.deep_view()[i] == a@[i]@ && b.deep_view()[i] == b@[i]@);
    }
}

proof fn lemma_same_matches(a: Vec<StringMatch>, b: Vec<StringMatch>)
    requires
        a.deep_view() == b.deep_view(),
    ensures
        same_matches(a@, b@),
{
    assert(a.deep_view().len() == a@.len() && b.deep_view().len() == b@.len());
    assert forall|i: int| 0 <= i < a@.len() implies {
        &&& (#[trigger] a@[i]).candidate_id == b@[i].candidate_id
        &&& a@[i].positions@ == b@[i].positions@
        &&& a@[i].string@ == b@[i].string@
    } by {
        assert(a.deep_view()[i] == a@[i]@ && b.deep_view()[i] == b@[i]@);
    }
}

proof fn lemma_same_origin(a: ThemeSelectorDelegate, b: ThemeSelectorDelegate)
    requires
        a@.themes == b@.themes,
        a@.original_theme_settings == b@.original_theme_settings,
        a@.original_system_appearance == b@.original_system_appearance,
        a@.original_window_theme == b@.original_window_theme,
        a@.original_had_window_override == b@.original_had_window_override,
        a@.scope == b@.scope,
        a@.original_theme_id == b@.original_theme_id,
    ensures
        same_origin(a, b),
{
    lemma_same_themes(a.themes, b.themes);
    lemma_same_settings(a.original_theme_settings, b.original_theme_settings);
}

proof fn lemma_effects(effects: Vec<Effect>, views: Seq<EffectView>)
    requires
        effects.deep_view() == views,
    ensures
        effects@.len() == views.len(),
        forall|i: int| 0 <= i < views.len() ==> (#[trigger] effects@[i])@ == views[i],
{
    assert(effects.deep_view().len() == effects@.len());
    assert forall|i: int| 0 <= i < views.len() implies (#[trigger] effects@[i])@ == views[i] by {
        assert(effects.deep_view()[i] == effects@[i]@);
    }
}


/// Copies say the same as what they are copies of.
pub proof fn copies_are_the_same(
    theme: &Theme,
    theme_copy: Theme,
    name: &ThemeName,
    name_copy: ThemeName,
    settings: &ThemeSettings,
    settings_copy: ThemeSettings,
)
    requires
        call_ensures(Theme::clone, (theme,), theme_copy),
        call_ensures(ThemeName::clone, (name,), name_copy),
        call_ensures(ThemeSettings::clone, (settings,), settings_copy),
    ensures
        same_theme(theme_copy, *theme),
        name_copy.0@ == name.0@,
        same_settings(settings_copy, *settings),
{
    assert(name_copy@ == name@);
    lemma_same_settings(settings_copy, *settings);
}

// Opening.

/// A picker starts from the configured theme if it edits the settings, and from the
/// window's theme if it overrides that.
pub open spec fn starting_theme(scope: ThemeSelectorScope, host: HostState) -> Theme {
    if scope == ThemeSelectorScope::Global {
        host.configured_theme
    } else {
        host.window_theme
    }
}

/// Opening a picker remembers what the host holds and shows the theme that the picker
/// starts from; nothing has been moved to, and nothing completed.
pub proof fn opening_remembers_the_host(
    themes_filter: Option<&Vec<String>>,
    scope: ThemeSelectorScope,
    host: HostState,
    picker: ThemeSelectorDelegate,
)
    requires
        call_ensures(ThemeSelectorDelegate::new, (themes_filter, scope, host), picker),
    ensures
        same_settings(picker.original_theme_settings, host.theme_settings),
        picker.original_system_appearance == host.system_appearance,
        same_theme(picker.original_window_theme, host.window_theme),
        picker.original_had_window_override == host.had_window_override,
        picker.scope == scope,
        same_theme(picker.new_theme, starting_theme(scope, host)),
        !picker.selection_completed,
        picker.selected_theme is None,
{
    lemma_same_settings(picker.original_theme_settings, host.theme_settings);
}

/// Opening a picker lists the registered themes, and under a filter just those whose names
/// it holds, each as often as it is registered.
pub proof fn opening_lists_the_named_themes(
    themes_filter: Option<&Vec<String>>,
    scope: ThemeSelectorScope,
    host: HostState,
    picker: ThemeSelectorDelegate,
    meta: ThemeMetaView,
)
    requires
        call_ensures(ThemeSelectorDelegate::new, (themes_filter, scope, host), picker),
    ensures
        themes_filter is None ==> (picker.themes.deep_view().contains(meta)
            <==> host.registered_themes.deep_view().contains(meta)),
        themes_filter matches Some(names) ==> (picker.themes.deep_view().contains(meta)
            <==> host.registered_themes.deep_view().contains(meta) && names.deep_view().contains(
            meta.name,
        )),
        picker.themes.deep_view().contains(meta)
            ==> picker.themes.deep_view().to_multiset().count(meta)
            == host.registered_themes.deep_view().to_multiset().count(meta),
{
    operations::listed_as_often_as_registered(
        picker.themes.deep_view(),
        host.registered_themes.deep_view(),
        themes_filter.deep_view(),
        meta,
    );
    vstd::seq_lib::to_multiset_contains(picker.themes.deep_view(), meta);
    vstd::seq_lib::to_multiset_contains(host.registered_themes.deep_view(), meta);
}

/// Opening a picker lists dark themes before light ones, and themes of one appearance by
/// the first character in which their names differ, shorter names first.
pub proof fn opening_sorts_the_themes(
    themes_filter: Option<&Vec<String>>,
    scope: ThemeSelectorScope,
    host: HostState,
    picker: ThemeSelectorDelegate,
    p: int,
    q: int,
    i: int,
)
    requires
        call_ensures(ThemeSelectorDelegate::new, (themes_filter, scope, host), picker),
        0 <= p < q < picker.themes@.len(),
        0 <= i <= picker.themes@[p].name@.len(),
        i <= picker.themes@[q].name@.len(),
        forall|j: int| 0 <= j < i ==> picker.themes@[p].name@[j] == picker.themes@[q].name@[j],
    ensures
        ({
            let a = picker.themes@[p];
            let b = picker.themes@[q];
            &&& b.appearance == Appearance::Dark ==> a.appearance == Appearance::Dark
            &&& a.appearance == b.appearance && i < a.name@.len() && i < b.name@.len()
                && a.name@[i] != b.name@[i] ==> (a.name@[i] as int) < (b.name@[i] as int)
            &&& a.appearance == b.appearance && i == b.name@.len() ==> a.name@.len() == i
        }),
{
    let views = picker.themes.deep_view();
    assert(views[p] == picker.themes@[p]@ && views[q] == picker.themes@[q]@);
    if views[q].appearance is Dark {
        operations::listed_appearances_ascend(views, p, q);
    }
    if views[p].appearance == views[q].appearance {
        operations::listed_names_ascend(views, p, q, i);
    }
}

/// Opening a picker makes every listed theme a match, at its place and under its name, with
/// nothing highlighted.
pub proof fn opening_matches_every_theme(
    themes_filter: Option<&Vec<String>>,
    scope: ThemeSelectorScope,
    host: HostState,
    picker: ThemeSelectorDelegate,
    i: int,
)
    requires
        call_ensures(ThemeSelectorDelegate::new, (themes_filter, scope, host), picker),
    ensures
        picker.matches@.len() == picker.themes@.len(),
        0 <= i < picker.themes@.len() ==> {
            &&& picker.matches@[i].candidate_id == i
            &&& picker.matches@[i].string@ == picker.themes@[i].name@
            &&& picker.matches@[i].positions@.len() == 0
        },
{
    assert(picker.matches.deep_view().len() == picker.matches@.len());
    assert(picker.themes.deep_view().len() == picker.themes@.len());
    if 0 <= i < picker.themes@.len() {
        assert(picker.matches.deep_view()[i] == picker.matches@[i]@);
        assert(picker.themes.deep_view()[i] == picker.themes@[i]@);
    }
}

/// Opening a picker selects and marks the first listed theme of the starting theme's name;
/// where no listed theme has that name, the first line is selected and none is marked.
pub proof fn opening_selects_the_starting_theme(
    themes_filter: Option<&Vec<String>>,
    scope: ThemeSelectorScope,
    host: HostState,
    picker: ThemeSelectorDelegate,
    j: int,
)
    requires
        call_ensures(ThemeSelectorDelegate::new, (themes_filter, scope, host), picker),
    ensures
        picker.original_theme_id matches Some(id) ==> {
            &&& id < picker.themes@.len()
            &&& picker.themes@[id as int].name@ == starting_theme(scope, host).name@
            &&& picker.selected_index == id
        },
        picker.original_theme_id is None ==> picker.selected_index == 0,
        0 <= j < picker.themes@.len() && picker.themes@[j].name@ == starting_theme(
            scope,
            host,
        ).name@ ==> picker.original_theme_id is Some && picker.original_theme_id->0 <= j,
{
    let names = matching::theme_names(picker.themes.deep_view());
    text::lemma_first_index(names, host.original_theme(scope).name);
    if 0 <= j < picker.themes@.len() {
        assert(names[j] == picker.themes@[j].name@);
    }
    if let Some(id) = picker.original_theme_id {
        assert(names[id as int] == picker.themes@[id as int].name@);
    }
}

// Reading.

/// A line is marked if and only if its theme is the one at the original theme's place.
pub proof fn original_theme_is_told_by_its_place(
    picker: &ThemeSelectorDelegate,
    index: usize,
    original: bool,
)
    requires
        call_ensures(ThemeSelectorDelegate::is_original_theme, (picker, index), original),
    ensures
        original <==> index < picker.matches@.len() && picker.original_theme_id is Some
            && picker.matches@[index as int].candidate_id == picker.original_theme_id->0,
{
    if index < picker.matches@.len() {
        assert(picker.matches.deep_view()[index as int] == picker.matches@[index as int]@);
    }
}

/// The theme to load for a line is the one of the line's name.
pub proof fn theme_to_load_is_of_the_line(
    picker: &ThemeSelectorDelegate,
    index: usize,
    name: Option<String>,
)
    requires
        call_ensures(ThemeSelectorDelegate::theme_name_at, (picker, index), name),
    ensures
        name is Some <==> index < picker.matches@.len(),
        name matches Some(name) ==> name@ == picker.matches@[index as int].string@,
{
    if index < picker.matches@.len() {
        assert(picker.matches.deep_view()[index as int] == picker.matches@[index as int]@);
    }
}

/// There are as many lines as matches.
pub proof fn match_count_counts_matches(picker: &ThemeSelectorDelegate, count: usize)
    requires
        call_ensures(ThemeSelectorDelegate::match_count, (picker,), count),
    ensures
        count == picker.matches@.len(),
{
}

/// The selected line is the one that the picker holds.
pub proof fn selected_index_is_held(picker: &ThemeSelectorDelegate, ix: usize)
    requires
        call_ensures(ThemeSelectorDelegate::selected_index, (picker,), ix),
    ensures
        ix == picker.selected_index,
{
}

/// The picker has its name.
pub proof fn picker_has_its_name(name: &'static str)
    requires
        call_ensures(ThemeSelectorDelegate::name, (), name),
    ensures
        name@ == "theme selector"@,
{
}

/// The picker of the window's theme says so in its query field.
pub proof fn placeholder_names_the_scope(picker: &ThemeSelectorDelegate, text: &'static str)
    requires
        call_ensures(ThemeSelectorDelegate::placeholder_text, (picker,), text),
    ensures
        picker.scope == ThemeSelectorScope::Global ==> text@ == "Select Theme..."@,
        picker.scope == ThemeSelectorScope::Window ==> text@ == "Select Window Theme..."@,
{
}

/// A line shows the name and the highlights of its match, whether it is selected, and a
/// check mark if and only if its theme is the one at the original theme's place.
pub proof fn line_shows_its_match(
    picker: &ThemeSelectorDelegate,
    ix: usize,
    selected: bool,
    item: Option<ListItem>,
)
    requires
        call_ensures(ThemeSelectorDelegate::render_match, (picker, ix, selected), item),
    ensures
        item is Some <==> ix < picker.matches@.len(),
        item matches Some(item) ==> {
            let found = picker.matches@[ix as int];
            &&& item.id == ix
            &&& item.inset
            &&& item.spacing == ListItemSpacing::Sparse
            &&& item.toggle_state == selected
            &&& item.label@ == found.string@
            &&& item.highlights@ == found.positions@
            &&& item.end_slot is Some <==> picker.original_theme_id is Some && found.candidate_id
                == picker.original_theme_id->0
            &&& item.end_slot matches Some(icon) ==> {
                &&& icon.name == IconName::Check
                &&& icon.size == IconSize::Normal
                &&& icon.color == IconColor::Muted
            }
        },
{
    if ix < picker.matches@.len() {
        assert(picker.matches.deep_view()[ix as int] == picker.matches@[ix as int]@);
    }
}

/// The footer always stands there, with its two buttons.
pub proof fn footer_has_its_buttons(picker: &ThemeSelectorDelegate, footer: Option<Footer>)
    requires
        call_ensures(ThemeSelectorDelegate::render_footer, (picker,), footer),
    ensures
        footer is Some,
        footer->0.padding == Spacing::Two,
        footer->0.width == Length::Full,
        footer->0.justify == Justify::Between,
        footer->0.gap == Spacing::Two,
        footer->0.border_top == Length::Pixels(1),
        footer->0.border_color == ThemeColor::BorderVariant,
        footer->0.start.id@ == "docs"@,
        footer->0.start.label@ == "View Theme Docs"@,
        footer->0.start.end_icon matches Some(icon) && icon.name == IconName::ArrowUpRight
            && icon.size == IconSize::Small && icon.color == IconColor::Muted,
        footer->0.start.on_click matches FooterAction::OpenUrl(url) && url@
            == "https://zed.dev/docs/themes"@,
        footer->0.end.id@ == "more-themes"@,
        footer->0.end.label@ == "Install Themes"@,
        footer->0.end.end_icon is None,
        footer->0.end.on_click == FooterAction::Extensions(ExtensionCategoryFilter::Themes),
{
}

// Showing themes.

/// Whether `effects` are those that show `theme` in `picker`'s scope. For the window's theme
/// this is an override of the window. For the settings it is an override of the settings in
/// memory, if they are still of their original kind, by what the theme makes of the original
/// setting with the rest of the current settings, and then an override of the window if the
/// window had one.
pub open spec fn show_theme(
    effects: Seq<Effect>,
    picker: ThemeSelectorDelegate,
    theme: Theme,
    current: ThemeSettings,
) -> bool {
    let in_settings = picker.scope == ThemeSelectorScope::Global && (
    picker.original_theme_settings.theme is Static <==> current.theme is Static);
    let in_window = picker.scope == ThemeSelectorScope::Window
        || picker.original_had_window_override;
    &&& effects.len() == (if in_settings {
        1int
    } else {
        0int
    }) + (if in_window {
        1int
    } else {
        0int
    })
    &&& in_settings ==> {
        &&& effects[0] is OverrideSettings
        &&& effects[0]->OverrideSettings_0.rest == current.rest
        &&& operations::is_picked(
            effects[0]->OverrideSettings_0.theme,
            picker.original_theme_settings.theme,
            theme,
            picker.original_system_appearance,
        )
    }
    &&& in_window ==> {
        &&& effects[effects.len() - 1] is ApplyToWindow
        &&& same_theme(effects[effects.len() - 1]->ApplyToWindow_0, theme)
    }
}

proof fn lemma_show_theme(
    effects: Vec<Effect>,
    picker: ThemeSelectorDelegate,
    theme: Theme,
    current: ThemeSettings,
)
    requires
        effects.deep_view() == picker@.preview(theme@, current@),
    ensures
        show_theme(effects@, picker, theme, current),
{
    lemma_effects(effects, picker@.preview(theme@, current@));
    if picker.scope == ThemeSelectorScope::Global && (
    picker.original_theme_settings.theme is Static <==> current.theme is Static) {
        let made = effects@[0]->OverrideSettings_0;
        assert(effects@[0]@ is OverrideSettings);
        assert(made@ == effects@[0]@->OverrideSettings_0);
        operations::lemma_is_picked(
            made.theme,
            picker.original_theme_settings.theme,
            theme,
            picker.original_system_appearance,
        );
    }
    if picker.scope == ThemeSelectorScope::Window || picker.original_had_window_override {
        let last = effects@[effects@.len() - 1];
        assert(last@ is ApplyToWindow);
        assert(last->ApplyToWindow_0@ == theme@);
    }
}

/// Setting a theme shows it and makes it the shown one, and touches nothing else.
pub proof fn setting_a_theme_shows_it(
    picker: &mut ThemeSelectorDelegate,
    theme: Theme,
    current: &ThemeSettings,
    effects: Vec<Effect>,
)
    requires
        call_ensures(ThemeSelectorDelegate::set_theme, (picker, theme, current), effects),
    ensures
        show_theme(effects@, *old(picker), theme, *current),
        same_theme(final(picker).new_theme, theme),
        same_origin(*final(picker), *old(picker)),
        same_matches(final(picker).matches@, old(picker).matches@),
        final(picker).selection_completed == old(picker).selection_completed,
        same_optional_theme(final(picker).selected_theme, old(picker).selected_theme),
        final(picker).selected_index == old(picker).selected_index,
{
    lemma_show_theme(effects, *old(picker), theme, *current);
    lemma_same_origin(*final(picker), *old(picker));
    lemma_same_matches(final(picker).matches, old(picker).matches);
    lemma_same_selected(*final(picker), *old(picker));
}

proof fn lemma_same_selected(a: ThemeSelectorDelegate, b: ThemeSelectorDelegate)
    requires
        a@.selected_theme == b@.selected_theme,
    ensures
        same_optional_theme(a.selected_theme, b.selected_theme),
{
    if let Some(theme) = a.selected_theme {
        assert(a@.selected_theme == Some(theme@));
    }
    if let Some(theme) = b.selected_theme {
        assert(b@.selected_theme == Some(theme@));
    }
}

/// Showing the selected line shows the theme that was loaded for it, if there is a selected
/// line and its theme loaded; otherwise nothing happens.
pub proof fn showing_the_selected_line(
    picker: &mut ThemeSelectorDelegate,
    loaded: Option<Theme>,
    current: &ThemeSettings,
    shown: (Option<Theme>, Vec<Effect>),
)
    requires
        call_ensures(
            ThemeSelectorDelegate::show_selected_theme,
            (picker, loaded, current),
            shown,
        ),
    ensures
        old(picker).selected_index < old(picker).matches@.len() && loaded is Some ==> {
            &&& shown.0 is Some
            &&& same_theme(shown.0->0, loaded->0)
            &&& same_theme(final(picker).new_theme, loaded->0)
            &&& show_theme(shown.1@, *old(picker), loaded->0, *current)
        },
        old(picker).selected_index >= old(picker).matches@.len() || loaded is None ==> {
            &&& shown.0 is None
            &&& same_theme(final(picker).new_theme, old(picker).new_theme)
            &&& shown.1@.len() == 0
        },
        same_origin(*final(picker), *old(picker)),
        same_matches(final(picker).matches@, old(picker).matches@),
        final(picker).selection_completed == old(picker).selection_completed,
        same_optional_theme(final(picker).selected_theme, old(picker).selected_theme),
        final(picker).selected_index == old(picker).selected_index,
{
    let before = *old(picker);
    assert(before.matches.deep_view().len() == before.matches@.len());
    lemma_effects(shown.1, before@.showing(loaded.deep_view(), current@));
    if before.selected_index < before.matches@.len() && loaded is Some {
        assert(loaded.deep_view() == Some(loaded->0@));
        assert(shown.0 is Some);
        lemma_show_theme(shown.1, before, loaded->0, *current);
    } else {
        assert(before@.shown(loaded.deep_view()) is None);
        assert(shown.0 is None);
    }
    lemma_same_origin(*final(picker), before);
    lemma_same_matches(final(picker).matches, before.matches);
    lemma_same_selected(*final(picker), before);
}

/// Moving to a line selects it. If it is there and its theme loaded, that theme becomes the
/// one moved to and the one shown; otherwise no theme is moved to, and the shown one stays.
pub proof fn moving_to_a_line(
    picker: &mut ThemeSelectorDelegate,
    ix: usize,
    loaded: Option<Theme>,
    current: &ThemeSettings,
    effects: Vec<Effect>,
)
    requires
        call_ensures(
            ThemeSelectorDelegate::set_selected_index,
            (picker, ix, loaded, current),
            effects,
        ),
    ensures
        final(picker).selected_index == ix,
        ix < old(picker).matches@.len() && loaded is Some ==> {
            &&& final(picker).selected_theme is Some
            &&& same_theme(final(picker).selected_theme->0, loaded->0)
            &&& same_theme(final(picker).new_theme, loaded->0)
            &&& show_theme(effects@, *old(picker), loaded->0, *current)
        },
        ix >= old(picker).matches@.len() || loaded is None ==> {
            &&& final(picker).selected_theme is None
            &&& same_theme(final(picker).new_theme, old(picker).new_theme)
            &&& effects@.len() == 0
        },
        same_origin(*final(picker), *old(picker)),
        same_matches(final(picker).matches@, old(picker).matches@),
        final(picker).selection_completed == old(picker).selection_completed,
{
    let before = *old(picker);
    let after = *final(picker);
    assert(before.matches.deep_view().len() == before.matches@.len());
    lemma_effects(effects, before@.at_index(ix as int).showing(loaded.deep_view(), current@));
    if ix < before.matches@.len() && loaded is Some {
        assert(loaded.deep_view() == Some(loaded->0@));
        assert(after@.selected_theme == Some(loaded->0@));
        assert(after.selected_theme is Some);
        assert(after.selected_theme->0@ == loaded->0@);
        lemma_show_theme(effects, before, loaded->0, *current);
    } else {
        assert(after@.selected_theme is None);
        assert(after.selected_theme is None);
    }
    lemma_same_origin(after, before);
    lemma_same_matches(after.matches, before.matches);
}

// Searching.

/// The empty query lists every theme as a match, at its place and under its name; no search
/// is asked for.
pub proof fn empty_query_lists_every_theme(
    picker: &ThemeSelectorDelegate,
    query: &String,
    request: MatchRequest,
    i: int,
)
    requires
        call_ensures(ThemeSelectorDelegate::update_matches, (picker, query), request),
        query@.len() == 0,
    ensures
        request is Listed,
        request->Listed_0@.len() == picker.themes@.len(),
        0 <= i < picker.themes@.len() ==> {
            &&& request->Listed_0@[i].candidate_id == i
            &&& request->Listed_0@[i].string@ == picker.themes@[i].name@
            &&& request->Listed_0@[i].positions@.len() == 0
        },
{
    assert(request@ is Listed);
    let listed = request->Listed_0;
    assert(listed.deep_view() == request@->Listed_0);
    assert(listed.deep_view().len() == listed@.len());
    assert(picker.themes.deep_view().len() == picker.themes@.len());
    if 0 <= i < picker.themes@.len() {
        assert(listed.deep_view()[i] == listed@[i]@);
        assert(picker.themes.deep_view()[i] == picker.themes@[i]@);
    }
}

/// Any other query asks for a search of just that query among every theme, each at its
/// place and under its name, without regard to case, for at most a hundred matches, of
/// which shorter names rank higher.
pub proof fn other_queries_search_every_theme(
    picker: &ThemeSelectorDelegate,
    query: &String,
    request: MatchRequest,
    i: int,
)
    requires
        call_ensures(ThemeSelectorDelegate::update_matches, (picker, query), request),
        query@.len() > 0,
    ensures
        request is Search,
        request->query@ == query@,
        !request->smart_case,
        request->penalize_length,
        request->max_results == 100,
        request->candidates@.len() == picker.themes@.len(),
        0 <= i < picker.themes@.len() ==> {
            &&& request->candidates@[i].id == i
            &&& request->candidates@[i].string@ == picker.themes@[i].name@
        },
{
    assert(request@ is Search);
    let candidates = request->candidates;
    assert(candidates.deep_view() == request@->candidates);
    assert(candidates.deep_view().len() == candidates@.len());
    assert(picker.themes.deep_view().len() == picker.themes@.len());
    if 0 <= i < picker.themes@.len() {
        assert(candidates.deep_view()[i] == candidates@[i]@);
        assert(picker.themes.deep_view()[i] == picker.themes@[i]@);
    }
}

/// New matches take the place of the old ones, and only the selected line moves with them.
pub proof fn new_matches_replace_the_old(
    picker: &mut ThemeSelectorDelegate,
    query: &String,
    matches: Vec<StringMatch>,
)
    requires
        call_ensures(ThemeSelectorDelegate::set_matches, (picker, query, matches), ()),
    ensures
        same_matches(final(picker).matches@, matches@),
        same_origin(*final(picker), *old(picker)),
        same_theme(final(picker).new_theme, old(picker).new_theme),
        final(picker).selection_completed == old(picker).selection_completed,
        same_optional_theme(final(picker).selected_theme, old(picker).selected_theme),
{
    lemma_same_origin(*final(picker), *old(picker));
    lemma_same_matches(final(picker).matches, matches);
    lemma_same_selected(*final(picker), *old(picker));
}

/// As long as the user has moved to no theme, the empty query leaves the selected line where
/// it is, if it is still there, and else takes the last one.
pub proof fn unmoved_selection_stays_on_the_empty_query(
    picker: &mut ThemeSelectorDelegate,
    query: &String,
    matches: Vec<StringMatch>,
)
    requires
        call_ensures(ThemeSelectorDelegate::set_matches, (picker, query, matches), ()),
        old(picker).selected_theme is None,
        query@.len() == 0,
    ensures
        old(picker).selected_index < matches@.len() ==> final(picker).selected_index == old(
            picker,
        ).selected_index,
        old(picker).selected_index >= matches@.len() && matches@.len() > 0
            ==> final(picker).selected_index == matches@.len() - 1,
        matches@.len() == 0 ==> final(picker).selected_index == 0,
{
    assert(matches.deep_view().len() == matches@.len());
    assert(old(picker)@.selected_theme is None);
}

/// As long as the user has moved to no theme, any other query selects the first line.
pub proof fn unmoved_selection_goes_first_on_other_queries(
    picker: &mut ThemeSelectorDelegate,
    query: &String,
    matches: Vec<StringMatch>,
)
    requires
        call_ensures(ThemeSelectorDelegate::set_matches, (picker, query, matches), ()),
        old(picker).selected_theme is None,
        query@.len() > 0,
    ensures
        final(picker).selected_index == 0,
{
    assert(old(picker)@.selected_theme is None);
}

/// A theme that the user has moved to stays selected whatever the query, at the first line
/// of its name; where no line has its name, the first one is selected.
pub proof fn moved_selection_follows_its_theme(
    picker: &mut ThemeSelectorDelegate,
    query: &String,
    matches: Vec<StringMatch>,
    j: int,
)
    requires
        call_ensures(ThemeSelectorDelegate::set_matches, (picker, query, matches), ()),
        old(picker).selected_theme is Some,
    ensures
        0 <= j < matches@.len() && matches@[j].string@ == old(picker).selected_theme->0.name@ ==> {
            &&& final(picker).selected_index <= j
            &&& matches@[final(picker).selected_index as int].string@ == old(
                picker,
            ).selected_theme->0.name@
        },
        (forall|k: int|
            0 <= k < matches@.len() ==> (#[trigger] matches@[k]).string@ != old(
                picker,
            ).selected_theme->0.name@) ==> final(picker).selected_index == 0,
{
    let name = old(picker).selected_theme->0.name@;
    let names = matching::match_names(matches.deep_view());
    assert(old(picker)@.selected_theme == Some(old(picker).selected_theme->0@));
    text::lemma_first_index(names, name);
    assert(names.len() == matches@.len());
    assert forall|k: int| 0 <= k < matches@.len() implies #[trigger] names[k]
        == matches@[k].string@ by {
        assert(matches.deep_view()[k] == matches@[k]@);
    }
    if 0 <= j < matches@.len() && matches@[j].string@ == name {
        assert(names[j] == name);
    }
    if forall|k: int| 0 <= k < matches@.len() ==> (#[trigger] matches@[k]).string@ != name {
        assert forall|k: int| 0 <= k < names.len() implies names[k] != name by {
            assert(matches@[k].string@ != name);
        }
    }
}

/// Showing new matches shows the selected line, and its theme becomes the one moved to, if it
/// is there and its theme loaded; otherwise the theme moved to and the shown one stay.
pub proof fn showing_new_matches(
    picker: &mut ThemeSelectorDelegate,
    loaded: Option<Theme>,
    current: &ThemeSettings,
    effects: Vec<Effect>,
)
    requires
        call_ensures(ThemeSelectorDelegate::show_matches, (picker, loaded, current), effects),
    ensures
        old(picker).selected_index < old(picker).matches@.len() && loaded is Some ==> {
            &&& final(picker).selected_theme is Some
            &&& same_theme(final(picker).selected_theme->0, loaded->0)
            &&& same_theme(final(picker).new_theme, loaded->0)
            &&& show_theme(effects@, *old(picker), loaded->0, *current)
        },
        old(picker).selected_index >= old(picker).matches@.len() || loaded is None ==> {
            &&& same_optional_theme(final(picker).selected_theme, old(picker).selected_theme)
            &&& same_theme(final(picker).new_theme, old(picker).new_theme)
            &&& effects@.len() == 0
        },
        same_origin(*final(picker), *old(picker)),
        same_matches(final(picker).matches@, old(picker).matches@),
        final(picker).selection_completed == old(picker).selection_completed,
        final(picker).selected_index == old(picker).selected_index,
{
    let before = *old(picker);
    let after = *final(picker);
    assert(before.matches.deep_view().len() == before.matches@.len());
    lemma_effects(effects, before@.showing(loaded.deep_view(), current@));
    if before.selected_index < before.matches@.len() && loaded is Some {
        assert(loaded.deep_view() == Some(loaded->0@));
        assert(after@.selected_theme == Some(loaded->0@));
        assert(after.selected_theme is Some);
        assert(after.selected_theme->0@ == loaded->0@);
        lemma_show_theme(effects, before, loaded->0, *current);
    } else {
        assert(before@.shown(loaded.deep_view()) is None);
        lemma_same_selected(after, before);
    }
    lemma_same_origin(after, before);
    lemma_same_matches(after.matches, before.matches);
}

// Completing.

/// Whether two pickers agree in everything but in whether they are completed.
pub open spec fn same_but_for_completion(
    a: ThemeSelectorDelegate,
    b: ThemeSelectorDelegate,
) -> bool {
    &&& same_origin(a, b)
    &&& same_matches(a.matches@, b.matches@)
    &&& same_theme(a.new_theme, b.new_theme)
    &&& same_optional_theme(a.selected_theme, b.selected_theme)
    &&& a.selected_index == b.selected_index
}

proof fn lemma_completed(a: ThemeSelectorDelegate, b: ThemeSelectorDelegate)
    requires
        a@ == b@.completed(),
    ensures
        a.selection_completed,
        same_but_for_completion(a, b),
{
    lemma_same_origin(a, b);
    lemma_same_matches(a.matches, b.matches);
    lemma_same_selected(a, b);
}

/// Whether the first `count` of `effects` take back what `picker` has shown, and are all that
/// do. A completed picker has nothing to take back. For the settings they are put back as
/// they were, and then the window's own override, if it had one. For the window's theme its
/// own override is put back, or dropped if it had none.
pub open spec fn take_back(effects: Seq<Effect>, count: int, picker: ThemeSelectorDelegate) -> bool {
    &&& picker.selection_completed ==> count == 0
    &&& !picker.selection_completed && picker.scope == ThemeSelectorScope::Global ==> {
        &&& count == if picker.original_had_window_override {
            2int
        } else {
            1int
        }
        &&& effects[0] is OverrideSettings
        &&& same_settings(effects[0]->OverrideSettings_0, picker.original_theme_settings)
        &&& picker.original_had_window_override ==> {
            &&& effects[1] is ApplyToWindow
            &&& same_theme(effects[1]->ApplyToWindow_0, picker.original_window_theme)
        }
    }
    &&& !picker.selection_completed && picker.scope == ThemeSelectorScope::Window ==> {
        &&& count == 1
        &&& picker.original_had_window_override ==> {
            &&& effects[0] is ApplyToWindow
            &&& same_theme(effects[0]->ApplyToWindow_0, picker.original_window_theme)
        }
        &&& !picker.original_had_window_override ==> effects[0] is ClearForWindow
    }
}

proof fn lemma_take_back(effects: Seq<Effect>, count: int, picker: ThemeSelectorDelegate)
    requires
        count == picker@.reversion().len(),
        count <= effects.len(),
        forall|i: int|
            0 <= i < count ==> (#[trigger] effects[i])@ == picker@.reversion()[i],
    ensures
        take_back(effects, count, picker),
{
    if !picker.selection_completed {
        assert(effects[0]@ == picker@.reversion()[0]);
        if picker.scope == ThemeSelectorScope::Global {
            assert(effects[0]@ == EffectView::OverrideSettings(picker@.original_theme_settings));
            lemma_same_settings(effects[0]->OverrideSettings_0, picker.original_theme_settings);
            if picker.original_had_window_override {
                assert(effects[1]@ == picker@.reversion()[1]);
            }
        }
    }
}

/// Reverting takes back what was shown, unless the picker is completed, and completes it.
pub proof fn reverting_takes_back(picker: &mut ThemeSelectorDelegate, effects: Vec<Effect>)
    requires
        call_ensures(ThemeSelectorDelegate::revert_theme, (picker,), effects),
    ensures
        take_back(effects@, effects@.len() as int, *old(picker)),
        final(picker).selection_completed,
        same_but_for_completion(*final(picker), *old(picker)),
{
    lemma_effects(effects, old(picker)@.reversion());
    lemma_take_back(effects@, effects@.len() as int, *old(picker));
    lemma_completed(*final(picker), *old(picker));
}

/// Dismissing does what reverting does and then closes the picker.
pub proof fn dismissing_takes_back_and_closes(
    picker: &mut ThemeSelectorDelegate,
    effects: Vec<Effect>,
)
    requires
        call_ensures(ThemeSelectorDelegate::dismissed, (picker,), effects),
    ensures
        effects@.len() > 0,
        take_back(effects@, effects@.len() - 1, *old(picker)),
        effects@[effects@.len() - 1] is Dismiss,
        final(picker).selection_completed,
        same_but_for_completion(*final(picker), *old(picker)),
{
    let back = old(picker)@.reversion();
    lemma_effects(effects, back.push(EffectView::Dismiss));
    assert forall|i: int| 0 <= i < back.len() implies (#[trigger] effects@[i])@ == back[i] by {
        assert(back.push(EffectView::Dismiss)[i] == back[i]);
    }
    assert(effects@[effects@.len() - 1]@ is Dismiss);
    lemma_take_back(effects@, effects@.len() - 1, *old(picker));
    lemma_completed(*final(picker), *old(picker));
}

/// Confirming a picker of the settings counts the change, writes the shown theme to the
/// settings file, puts the window's own override back if it had one, and closes the picker.
pub proof fn confirming_in_the_settings(
    picker: &mut ThemeSelectorDelegate,
    system_appearance: Appearance,
    has_workspace: bool,
    effects: Vec<Effect>,
)
    requires
        call_ensures(
            ThemeSelectorDelegate::confirm,
            (picker, system_appearance, has_workspace),
            effects,
        ),
        old(picker).scope == ThemeSelectorScope::Global,
    ensures
        effects@.len() == if old(picker).original_had_window_override {
            4int
        } else {
            3int
        },
        effects@[0] matches Effect::Count(Report::SettingsChanged { value }) && value.0@ == old(
            picker,
        ).new_theme.name@,
        effects@[1] matches Effect::UpdateSettingsFile(update) && update.theme_name.0@ == old(
            picker,
        ).new_theme.name@ && update.theme_appearance == old(picker).new_theme.appearance
            && update.system_appearance == system_appearance,
        old(picker).original_had_window_override ==> effects@[2] is ApplyToWindow && same_theme(
            effects@[2]->ApplyToWindow_0,
            old(picker).original_window_theme,
        ),
        effects@[effects@.len() - 1] is Dismiss,
        final(picker).selection_completed,
        same_but_for_completion(*final(picker), *old(picker)),
{
    let views = old(picker)@.confirmation(system_appearance, has_workspace);
    lemma_effects(effects, views);
    lemma_completed(*final(picker), *old(picker));
    assert(effects@[0]@ == views[0]);
    assert(effects@[1]@ == views[1]);
    assert(effects@[2]@ == views[2]);
    assert(effects@[effects@.len() - 1]@ is Dismiss);
}

/// Confirming a picker of the window's theme counts the change, overrides the window with the
/// shown theme, through the workspace if there is one, and closes the picker.
pub proof fn confirming_in_the_window(
    picker: &mut ThemeSelectorDelegate,
    system_appearance: Appearance,
    has_workspace: bool,
    effects: Vec<Effect>,
)
    requires
        call_ensures(
            ThemeSelectorDelegate::confirm,
            (picker, system_appearance, has_workspace),
            effects,
        ),
        old(picker).scope == ThemeSelectorScope::Window,
    ensures
        effects@.len() == 3,
        effects@[0] matches Effect::Count(Report::WindowThemeChanged { value }) && value.0@ == old(
            picker,
        ).new_theme.name@,
        has_workspace ==> effects@[1] is SetWindowTheme && same_theme(
            effects@[1]->SetWindowTheme_0,
            old(picker).new_theme,
        ),
        !has_workspace ==> effects@[1] is ApplyToWindow && same_theme(
            effects@[1]->ApplyToWindow_0,
            old(picker).new_theme,
        ),
        effects@[2] is Dismiss,
        final(picker).selection_completed,
        same_but_for_completion(*final(picker), *old(picker)),
{
    let views = old(picker)@.confirmation(system_appearance, has_workspace);
    lemma_effects(effects, views);
    lemma_completed(*final(picker), *old(picker));
    assert(effects@[0]@ == views[0]);
    assert(effects@[1]@ == views[1]);
    assert(effects@[2]@ == views[2]);
}

// The dialog.

/// A dialog holds the picker that it is made around.
pub proof fn dialog_holds_its_picker(picker: ThemeSelectorDelegate, dialog: ThemeSelector)
    requires
        call_ensures(ThemeSelector::new, (picker,), dialog),
    ensures
        dialog.delegate == picker,
{
}

/// A dialog always closes, and does what reverting does before.
pub proof fn closing_the_dialog_takes_back(
    dialog: &mut ThemeSelector,
    outcome: (DismissDecision, Vec<Effect>),
)
    requires
        call_ensures(ThemeSelector::on_before_dismiss, (dialog,), outcome),
    ensures
        outcome.0 == DismissDecision::Dismiss(true),
        take_back(outcome.1@, outcome.1@.len() as int, old(dialog).delegate),
        final(dialog).delegate.selection_completed,
        same_but_for_completion(final(dialog).delegate, old(dialog).delegate),
{
    lemma_effects(outcome.1, old(dialog).delegate@.reversion());
    lemma_take_back(outcome.1@, outcome.1@.len() as int, old(dialog).delegate);
    lemma_completed(final(dialog).delegate, old(dialog).delegate);
}

/// The dialog is named for key bindings and wide enough for names.
pub proof fn dialog_has_its_frame(dialog: &ThemeSelector, frame: Frame)
    requires
        call_ensures(ThemeSelector::render, (dialog,), frame),
    ensures
        frame.key_context@ == "ThemeSelector"@,
        frame.width == Length::Rems(34),
{
}

} // verus!
