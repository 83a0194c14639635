//! What holds of the picker as a whole.
use vstd::prelude::*;

use crate::appearance::Appearance;
use crate::delegate::{HostState, ThemeSelectorDelegateView, ThemeSelectorScope};
use crate::effect::{EffectView, ReportView, SettingsUpdateView, Surroundings};
use crate::listing;
use crate::matching;
use crate::matching::StringMatchView;
use crate::session;
use crate::session::{Move, Session};
use crate::settings;
use crate::settings::ThemeSelectionView;
use crate::text;
use crate::theme::{ThemeMetaView, ThemeView};

verus! {

// The list of themes.

/// The list does not depend on the order in which themes were registered: the same
/// themes under the same filter give the same list.
pub proof fn listing_is_unique(
    first: Seq<ThemeMetaView>,
    second: Seq<ThemeMetaView>,
    registered: Seq<ThemeMetaView>,
    reordered: Seq<ThemeMetaView>,
    filter: Option<Seq<Seq<char>>>,
)
    requires
        registered.to_multiset() == reordered.to_multiset(),
        listing::is_listing(first, registered, filter),
        listing::is_listing(second, reordered, filter),
    ensures
        first == second,
{
    let leq = |a: ThemeMetaView, b: ThemeMetaView| listing::theme_leq(a, b);
    assert forall|a: ThemeMetaView, b: ThemeMetaView| #[trigger] leq(a, b) || leq(b, a) by {
        listing::theme_order_is_total(a, b);
    }
    assert forall|a: ThemeMetaView, b: ThemeMetaView| #[trigger] leq(a, b) && #[trigger] leq(b, a) implies a == b by {
        listing::theme_order_is_antisymmetric(a, b);
    }
    assert forall|a: ThemeMetaView, b: ThemeMetaView, c: ThemeMetaView|
        #[trigger] leq(a, b) && #[trigger] leq(b, c) implies leq(a, c) by {
        listing::theme_order_is_transitive(a, b, c);
    }
    assert forall|a: ThemeMetaView| #[trigger] leq(a, a) by {
        listing::theme_order_is_total(a, a);
    }
    lemma_filter_multiset(registered, filter);
    lemma_filter_multiset(reordered, filter);
    vstd::seq_lib::lemma_sorted_unique(first, second, leq);
}

/// Of the registered themes just those that the filter admits are left, each as often as
/// before.
pub proof fn lemma_filter_multiset(registered: Seq<ThemeMetaView>, filter: Option<Seq<Seq<char>>>)
    ensures
        listing::admitted(registered, filter).to_multiset() == registered.to_multiset().filter(
            |meta: ThemeMetaView| listing::admits(filter, meta.name),
        ),
    decreases registered.len(),
{
    let wanted = |meta: ThemeMetaView| listing::admits(filter, meta.name);
    listing::lemma_admitted_step(registered, filter);
    if registered.len() == 0 {
        vstd::seq_lib::to_multiset_len(registered);
        vstd::seq_lib::to_multiset_len(listing::admitted(registered, filter));
        assert(listing::admitted(registered, filter).to_multiset() =~= registered.to_multiset().filter(
        wanted));
    } else {
        let rest = registered.drop_last();
        lemma_filter_multiset(rest, filter);
        assert(registered =~= rest.push(registered.last()));
        vstd::seq_lib::to_multiset_build(rest, registered.last());
        vstd::seq_lib::to_multiset_build(listing::admitted(rest, filter), registered.last());
        assert(listing::admitted(registered, filter).to_multiset() =~= registered.to_multiset().filter(
        wanted));
    }
}

/// A theme is listed if and only if it is registered and the filter admits it.
pub proof fn listed_are_the_admitted(
    themes: Seq<ThemeMetaView>,
    registered: Seq<ThemeMetaView>,
    filter: Option<Seq<Seq<char>>>,
    meta: ThemeMetaView,
)
    requires
        listing::is_listing(themes, registered, filter),
    ensures
        themes.contains(meta) <==> registered.contains(meta) && listing::admits(filter, meta.name),
{
    lemma_filter_multiset(registered, filter);
    vstd::seq_lib::to_multiset_contains(themes, meta);
    vstd::seq_lib::to_multiset_contains(registered, meta);
}

/// No light theme stands before a dark one.
pub proof fn dark_themes_come_first(themes: Seq<ThemeMetaView>, i: int, j: int)
    requires
        listing::in_theme_order(themes),
        0 <= i < j < themes.len(),
        themes[i].appearance is Light,
    ensures
        themes[j].appearance is Light,
{
    assert(listing::theme_leq(themes[i], themes[j]));
}

// The settings that a picked theme makes.

/// A picked theme is seen under the setting that it makes.
pub proof fn picked_theme_is_seen(
    original: ThemeSelectionView,
    theme: ThemeView,
    system_appearance: Appearance,
)
    ensures
        settings::selection_showing(original, theme, system_appearance).shown_name(
            system_appearance,
        ) == theme.name,
{
}

/// A picked theme leaves one theme one theme and a pair a pair.
pub proof fn picked_theme_keeps_the_kind(
    original: ThemeSelectionView,
    theme: ThemeView,
    system_appearance: Appearance,
)
    ensures
        settings::selection_showing(original, theme, system_appearance) is Static
            <==> original is Static,
{
}

/// A picked theme leaves the other theme of a pair as it was before the picker was
/// opened, and the mode as well where it follows the system and shows the theme.
pub proof fn picked_theme_keeps_the_opposing_theme(
    original: ThemeSelectionView,
    theme: ThemeView,
    system_appearance: Appearance,
)
    requires
        original is Dynamic,
    ensures
        ({
            let picked = settings::selection_showing(original, theme, system_appearance);
            &&& picked is Dynamic
            &&& theme.appearance is Light ==> picked->dark == original->dark
            &&& theme.appearance is Dark ==> picked->light == original->light
            &&& picked->mode is System <==> original->mode is System && system_appearance
                == theme.appearance
        }),
{
}

// The open picker.

/// A picker that has just been opened is in order, remembers what there is, and has
/// the original theme selected where that is listed.
pub proof fn opened_picker_remembers(
    session: Session,
    filter: Option<Seq<Seq<char>>>,
    scope: ThemeSelectorScope,
    host: HostState,
)
    requires
        session.picker.opened(filter, scope, host),
        host.describes(session.surroundings),
    ensures
        session.picker.wf(),
        session.just_opened(),
        session.unmasked(),
        session.picker.selected_is_shown(),
        matching::theme_names(session.picker.themes).contains(host.original_theme(scope).name)
            ==> session.picker.name_at(session.picker.selected_index) == Some(
            host.original_theme(scope).name,
        ),
{
    text::lemma_first_index(
        matching::theme_names(session.picker.themes),
        host.original_theme(scope).name,
    );
}

/// What comes of some effects and then others is what comes of all of them.
pub proof fn effects_compose(
    surroundings: Surroundings,
    first: Seq<EffectView>,
    second: Seq<EffectView>,
)
    ensures
        surroundings.after_all(first + second) == surroundings.after_all(first).after_all(second),
    decreases second.len(),
{
    if second.len() == 0 {
        assert(first + second =~= first);
    } else {
        assert((first + second).drop_last() =~= first + second.drop_last());
        effects_compose(surroundings, first, second.drop_last());
    }
}

proof fn lemma_after_one(surroundings: Surroundings, effect: EffectView)
    ensures
        surroundings.after_all(seq![effect]) == surroundings.after(effect),
        surroundings.after_all(seq![]) == surroundings,
{
    assert(seq![effect].drop_last() =~= seq![]);
    reveal_with_fuel(Surroundings::after_all, 2);
}

proof fn lemma_after_push(
    surroundings: Surroundings,
    effects: Seq<EffectView>,
    effect: EffectView,
)
    ensures
        surroundings.after_all(effects.push(effect)) == surroundings.after_all(effects).after(effect),
{
    assert(effects.push(effect).drop_last() =~= effects);
}

/// What comes of showing `theme`.
proof fn lemma_preview(
    picker: ThemeSelectorDelegateView,
    surroundings: Surroundings,
    theme: ThemeView,
)
    ensures
        surroundings.after_all(picker.preview(theme, surroundings.settings)) == (Surroundings {
            settings: match picker.scope {
                ThemeSelectorScope::Global => match settings::settings_showing(
                    surroundings.settings,
                    theme,
                    picker.original_theme_settings.theme,
                    picker.original_system_appearance,
                ) {
                    Some(settings) => settings,
                    None => surroundings.settings,
                },
                ThemeSelectorScope::Window => surroundings.settings,
            },
            window_override: if picker.scope is Window || picker.original_had_window_override {
                Some(theme)
            } else {
                surroundings.window_override
            },
            ..surroundings
        }),
{
    lemma_after_one(surroundings, EffectView::ApplyToWindow(theme));
    if picker.scope is Global {
        let shown = settings::settings_showing(
            surroundings.settings,
            theme,
            picker.original_theme_settings.theme,
            picker.original_system_appearance,
        );
        let in_settings = match shown {
            Some(settings) => seq![EffectView::OverrideSettings(settings)],
            None => seq![],
        };
        if shown is Some {
            lemma_after_one(surroundings, EffectView::OverrideSettings(shown->0));
        }
        lemma_after_push(surroundings, in_settings, EffectView::ApplyToWindow(theme));
    }
}

/// What comes of taking back what was shown.
proof fn lemma_reversion(session: Session)
    requires
        !session.picker.selection_completed,
        session.unmasked(),
    ensures
        session.surroundings.after_all(session.picker.reversion()) == (Surroundings {
            settings: match session.picker.scope {
                ThemeSelectorScope::Global => session.picker.original_theme_settings,
                ThemeSelectorScope::Window => session.surroundings.settings,
            },
            window_override: session.own_override(),
            ..session.surroundings
        }),
{
    let picker = session.picker;
    let surroundings = session.surroundings;
    let back = EffectView::ApplyToWindow(picker.original_window_theme);
    let reset = EffectView::OverrideSettings(picker.original_theme_settings);
    lemma_after_one(surroundings, EffectView::ClearForWindow);
    lemma_after_one(surroundings, back);
    lemma_after_one(surroundings, reset);
    effects_compose(surroundings, seq![reset], picker.window_restoration());
    lemma_after_one(surroundings.after(reset), back);
}

/// What moves leave alone: the list, what the picker remembers from when it was
/// opened, whether it has been completed, and all that it acts on but the settings
/// in memory and the window's override.
pub proof fn moves_keep(session: Session, moves: Seq<Move>)
    ensures
        ({
            let now = session.after_all(moves);
            &&& now.picker == (ThemeSelectorDelegateView {
                matches: now.picker.matches,
                new_theme: now.picker.new_theme,
                selected_theme: now.picker.selected_theme,
                selected_index: now.picker.selected_index,
                ..session.picker
            })
            &&& now.surroundings == (Surroundings {
                settings: now.surroundings.settings,
                window_override: now.surroundings.window_override,
                ..session.surroundings
            })
            &&& session.picker.wf() ==> now.picker.wf()
            &&& session.unmasked() ==> now.unmasked()
        }),
    decreases moves.len(),
{
    if moves.len() > 0 {
        moves_keep(session, moves.drop_last());
        lemma_move(session.after_all(moves.drop_last()), moves.last());
    }
}

/// What comes of one move.
proof fn lemma_move(session: Session, step: Move)
    ensures
        ({
            let now = session.after(step);
            &&& now.picker == (ThemeSelectorDelegateView {
                matches: now.picker.matches,
                new_theme: now.picker.new_theme,
                selected_theme: now.picker.selected_theme,
                selected_index: now.picker.selected_index,
                ..session.picker
            })
            &&& now.surroundings == (Surroundings {
                settings: now.surroundings.settings,
                window_override: now.surroundings.window_override,
                ..session.surroundings
            })
            &&& session.unmasked() ==> now.unmasked()
            &&& session.picker.scope is Window ==> now.surroundings.settings == match step {
                Move::Edit(settings) => settings,
                _ => session.surroundings.settings,
            }
        }),
{
    match step {
        Move::Select { ix, loaded } => {
            lemma_showing(session.picker.at_index(ix), session.surroundings, loaded);
        },
        Move::Search { query, matches, loaded } => {
            lemma_showing(
                session.picker.with_matches(query, matches),
                session.surroundings,
                loaded,
            );
        },
        Move::Preview(theme) => {
            lemma_preview(session.picker, session.surroundings, theme);
        },
        Move::Edit(_) => {},
    }
}

proof fn lemma_showing(
    picker: ThemeSelectorDelegateView,
    surroundings: Surroundings,
    loaded: Option<ThemeView>,
)
    ensures
        ({
            let now = surroundings.after_all(picker.showing(loaded, surroundings.settings));
            &&& now == (Surroundings {
                settings: now.settings,
                window_override: now.window_override,
                ..surroundings
            })
            &&& picker.scope is Window ==> now.settings == surroundings.settings
            &&& picker.scope is Global && !picker.original_had_window_override
                ==> now.window_override == surroundings.window_override
        }),
{
    match picker.shown(loaded) {
        Some(theme) => {
            lemma_preview(picker, surroundings, theme);
        },
        None => {
            lemma_after_one(surroundings, EffectView::Dismiss);
        },
    }
}

/// A picker of the window's theme leaves the settings to others: they are what
/// others make of them, however the user moves.
pub proof fn window_picker_leaves_the_settings(session: Session, moves: Seq<Move>)
    requires
        session.picker.scope is Window,
    ensures
        session.after_all(moves).surroundings.settings == session::edited(
            session.surroundings.settings,
            moves,
        ),
    decreases moves.len(),
{
    if moves.len() > 0 {
        window_picker_leaves_the_settings(session, moves.drop_last());
        moves_keep(session, moves.drop_last());
        lemma_move(session.after_all(moves.drop_last()), moves.last());
    }
}

/// Reverting the picker takes everything back: however the user has moved, what there
/// is then is what there was before the picker was opened, the window's own override
/// among it. Changes that others have made to the settings meanwhile are taken back by
/// a picker of the settings, and kept by a picker of the window's theme.
pub proof fn reverting_takes_everything_back(session: Session, moves: Seq<Move>)
    requires
        session.just_opened(),
    ensures
        ({
            let now = session.after_all(moves);
            let reverted = now.surroundings.after_all(now.picker.reversion());
            &&& reverted == (Surroundings {
                settings: match session.picker.scope {
                    ThemeSelectorScope::Global => session.surroundings.settings,
                    ThemeSelectorScope::Window => session::edited(
                        session.surroundings.settings,
                        moves,
                    ),
                },
                ..session.surroundings
            })
            &&& reverted.window_override == session.own_override()
        }),
{
    moves_keep(session, moves);
    if session.picker.scope is Window {
        window_picker_leaves_the_settings(session, moves);
    }
    lemma_reversion(session.after_all(moves));
}

/// Dismissing the picker takes everything back: however the user has moved, what
/// there is then is what there was before the picker was opened. Changes that
/// others have made to the settings meanwhile are taken back by a picker of the
/// settings, and kept by a picker of the window's theme.
pub proof fn dismissing_takes_everything_back(session: Session, moves: Seq<Move>)
    requires
        session.just_opened(),
    ensures
        ({
            let now = session.after_all(moves);
            now.surroundings.after_all(now.picker.reversion().push(EffectView::Dismiss)) == (
            Surroundings {
                settings: match session.picker.scope {
                    ThemeSelectorScope::Global => session.surroundings.settings,
                    ThemeSelectorScope::Window => session::edited(
                        session.surroundings.settings,
                        moves,
                    ),
                },
                picker_open: false,
                ..session.surroundings
            })
        }),
{
    let now = session.after_all(moves);
    reverting_takes_everything_back(session, moves);
    lemma_after_push(now.surroundings, now.picker.reversion(), EffectView::Dismiss);
}

/// A picker that has been confirmed or reverted takes nothing back any more: closing
/// it changes neither the picker nor what it acts on.
pub proof fn completion_is_final(picker: ThemeSelectorDelegateView, surroundings: Surroundings)
    ensures
        picker.completed().reversion() == Seq::<EffectView>::empty(),
        surroundings.after_all(picker.completed().reversion()) == surroundings,
        picker.completed().completed() == picker.completed(),
{
}

/// Confirming a picker of the settings writes the shown theme to the settings file,
/// once, and leaves the window with its own override, however the user has moved.
pub proof fn confirming_writes_the_settings(
    session: Session,
    moves: Seq<Move>,
    system_appearance: Appearance,
    has_workspace: bool,
)
    requires
        session.just_opened(),
        session.picker.scope is Global,
    ensures
        ({
            let now = session.after_all(moves);
            now.surroundings.after_all(now.picker.confirmation(system_appearance, has_workspace))
                == (Surroundings {
                settings: now.surroundings.settings,
                file_updates: session.surroundings.file_updates.push(
                    SettingsUpdateView {
                        theme_name: now.picker.new_theme.name,
                        theme_appearance: now.picker.new_theme.appearance,
                        system_appearance,
                    },
                ),
                reports: session.surroundings.reports.push(
                    ReportView::SettingsChanged { value: now.picker.new_theme.name },
                ),
                picker_open: false,
                ..session.surroundings
            })
        }),
{
    let now = session.after_all(moves);
    moves_keep(session, moves);
    let count = EffectView::Count(
        ReportView::SettingsChanged { value: now.picker.new_theme.name },
    );
    let write = EffectView::UpdateSettingsFile(
        SettingsUpdateView {
            theme_name: now.picker.new_theme.name,
            theme_appearance: now.picker.new_theme.appearance,
            system_appearance,
        },
    );
    let back = EffectView::ApplyToWindow(now.picker.original_window_theme);
    let s0 = now.surroundings;
    lemma_after_one(s0, count);
    assert(seq![count, write] =~= seq![count].push(write));
    lemma_after_push(s0, seq![count], write);
    let s1 = s0.after(count).after(write);
    effects_compose(s0, seq![count, write], now.picker.window_restoration());
    lemma_after_one(s1, back);
    effects_compose(
        s0,
        seq![count, write] + now.picker.window_restoration(),
        seq![EffectView::Dismiss],
    );
    lemma_after_one(s1.after_all(now.picker.window_restoration()), EffectView::Dismiss);
}

/// Confirming a picker of the window's theme overrides it with the shown theme, lets
/// the workspace remember it if there is one, and changes neither the settings nor
/// the settings file, however the user has moved.
pub proof fn confirming_overrides_the_window(
    session: Session,
    moves: Seq<Move>,
    system_appearance: Appearance,
    has_workspace: bool,
)
    requires
        session.picker.scope is Window,
    ensures
        ({
            let now = session.after_all(moves);
            now.surroundings.after_all(now.picker.confirmation(system_appearance, has_workspace))
                == (Surroundings {
                settings: session::edited(session.surroundings.settings, moves),
                window_override: Some(now.picker.new_theme),
                workspace_override: if has_workspace {
                    Some(now.picker.new_theme.name)
                } else {
                    session.surroundings.workspace_override
                },
                reports: session.surroundings.reports.push(
                    ReportView::WindowThemeChanged { value: now.picker.new_theme.name },
                ),
                picker_open: false,
                ..session.surroundings
            })
        }),
{
    let now = session.after_all(moves);
    moves_keep(session, moves);
    window_picker_leaves_the_settings(session, moves);
    let count = EffectView::Count(
        ReportView::WindowThemeChanged { value: now.picker.new_theme.name },
    );
    let put = if has_workspace {
        EffectView::SetWindowTheme(now.picker.new_theme)
    } else {
        EffectView::ApplyToWindow(now.picker.new_theme)
    };
    let s0 = now.surroundings;
    lemma_after_one(s0, count);
    lemma_after_push(s0, seq![count], put);
    lemma_after_push(s0, seq![count].push(put), EffectView::Dismiss);
    assert(now.picker.confirmation(system_appearance, has_workspace) =~= seq![count].push(
        put,
    ).push(EffectView::Dismiss));
}

/// Confirming a picker of the settings at once writes the configured theme, not the
/// one that overrides it in the window.
pub proof fn confirming_at_once_writes_the_configured_theme(
    session: Session,
    filter: Option<Seq<Seq<char>>>,
    host: HostState,
    system_appearance: Appearance,
    has_workspace: bool,
)
    requires
        session.picker.opened(filter, ThemeSelectorScope::Global, host),
        host.describes(session.surroundings),
    ensures
        session.surroundings.after_all(
            session.picker.confirmation(system_appearance, has_workspace),
        ).file_updates == session.surroundings.file_updates.push(
            SettingsUpdateView {
                theme_name: host.configured_theme@.name,
                theme_appearance: host.configured_theme@.appearance,
                system_appearance,
            },
        ),
{
    confirming_writes_the_settings(session, seq![], system_appearance, has_workspace);
}

/// A shown theme is what the window shows, whatever it showed before, as long as
/// the setting has not changed between one theme and a pair since the picker was
/// opened.
pub proof fn shown_theme_is_seen_in_the_window(session: Session, theme: ThemeView)
    requires
        session.unmasked(),
        session.surroundings.settings.theme is Static
            <==> session.picker.original_theme_settings.theme is Static,
    ensures
        session.surroundings.after_all(
            session.picker.preview(theme, session.surroundings.settings),
        ).window_theme_name(session.picker.original_system_appearance) == theme.name,
{
    lemma_preview(session.picker, session.surroundings, theme);
    picked_theme_is_seen(
        session.picker.original_theme_settings.theme,
        theme,
        session.picker.original_system_appearance,
    );
}

/// Moving to a match whose theme loads selects and shows that theme: it is what the
/// window then shows, as long as the setting has not changed between one theme and a
/// pair since the picker was opened.
pub proof fn selecting_shows_the_theme(session: Session, ix: int, theme: ThemeView)
    requires
        session.unmasked(),
        session.surroundings.settings.theme is Static
            <==> session.picker.original_theme_settings.theme is Static,
        session.picker.name_at(ix) == Some(theme.name),
    ensures
        ({
            let now = session.after(Move::Select { ix, loaded: Some(theme) });
            &&& now.picker.selected_index == ix
            &&& now.picker.selected_theme == Some(theme)
            &&& now.picker.new_theme == theme
            &&& now.surroundings.window_theme_name(session.picker.original_system_appearance)
                == theme.name
        }),
{
    let here = Session { picker: session.picker.at_index(ix), ..session };
    shown_theme_is_seen_in_the_window(here, theme);
}

/// Searching shows what it selects: where the line that is selected among the new matches
/// is there and its theme loads, that theme becomes the one moved to and the one shown, and
/// it is what the window then shows, as long as the setting has not changed between one
/// theme and a pair since the picker was opened.
pub proof fn searching_shows_the_theme(
    session: Session,
    query: Seq<char>,
    matches: Seq<StringMatchView>,
    theme: ThemeView,
)
    requires
        ({
            let ix = session.after(
                Move::Search { query, matches, loaded: Some(theme) },
            ).picker.selected_index;
            0 <= ix < matches.len() && matches[ix].string == theme.name
        }),
    ensures
        ({
            let now = session.after(Move::Search { query, matches, loaded: Some(theme) });
            &&& now.picker.matches == matches
            &&& now.picker.selected_theme == Some(theme)
            &&& now.picker.new_theme == theme
            &&& session.unmasked() && (session.surroundings.settings.theme is Static
                <==> session.picker.original_theme_settings.theme is Static)
                ==> now.surroundings.window_theme_name(session.picker.original_system_appearance)
                == theme.name
        }),
{
    let here = Session { picker: session.picker.with_matches(query, matches), ..session };
    if session.unmasked() && (session.surroundings.settings.theme is Static
        <==> session.picker.original_theme_settings.theme is Static) {
        shown_theme_is_seen_in_the_window(here, theme);
    }
}

/// Confirming right after a search chooses the theme that the search has shown: a picker of
/// the window's theme overrides the window with it, and a picker of the settings writes it to
/// the settings file.
pub proof fn confirming_after_a_search_chooses_what_is_shown(
    session: Session,
    moves: Seq<Move>,
    query: Seq<char>,
    matches: Seq<StringMatchView>,
    theme: ThemeView,
    system_appearance: Appearance,
    has_workspace: bool,
)
    requires
        session.just_opened(),
        ({
            let ix = session.after_all(moves).after(
                Move::Search { query, matches, loaded: Some(theme) },
            ).picker.selected_index;
            0 <= ix < matches.len() && matches[ix].string == theme.name
        }),
    ensures
        ({
            let now = session.after_all(moves).after(
                Move::Search { query, matches, loaded: Some(theme) },
            );
            let chosen = now.surroundings.after_all(
                now.picker.confirmation(system_appearance, has_workspace),
            );
            &&& session.picker.scope == ThemeSelectorScope::Window ==> chosen.window_override
                == Some(theme)
            &&& session.picker.scope == ThemeSelectorScope::Window && has_workspace
                ==> chosen.workspace_override == Some(theme.name)
            &&& session.picker.scope == ThemeSelectorScope::Global ==> {
                &&& chosen.file_updates.len() == session.surroundings.file_updates.len() + 1
                &&& chosen.file_updates.last().theme_name == theme.name
                &&& chosen.file_updates.last().theme_appearance == theme.appearance
            }
        }),
{
    let step = Move::Search { query, matches, loaded: Some(theme) };
    assert(moves.push(step).drop_last() =~= moves);
    assert(session.after_all(moves.push(step)) == session.after_all(moves).after(step));
    searching_shows_the_theme(session.after_all(moves), query, matches, theme);
    moves_keep(session, moves.push(step));
    if session.picker.scope is Window {
        confirming_overrides_the_window(
            session,
            moves.push(step),
            system_appearance,
            has_workspace,
        );
    } else {
        confirming_writes_the_settings(
            session,
            moves.push(step),
            system_appearance,
            has_workspace,
        );
    }
}

/// The first, empty query of a picker that has just been opened leaves the theme that the
/// picker starts from selected, where it is listed.
pub proof fn first_query_keeps_the_starting_theme(
    session: Session,
    filter: Option<Seq<Seq<char>>>,
    scope: ThemeSelectorScope,
    host: HostState,
    matches: Seq<StringMatchView>,
    loaded: Option<ThemeView>,
    j: int,
)
    requires
        session.picker.opened(filter, scope, host),
        0 <= j < session.picker.themes.len(),
        session.picker.themes[j].name == if scope == ThemeSelectorScope::Global {
            host.configured_theme.name@
        } else {
            host.window_theme.name@
        },
        matches.len() == session.picker.themes.len(),
        forall|i: int|
            0 <= i < matches.len() ==> (#[trigger] matches[i]).string
                == session.picker.themes[i].name,
    ensures
        ({
            let now = session.after(Move::Search { query: seq![], matches, loaded }).picker;
            &&& now.selected_index == session.picker.selected_index
            &&& 0 <= now.selected_index <= j
            &&& matches[now.selected_index].string == session.picker.themes[j].name
        }),
{
    let names = matching::theme_names(session.picker.themes);
    text::lemma_first_index(names, host.original_theme(scope).name);
    assert(names[j] == session.picker.themes[j].name);
}

/// Where the setting has changed between one theme and a pair since the picker was
/// opened, showing a theme leaves the settings as they are.
pub proof fn settings_of_another_kind_are_left_alone(session: Session, theme: ThemeView)
    requires
        session.surroundings.settings.theme is Static
            <==> session.picker.original_theme_settings.theme is Dynamic,
    ensures
        session.surroundings.after_all(
            session.picker.preview(theme, session.surroundings.settings),
        ).settings == session.surroundings.settings,
{
    lemma_preview(session.picker, session.surroundings, theme);
}

/// Of themes shown one after the other, only the last counts.
pub proof fn last_shown_theme_counts(session: Session, first: ThemeView, second: ThemeView)
    ensures
        ({
            let picker = session.picker;
            let before = session.surroundings;
            let between = before.after_all(picker.preview(first, before.settings));
            between.after_all(picker.preview(second, between.settings)) == before.after_all(
                picker.preview(second, before.settings),
            )
        }),
{
    let picker = session.picker;
    let before = session.surroundings;
    let between = before.after_all(picker.preview(first, before.settings));
    lemma_preview(picker, before, first);
    lemma_preview(picker, before, second);
    lemma_preview(picker, between, second);
}

/// However the user moves, the theme that they moved to is the one that is shown, as
/// long as no theme is shown but by moving to it.
pub proof fn selected_theme_is_shown(session: Session, moves: Seq<Move>)
    requires
        session.picker.selected_is_shown(),
        session::show_by_selecting(moves),
    ensures
        session.after_all(moves).picker.selected_is_shown(),
    decreases moves.len(),
{
    if moves.len() > 0 {
        assert forall|i: int| 0 <= i < moves.drop_last().len() implies !(
        #[trigger] moves.drop_last()[i] is Preview) by {
            assert(!(moves[i] is Preview));
        }
        selected_theme_is_shown(session, moves.drop_last());
        assert(!(moves[moves.len() - 1] is Preview));
    }
}

/// The selection is always a match, as long as there are matches.
pub proof fn selection_is_a_match(
    picker: ThemeSelectorDelegateView,
    query: Seq<char>,
    matches: Seq<StringMatchView>,
)
    requires
        picker.selected_index >= 0,
    ensures
        matches.len() > 0 ==> 0 <= picker.with_matches(query, matches).selected_index
            < matches.len(),
        matches.len() == 0 ==> picker.with_matches(query, matches).selected_index == 0,
{
    if picker.selected_theme is Some {
        text::lemma_first_index(matching::match_names(matches), picker.selected_theme->0.name);
    }
}

/// A query without matches changes nothing but the matches: the theme that the user
/// moved to stays selected and shown.
pub proof fn query_without_matches_keeps_the_selection(
    session: Session,
    query: Seq<char>,
    loaded: Option<ThemeView>,
)
    ensures
        ({
            let now = session.after(Move::Search { query, matches: seq![], loaded });
            &&& now.surroundings == session.surroundings
            &&& now.picker.new_theme == session.picker.new_theme
            &&& now.picker.selected_theme == session.picker.selected_theme
        }),
{
    lemma_after_one(session.surroundings, EffectView::Dismiss);
}

/// A theme that the user moved to is selected and shown again when a query without
/// matches is cleared, where the registry gives a theme of the name that it is
/// asked for, or gives none and a theme of that name is still shown.
pub proof fn selection_survives_a_query_without_matches(
    session: Session,
    query: Seq<char>,
    unused: Option<ThemeView>,
    loaded: Option<ThemeView>,
)
    requires
        session.picker.selected_theme is Some,
        loaded is None ==> session.picker.new_theme.name
            == session.picker.selected_theme->0.name,
        matching::theme_names(session.picker.themes).contains(
            session.picker.selected_theme->0.name,
        ),
        loaded matches Some(theme) ==> Some(theme.name)
            == cleared(session, query, unused).name_at(
            cleared(session, query, unused).selected_index,
        ),
    ensures
        ({
            let name = session.picker.selected_theme->0.name;
            let all = matching::all_matches(session.picker.themes);
            let now = session.after(
                Move::Search { query, matches: seq![], loaded: unused },
            ).after(Move::Search { query: seq![], matches: all, loaded });
            &&& now.picker.name_at(now.picker.selected_index) == Some(name)
            &&& now.picker.selected_theme matches Some(theme) && theme.name == name
            &&& now.picker.new_theme.name == name
        }),
{
    query_without_matches_keeps_the_selection(session, query, unused);
    let all = matching::all_matches(session.picker.themes);
    let name = session.picker.selected_theme->0.name;
    assert(matching::match_names(all) =~= matching::theme_names(session.picker.themes));
    text::lemma_first_index(matching::match_names(all), name);
}

/// The picker once a query without matches has been typed and cleared, before the
/// theme that is then selected has been loaded.
pub open spec fn cleared(
    session: Session,
    query: Seq<char>,
    unused: Option<ThemeView>,
) -> ThemeSelectorDelegateView {
    session.after(Move::Search { query, matches: seq![], loaded: unused }).picker.with_matches(
        seq![],
        matching::all_matches(session.picker.themes),
    )
}

/// In a picker that has just been opened, the check mark stands on the first theme of
/// the original theme's name, and nowhere if there is none: a filter that leaves the
/// original theme out makes no other theme the active one.
pub proof fn check_mark_is_on_the_original_theme(
    picker: ThemeSelectorDelegateView,
    filter: Option<Seq<Seq<char>>>,
    scope: ThemeSelectorScope,
    host: HostState,
    ix: int,
)
    requires
        picker.opened(filter, scope, host),
    ensures
        picker.is_original(ix) <==> text::is_first_index(
            matching::theme_names(picker.themes),
            host.original_theme(scope).name,
            ix,
        ),
        !matching::theme_names(picker.themes).contains(host.original_theme(scope).name)
            ==> !picker.is_original(ix),
{
    text::lemma_first_index(
        matching::theme_names(picker.themes),
        host.original_theme(scope).name,
    );
}

/// The list itself, as matches, is of the themes of the list.
pub proof fn whole_list_matches_itself(themes: Seq<ThemeMetaView>)
    ensures
        matching::are_matches_of(matching::all_matches(themes), themes),
{
}

/// However the user moves, the matches stay themes of the list, as long as those that
/// the moves bring are.
pub proof fn matches_stay_in_the_list(session: Session, moves: Seq<Move>)
    requires
        matching::are_matches_of(session.picker.matches, session.picker.themes),
        session::bring_matches_of(moves, session.picker.themes),
    ensures
        matching::are_matches_of(
            session.after_all(moves).picker.matches,
            session.picker.themes,
        ),
    decreases moves.len(),
{
    if moves.len() > 0 {
        let before = moves.drop_last();
        assert forall|i: int| 0 <= i < before.len() implies match #[trigger] before[i] {
            Move::Search { matches, .. } => matching::are_matches_of(
                matches,
                session.picker.themes,
            ),
            _ => true,
        } by {
            assert(before[i] == moves[i]);
        }
        matches_stay_in_the_list(session, before);
        assert(moves.last() == moves[moves.len() - 1]);
    }
}

/// The check mark stays on the original theme through filtering: after any moves it
/// stands on the lines, and only those, whose theme is the first of the original
/// theme's name in the list, and so only on lines of that name.
pub proof fn check_mark_stays_on_the_original_theme(
    session: Session,
    filter: Option<Seq<Seq<char>>>,
    scope: ThemeSelectorScope,
    host: HostState,
    moves: Seq<Move>,
    ix: int,
)
    requires
        session.picker.opened(filter, scope, host),
        session::bring_matches_of(moves, session.picker.themes),
    ensures
        ({
            let now = session.after_all(moves).picker;
            &&& matching::are_matches_of(now.matches, now.themes)
            &&& now.is_original(ix) <==> 0 <= ix < now.matches.len() && text::is_first_index(
                matching::theme_names(now.themes),
                host.original_theme(scope).name,
                now.matches[ix].candidate_id,
            )
            &&& now.is_original(ix) ==> now.name_at(ix) == Some(host.original_theme(scope).name)
        }),
{
    whole_list_matches_itself(session.picker.themes);
    matches_stay_in_the_list(session, moves);
    moves_keep(session, moves);
    text::lemma_first_index(
        matching::theme_names(session.picker.themes),
        host.original_theme(scope).name,
    );
}

/// Clearing the override of the window's theme brings the configured theme back, and
/// the workspace remembers none.
pub proof fn clearing_restores_the_configured_theme(
    surroundings: Surroundings,
    system_appearance: Appearance,
)
    ensures
        surroundings.after(EffectView::ClearWindowTheme).window_theme_name(system_appearance)
            == surroundings.settings.theme.shown_name(system_appearance),
        surroundings.after(EffectView::ClearWindowTheme).workspace_override is None,
        surroundings.after(EffectView::ClearWindowTheme).settings == surroundings.settings,
{
}

} // verus!
