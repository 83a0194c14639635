//! Which themes are listed, and in what order.
use vstd::prelude::*;

use crate::text;
use crate::theme::{ThemeMeta, ThemeMetaView};

verus! {

/// Whether a theme of this name is to be listed: every theme when there is no
/// filter, otherwise those whose names the filter holds.
pub open spec fn admits(filter: Option<Seq<Seq<char>>>, name: Seq<char>) -> bool {
    match filter {
        Some(names) => names.contains(name),
        None => true,
    }
}

/// The order of the list: dark themes before light ones, and by name among themes
/// of one appearance.
pub open spec fn theme_leq(
    a: ThemeMetaView,
    b: ThemeMetaView,
) -> bool {
    if a.appearance == b.appearance {
        text::name_leq(a.name, b.name)
    } else {
        a.appearance is Dark
    }
}

/// Whether `themes` stand in the order of the list.
pub open spec fn in_theme_order(themes: Seq<ThemeMetaView>) -> bool {
    forall|i: int, j: int|
        0 <= i < j < themes.len() ==> #[trigger] theme_leq(themes[i], themes[j])
}

/// The themes of `registered` that the filter admits, in the order in which they
/// were registered.
pub open spec fn admitted(
    registered: Seq<ThemeMetaView>,
    filter: Option<Seq<Seq<char>>>,
) -> Seq<ThemeMetaView> {
    registered.filter(|meta: ThemeMetaView| admits(filter, meta.name))
}

/// Whether `listing` is the list of the themes of `registered` that the filter
/// admits: each as often as it is registered, in the order of the list.
pub open spec fn is_listing(
    listing: Seq<ThemeMetaView>,
    registered: Seq<ThemeMetaView>,
    filter: Option<Seq<Seq<char>>>,
) -> bool {
    &&& in_theme_order(listing)
    &&& listing.to_multiset() == admitted(registered, filter).to_multiset()
}

/// Of two listed themes, one may stand before the other.
pub proof fn theme_order_is_total(a: ThemeMetaView, b: ThemeMetaView)
    ensures
        theme_leq(a, b) || theme_leq(b, a),
{
    text::lemma_name_leq_total(a.name, b.name);
}

/// The order of the list is transitive.
pub proof fn theme_order_is_transitive(a: ThemeMetaView, b: ThemeMetaView, c: ThemeMetaView)
    requires
        theme_leq(a, b),
        theme_leq(b, c),
    ensures
        theme_leq(a, c),
{
    if a.appearance == b.appearance && b.appearance == c.appearance {
        text::lemma_name_leq_transitive(a.name, b.name, c.name);
    }
}

/// Themes that may each stand before the other are the same theme.
pub proof fn theme_order_is_antisymmetric(a: ThemeMetaView, b: ThemeMetaView)
    requires
        theme_leq(a, b),
        theme_leq(b, a),
    ensures
        a == b,
{
    if a.appearance == b.appearance {
        text::lemma_name_leq_antisymmetric(a.name, b.name);
    }
}

/// Whether `names` holds `name`.
fn holds(names: &Vec<String>, name: &String) -> (found: bool)
    ensures
        found == names.deep_view().contains(name@),
{
    let ghost views = names.deep_view();
    let mut i: usize = 0;
    while i < names.len()
        invariant
            i <= names.len(),
            views == names.deep_view(),
            forall|j: int| 0 <= j < i ==> views[j] != name@,
        decreases names.len() - i,
    {
        if names[i] == *name {
            assert(views[i as int] == name@);
            return true;
        }
        i = i + 1;
    }
    false
}

/// Whether `a` comes before `b` in the list, or may stand next to it either way.
fn not_after(a: &ThemeMeta, b: &ThemeMeta) -> (leq: bool)
    ensures
        leq == theme_leq(a@, b@),
{
    if a.appearance == b.appearance {
        text::name_not_after(a.name.as_str(), b.name.as_str())
    } else {
        !a.appearance.is_light()
    }
}

/// Puts `meta` at its place in a list that is in order.
fn insert_in_order(themes: &mut Vec<ThemeMeta>, meta: ThemeMeta)
    requires
        in_theme_order(old(themes).deep_view()),
    ensures
        in_theme_order(final(themes).deep_view()),
        final(themes).deep_view().to_multiset() == old(themes).deep_view().to_multiset().insert(
            meta@,
        ),
{
    let ghost before = themes.deep_view();
    let ghost item = meta@;
    let mut at: usize = 0;
    while at < themes.len() && not_after(&themes[at], &meta)
        invariant
            at <= themes.len(),
            before == themes.deep_view(),
            item == meta@,
            forall|j: int| 0 <= j < at ==> theme_leq(#[trigger] before[j], item),
        decreases themes.len() - at,
    {
        assert(theme_leq(before[at as int], item));
        at = at + 1;
    }
    assert(at < before.len() ==> !theme_leq(before[at as int], item));
    themes.insert(at, meta);
    proof {
        let after = themes.deep_view();
        assert(after =~= before.insert(at as int, item));
        vstd::seq_lib::to_multiset_insert(before, at as int, item);
        assert forall|i: int, j: int| 0 <= i < j < after.len() implies #[trigger] theme_leq(
            after[i],
            after[j],
        ) by {
            if i == at {
                theme_order_is_total(item, before[at as int]);
                if j - 1 > at {
                    assert(theme_leq(before[at as int], before[j - 1]));
                    theme_order_is_transitive(item, before[at as int], before[j - 1]);
                }
            } else if j == at {
                assert(theme_leq(before[i], item));
            } else {
                let k = if i < at { i } else { i - 1 };
                let l = if j < at { j } else { j - 1 };
                assert(theme_leq(before[k], before[l]));
            }
        }
    }
}

/// The last registered theme decides whether it is itself admitted, and nothing of the
/// others.
pub proof fn lemma_admitted_step(registered: Seq<ThemeMetaView>, filter: Option<Seq<Seq<char>>>)
    ensures
        registered.len() == 0 ==> admitted(registered, filter).len() == 0,
        registered.len() > 0 ==> admitted(registered, filter) == {
            let rest = admitted(registered.drop_last(), filter);
            if admits(filter, registered.last().name) {
                rest.push(registered.last())
            } else {
                rest
            }
        },
{
    reveal(Seq::filter);
}

/// The list of the registered themes that the filter admits.
pub fn list_themes(registered: Vec<ThemeMeta>, themes_filter: Option<&Vec<String>>) -> (listing: Vec<
    ThemeMeta,
>)
    ensures
        is_listing(listing.deep_view(), registered.deep_view(), themes_filter.deep_view()),
{
    let ghost all = registered.deep_view();
    let ghost filter = themes_filter.deep_view();
    let mut rest = registered;
    let mut listing: Vec<ThemeMeta> = Vec::new();
    proof {
        assert(listing.deep_view() =~= Seq::empty());
        vstd::seq_lib::to_multiset_len(listing.deep_view());
        assert(listing.deep_view().to_multiset() =~= vstd::multiset::Multiset::empty());
    }
    loop
        invariant
            all == registered.deep_view(),
            filter == themes_filter.deep_view(),
            in_theme_order(listing.deep_view()),
            listing.deep_view().to_multiset().add(admitted(rest.deep_view(), filter).to_multiset())
                == admitted(all, filter).to_multiset(),
        decreases rest.len(),
    {
        let ghost before = rest.deep_view();
        let ghost listed = listing.deep_view().to_multiset();
        match rest.pop() {
            None => {
                proof {
                    lemma_admitted_step(before, filter);
                    assert(admitted(before, filter) =~= Seq::empty());
                    vstd::seq_lib::to_multiset_len(admitted(before, filter));
                    assert(listed.add(admitted(before, filter).to_multiset()) =~= listed);
                }
                return listing;
            },
            Some(meta) => {
                let ghost item = meta@;
                let wanted = match themes_filter {
                    Some(names) => holds(names, &meta.name),
                    None => true,
                };
                if wanted {
                    insert_in_order(&mut listing, meta);
                }
                proof {
                    lemma_admitted_step(before, filter);
                    assert(rest.deep_view() =~= before.drop_last());
                    assert(item == before.last());
                    let left = admitted(rest.deep_view(), filter);
                    if wanted {
                        vstd::seq_lib::to_multiset_build(left, item);
                        assert(listed.insert(item).add(left.to_multiset()) =~= listed.add(
                            left.to_multiset().insert(item),
                        ));
                    }
                }
            },
        }
    }
}

} // verus!
