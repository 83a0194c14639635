//! The matches of a query, and the work that finding them takes.
use vstd::prelude::*;

use crate::text;
use crate::theme::{ThemeMeta, ThemeMetaView};

verus! {

/// How many matches of a query are asked for.
pub const MAX_MATCHES: usize = 100;

/// A theme whose name matches the query.
#[derive(Debug)]
pub struct StringMatch {
    /// The place of the theme in the list of themes.
    pub candidate_id: usize,
    /// The places in the name where the query was found.
    pub positions: Vec<usize>,
    /// The theme's name.
    pub string: String,
}

/// A match, with its name as a sequence of characters.
#[verifier::ext_equal]
pub struct StringMatchView {
    pub candidate_id: int,
    pub positions: Seq<usize>,
    pub string: Seq<char>,
}

impl View for StringMatch {
    type V = StringMatchView;

    open spec fn view(&self) -> StringMatchView {
        StringMatchView {
            candidate_id: self.candidate_id as int,
            positions: self.positions@,
            string: self.string@,
        }
    }
}

impl DeepView for StringMatch {
    type V = StringMatchView;

    open spec fn deep_view(&self) -> StringMatchView {
        self@
    }
}

/// A name that a query is matched against.
#[derive(Debug)]
pub struct StringMatchCandidate {
    pub id: usize,
    pub string: String,
}

/// A candidate, with its name as a sequence of characters.
#[verifier::ext_equal]
pub struct StringMatchCandidateView {
    pub id: int,
    pub string: Seq<char>,
}

impl View for StringMatchCandidate {
    type V = StringMatchCandidateView;

    open spec fn view(&self) -> StringMatchCandidateView {
        StringMatchCandidateView { id: self.id as int, string: self.string@ }
    }
}

impl DeepView for StringMatchCandidate {
    type V = StringMatchCandidateView;

    open spec fn deep_view(&self) -> StringMatchCandidateView {
        self@
    }
}

/// How the matches of a query are come by.
#[derive(Debug)]
pub enum MatchRequest {
    /// They are these.
    Listed(Vec<StringMatch>),
    /// The query is to be matched against the candidates.
    Search {
        candidates: Vec<StringMatchCandidate>,
        query: String,
        /// Whether an upper-case query matches upper-case letters only.
        smart_case: bool,
        /// Whether longer names rank lower.
        penalize_length: bool,
        max_results: usize,
    },
}

/// How the matches of a query are come by, with names as sequences of characters.
#[verifier::ext_equal]
pub enum MatchRequestView {
    Listed(Seq<StringMatchView>),
    Search {
        candidates: Seq<StringMatchCandidateView>,
        query: Seq<char>,
        smart_case: bool,
        penalize_length: bool,
        max_results: usize,
    },
}

impl View for MatchRequest {
    type V = MatchRequestView;

    open spec fn view(&self) -> MatchRequestView {
        match self {
            MatchRequest::Listed(matches) => MatchRequestView::Listed(matches.deep_view()),
            MatchRequest::Search { candidates, query, smart_case, penalize_length, max_results } =>
                MatchRequestView::Search {
                    candidates: candidates.deep_view(),
                    query: query@,
                    smart_case: *smart_case,
                    penalize_length: *penalize_length,
                    max_results: *max_results,
                },
        }
    }
}

/// Every theme as a match, in the order of the list, with nothing highlighted.
pub open spec fn all_matches(themes: Seq<ThemeMetaView>) -> Seq<StringMatchView> {
    Seq::new(
        themes.len(),
        |i: int|
            StringMatchView {
                candidate_id: i,
                positions: Seq::empty(),
                string: themes[i].name,
            },
    )
}

/// Whether each of `matches` is a theme of the list: at its place, under its name.
pub open spec fn are_matches_of(
    matches: Seq<StringMatchView>,
    themes: Seq<ThemeMetaView>,
) -> bool {
    forall|i: int|
        0 <= i < matches.len() ==> {
            &&& 0 <= (#[trigger] matches[i]).candidate_id < themes.len()
            &&& matches[i].string == themes[matches[i].candidate_id].name
        }
}

/// Every theme as a candidate, in the order of the list.
pub open spec fn all_candidates(themes: Seq<ThemeMetaView>) -> Seq<StringMatchCandidateView> {
    Seq::new(
        themes.len(),
        |i: int| StringMatchCandidateView { id: i, string: themes[i].name },
    )
}

/// The names of the themes, in the order of the list.
pub open spec fn theme_names(themes: Seq<ThemeMetaView>) -> Seq<Seq<char>> {
    themes.map_values(|meta: ThemeMetaView| meta.name)
}

/// The names of the matches, in their order.
pub open spec fn match_names(matches: Seq<StringMatchView>) -> Seq<Seq<char>> {
    matches.map_values(|m: StringMatchView| m.string)
}

/// Every theme as a match, in the order of the list, with nothing highlighted.
pub fn list_matches(themes: &Vec<ThemeMeta>) -> (matches: Vec<StringMatch>)
    ensures
        matches.deep_view() == all_matches(themes.deep_view()),
{
    let mut matches: Vec<StringMatch> = Vec::new();
    let mut id: usize = 0;
    while id < themes.len()
        invariant
            id <= themes.len(),
            matches.len() == id,
            forall|j: int|
                0 <= j < id ==> (#[trigger] matches[j])@ == all_matches(themes.deep_view())[j],
        decreases themes.len() - id,
    {
        let positions: Vec<usize> = Vec::new();
        matches.push(
            StringMatch { candidate_id: id, positions, string: themes[id].name.clone() },
        );
        id = id + 1;
    }
    assert(matches.deep_view() =~= all_matches(themes.deep_view()));
    matches
}

/// Every theme as a candidate, in the order of the list.
pub fn list_candidates(themes: &Vec<ThemeMeta>) -> (candidates: Vec<StringMatchCandidate>)
    ensures
        candidates.deep_view() == all_candidates(themes.deep_view()),
{
    let mut candidates: Vec<StringMatchCandidate> = Vec::new();
    let mut id: usize = 0;
    while id < themes.len()
        invariant
            id <= themes.len(),
            candidates.len() == id,
            forall|j: int|
                0 <= j < id ==> (#[trigger] candidates[j])@ == all_candidates(
                    themes.deep_view(),
                )[j],
        decreases themes.len() - id,
    {
        candidates.push(StringMatchCandidate { id, string: themes[id].name.clone() });
        id = id + 1;
    }
    assert(candidates.deep_view() =~= all_candidates(themes.deep_view()));
    candidates
}

/// The place of the first theme of this name in the list.
pub fn position_of_theme(themes: &Vec<ThemeMeta>, name: &String) -> (position: Option<usize>)
    ensures
        match position {
            Some(i) => text::first_index(theme_names(themes.deep_view()), name@) == Some(i as int),
            None => text::first_index(theme_names(themes.deep_view()), name@) is None,
        },
{
    let ghost names = theme_names(themes.deep_view());
    proof {
        text::lemma_first_index(names, name@);
    }
    let mut i: usize = 0;
    while i < themes.len()
        invariant
            i <= themes.len(),
            names == theme_names(themes.deep_view()),
            forall|j: int| 0 <= j < i ==> names[j] != name@,
        decreases themes.len() - i,
    {
        if themes[i].name == *name {
            assert(text::is_first_index(names, name@, i as int));
            proof {
                text::lemma_first_index(names, name@);
            }
            return Some(i);
        }
        i = i + 1;
    }
    None
}

/// The place of the first match of this name.
pub fn position_of_match(matches: &Vec<StringMatch>, name: &String) -> (position: Option<usize>)
    ensures
        match position {
            Some(i) => text::first_index(match_names(matches.deep_view()), name@) == Some(i as int),
            None => text::first_index(match_names(matches.deep_view()), name@) is None,
        },
{
    let ghost names = match_names(matches.deep_view());
    proof {
        text::lemma_first_index(names, name@);
    }
    let mut i: usize = 0;
    while i < matches.len()
        invariant
            i <= matches.len(),
            names == match_names(matches.deep_view()),
            forall|j: int| 0 <= j < i ==> names[j] != name@,
        decreases matches.len() - i,
    {
        if matches[i].string == *name {
            assert(text::is_first_index(names, name@, i as int));
            proof {
                text::lemma_first_index(names, name@);
            }
            return Some(i);
        }
        i = i + 1;
    }
    None
}

} // verus!
