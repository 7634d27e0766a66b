//! Report search: the optional criteria of the search form, with blank
//! texts dropped, become the filters of the query.
use vstd::prelude::*;

use crate::text::{blank, is_blank};

verus! {

/// The search form: scout name, team number and event code, each optional.
pub struct SearchForm {
    pub scouter: Option<String>,
    pub team: Option<i32>,
    pub event: Option<String>,
}

/// The text of an optional field, if present.
pub open spec fn opt_text(field: Option<String>) -> Option<Seq<char>> {
    match field {
        Some(s) => Some(s@),
        None => None,
    }
}

/// An optional text criterion as the search uses it: absent when it is
/// missing or blank.
pub open spec fn criterion(field: Option<String>) -> Option<Seq<char>> {
    match field {
        Some(s) => if blank(s@) {
            None
        } else {
            Some(s@)
        },
        None => None,
    }
}

/// The field kept when it holds a non-blank text.
fn keep_non_blank(field: &Option<String>) -> (r: Option<String>)
    ensures
        opt_text(r) == criterion(*field),
{
    match field {
        Some(s) => if is_blank(s.as_str()) {
            None
        } else {
            Some(s.clone())
        },
        None => None,
    }
}

impl SearchForm {
    /// The form with blank texts dropped; the team number is kept as is.
    pub fn normalized(&self) -> (r: Self)
        ensures
            opt_text(r.scouter) == criterion(self.scouter),
            r.team == self.team,
            opt_text(r.event) == criterion(self.event),
    {
        SearchForm {
            scouter: keep_non_blank(&self.scouter),
            team: self.team,
            event: keep_non_blank(&self.event),
        }
    }
}

/// Normalising is idempotent: a normalized form holds no blank text, so
/// normalizing it again changes nothing.
pub proof fn lemma_normalized_is_stable(form: SearchForm, once: SearchForm)
    requires
        opt_text(once.scouter) == criterion(form.scouter),
        once.team == form.team,
        opt_text(once.event) == criterion(form.event),
    ensures
        criterion(once.scouter) == opt_text(once.scouter),
        criterion(once.event) == opt_text(once.event),
{
}

/// One filter of the search query.
pub enum SearchFilter {
    Scouter(String),
    Team(i32),
    Event(String),
}

/// What a filter tests.
pub enum FilterView {
    Scouter(Seq<char>),
    Team(i32),
    Event(Seq<char>),
}

impl View for SearchFilter {
    type V = FilterView;

    open spec fn view(&self) -> FilterView {
        match self {
            SearchFilter::Scouter(s) => FilterView::Scouter(s@),
            SearchFilter::Team(t) => FilterView::Team(*t),
            SearchFilter::Event(e) => FilterView::Event(e@),
        }
    }
}

impl SearchFilter {
    /// The condition that the query adds for the filter, before its bound
    /// value.
    pub fn clause(&self) -> (r: &'static str)
        ensures
            r@ == match self@ {
                FilterView::Scouter(_) => " AND \"user\" = "@,
                FilterView::Team(_) => " AND team = "@,
                FilterView::Event(_) => " AND event_code = "@,
            },
    {
        match self {
            SearchFilter::Scouter(_) => " AND \"user\" = ",
            SearchFilter::Team(_) => " AND team = ",
            SearchFilter::Event(_) => " AND event_code = ",
        }
    }
}

/// The filters of a form, in the order scout, team, event, each where the
/// form holds it and, for the texts, where it is not blank.
pub open spec fn filters_for(form: SearchForm) -> Seq<FilterView> {
    let s = match criterion(form.scouter) {
        Some(s) => seq![FilterView::Scouter(s)],
        None => Seq::<FilterView>::empty(),
    };
    let t = match form.team {
        Some(t) => seq![FilterView::Team(t)],
        None => Seq::<FilterView>::empty(),
    };
    let e = match criterion(form.event) {
        Some(e) => seq![FilterView::Event(e)],
        None => Seq::<FilterView>::empty(),
    };
    s + t + e
}

/// The filters that `search` adds to its query for a form, after normalizing
/// it.
pub fn search_filters(form: &SearchForm) -> (r: Vec<SearchFilter>)
    ensures
        r@.map_values(|f: SearchFilter| f@) == filters_for(*form),
{
    let normal = form.normalized();
    let mut out: Vec<SearchFilter> = Vec::new();
    match normal.scouter {
        Some(s) => out.push(SearchFilter::Scouter(s)),
        None => {},
    }
    match normal.team {
        Some(t) => out.push(SearchFilter::Team(t)),
        None => {},
    }
    match normal.event {
        Some(e) => out.push(SearchFilter::Event(e)),
        None => {},
    }
    assert(out@.map_values(|f: SearchFilter| f@) =~= filters_for(*form));
    out
}

/// Each present criterion adds its own filter, whatever the other fields
/// hold, and nothing else is filtered on: a scout or event text that is
/// present and not blank gives its filter, a team number gives its filter,
/// and there is one filter per such criterion.
pub proof fn lemma_filters_one_per_criterion(form: SearchForm)
    ensures
        forall|v: Seq<char>|
            #![trigger filters_for(form).contains(FilterView::Scouter(v))]
            filters_for(form).contains(FilterView::Scouter(v)) <==> (form.scouter matches Some(s)
                && !blank(s@) && s@ == v),
        forall|t: i32|
            #![trigger filters_for(form).contains(FilterView::Team(t))]
            filters_for(form).contains(FilterView::Team(t)) <==> form.team == Some(t),
        forall|v: Seq<char>|
            #![trigger filters_for(form).contains(FilterView::Event(v))]
            filters_for(form).contains(FilterView::Event(v)) <==> (form.event matches Some(s)
                && !blank(s@) && s@ == v),
        filters_for(form).len() == (if form.scouter matches Some(s) && !blank(s@) { 1int } else { 0int })
            + (if form.team is Some { 1int } else { 0int })
            + (if form.event matches Some(s) && !blank(s@) { 1int } else { 0int }),
{
    let f = filters_for(form);
    let s = match criterion(form.scouter) {
        Some(x) => seq![FilterView::Scouter(x)],
        None => Seq::<FilterView>::empty(),
    };
    let t = match form.team {
        Some(x) => seq![FilterView::Team(x)],
        None => Seq::<FilterView>::empty(),
    };
    let e = match criterion(form.event) {
        Some(x) => seq![FilterView::Event(x)],
        None => Seq::<FilterView>::empty(),
    };
    assert(f == s + t + e);
    assert forall|v: Seq<char>| f.contains(FilterView::Scouter(v)) <==> criterion(form.scouter)
        == Some(v) by {
        if f.contains(FilterView::Scouter(v)) {
            let i = choose|i: int| 0 <= i < f.len() && f[i] == FilterView::Scouter(v);
            assert(i < s.len());
        }
        if criterion(form.scouter) == Some(v) {
            assert(f[0] == FilterView::Scouter(v));
        }
    }
    assert forall|x: i32| f.contains(FilterView::Team(x)) <==> form.team == Some(x) by {
        if f.contains(FilterView::Team(x)) {
            let i = choose|i: int| 0 <= i < f.len() && f[i] == FilterView::Team(x);
            assert(s.len() <= i < s.len() + t.len());
        }
        if form.team == Some(x) {
            assert(f[s.len() as int] == FilterView::Team(x));
        }
    }
    assert forall|v: Seq<char>| f.contains(FilterView::Event(v)) <==> criterion(form.event)
        == Some(v) by {
        if f.contains(FilterView::Event(v)) {
            let i = choose|i: int| 0 <= i < f.len() && f[i] == FilterView::Event(v);
            assert(s.len() + t.len() <= i);
        }
        if criterion(form.event) == Some(v) {
            assert(f[(s.len() + t.len()) as int] == FilterView::Event(v));
        }
    }
}

} // verus!
