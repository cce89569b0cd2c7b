//! Fuzzy search over every record of the store, best match first.

use vstd::prelude::*;
use vstd::string::*;

use crate::models::{activity_type_name, Activity, Contact, Deal};
use crate::order::{desc_order, keys_non_increasing, order_by_key_desc};
use crate::outside::{fuzzy_score, skim_score};
use crate::store::{lemma_filter_step, AppData};
use crate::text::currency_text;

verus! {

/// The most results a search returns.
pub const MAX_RESULTS: usize = 10;

/// A record found by a search, with the kind it came from.
#[derive(Debug, PartialEq)]
pub enum SearchResult {
    Contact(Contact),
    Deal(Deal),
    Activity(Activity),
}

impl SearchResult {
    /// The two results hold the same record, field by field.
    pub open spec fn same_as(self, o: SearchResult) -> bool {
        match (self, o) {
            (SearchResult::Contact(a), SearchResult::Contact(b)) => a.same_as(b),
            (SearchResult::Deal(a), SearchResult::Deal(b)) => a == b,
            (SearchResult::Activity(a), SearchResult::Activity(b)) => a == b,
            _ => false,
        }
    }

    /// The result's heading: a contact's full name, a deal's or an
    /// activity's title.
    pub fn title(&self) -> (r: String)
        ensures
            r@ == match *self {
                SearchResult::Contact(c) => c.first_name@ + " "@ + c.last_name@,
                SearchResult::Deal(d) => d.title@,
                SearchResult::Activity(a) => a.title@,
            },
    {
        match self {
            SearchResult::Contact(c) => c.full_name(),
            SearchResult::Deal(d) => d.title.clone(),
            SearchResult::Activity(a) => a.title.clone(),
        }
    }

    /// The line under the heading: a contact's company (or e-mail where it
    /// has none), a deal's company and value, an activity's kind.
    pub fn subtitle(&self) -> (r: String)
        ensures
            r@ == match *self {
                SearchResult::Contact(c) => match c.company {
                    Some(s) => s@,
                    None => c.email@,
                },
                SearchResult::Deal(d) => d.company@ + " • "@ + currency_text(d.value as nat),
                SearchResult::Activity(a) => activity_type_name(a.activity_type),
            },
    {
        match self {
            SearchResult::Contact(c) => match &c.company {
                Some(s) => s.clone(),
                None => c.email.clone(),
            },
            SearchResult::Deal(d) => {
                let value = d.format_value();
                String::from_str(d.company.as_str()).concat(" • ").concat(value.as_str())
            },
            SearchResult::Activity(a) => String::from_str(a.activity_type.display_name()),
        }
    }

    /// The name of the kind of record.
    pub fn result_type(&self) -> (r: &str)
        ensures
            r@ == match *self {
                SearchResult::Contact(_) => "Contact"@,
                SearchResult::Deal(_) => "Deal"@,
                SearchResult::Activity(_) => "Activity"@,
            },
    {
        match self {
            SearchResult::Contact(_) => "Contact",
            SearchResult::Deal(_) => "Deal",
            SearchResult::Activity(_) => "Activity",
        }
    }
}

impl Clone for SearchResult {
    fn clone(&self) -> (r: Self)
        ensures
            r.same_as(*self),
    {
        match self {
            SearchResult::Contact(c) => SearchResult::Contact(c.clone()),
            SearchResult::Deal(d) => SearchResult::Deal(d.clone()),
            SearchResult::Activity(a) => SearchResult::Activity(a.clone()),
        }
    }
}

/// The text of an optional field, empty where it is absent.
pub open spec fn or_empty(o: Option<String>) -> Seq<char> {
    match o {
        Some(s) => s@,
        None => Seq::empty(),
    }
}

/// The text a query is matched against.
pub open spec fn haystack(r: SearchResult) -> Seq<char> {
    match r {
        SearchResult::Contact(c) => c.first_name@ + " "@ + c.last_name@ + " "@ + c.email@ + " "@
            + or_empty(c.company),
        SearchResult::Deal(d) => d.title@ + " "@ + d.company@,
        SearchResult::Activity(a) => a.title@ + " "@ + or_empty(a.description),
    }
}

/// Every record of the store as a result: contacts, then deals, then
/// activities, each in store order.
pub open spec fn candidates(data: AppData) -> Seq<SearchResult> {
    data.contacts@.map_values(|c: Contact| SearchResult::Contact(c)) + data.deals@.map_values(
        |d: Deal| SearchResult::Deal(d),
    ) + data.activities@.map_values(|a: Activity| SearchResult::Activity(a))
}

/// The results that the query matches, in candidate order.
pub open spec fn hits(cands: Seq<SearchResult>, q: Seq<char>) -> Seq<SearchResult> {
    cands.filter(|r: SearchResult| skim_score(haystack(r), q) is Some)
}

/// The score of a matched result.
pub open spec fn result_score(r: SearchResult, q: Seq<char>) -> i64 {
    skim_score(haystack(r), q)->0
}

/// The scores of matched results, as keys for ordering.
pub open spec fn hit_keys(hs: Seq<SearchResult>, q: Seq<char>) -> Seq<i128> {
    hs.map_values(|r: SearchResult| result_score(r, q) as i128)
}

/// The scores of scored results, as keys for ordering.
pub open spec fn score_keys(scored: Seq<(i64, SearchResult)>) -> Seq<i128> {
    scored.map_values(|p: (i64, SearchResult)| p.0 as i128)
}

/// `r` is the first ten (or fewer) of `items`, taken along `order`.
pub open spec fn top_along(r: Seq<SearchResult>, items: Seq<SearchResult>, order: Seq<usize>) -> bool {
    &&& r.len() == if items.len() < MAX_RESULTS {
        items.len() as int
    } else {
        MAX_RESULTS as int
    }
    &&& forall|k: int| 0 <= k < r.len() ==> r[k].same_as(items[order[k] as int])
}

/// Ranks scored results: highest score first, equal scores in the order
/// given, at most ten.
pub fn rank_results(scored: &Vec<(i64, SearchResult)>) -> (r: Vec<SearchResult>)
    ensures
        top_along(
            r@,
            scored@.map_values(|p: (i64, SearchResult)| p.1),
            desc_order(score_keys(scored@), scored@.len()),
        ),
        forall|a: int, b: int|
            0 <= a < b < r@.len() ==> scored@[desc_order(score_keys(scored@), scored@.len())[a] as int].0
                >= scored@[desc_order(score_keys(scored@), scored@.len())[b] as int].0,
{
    let n = scored.len();
    let mut keys: Vec<i128> = Vec::new();
    for i in 0..n
        invariant
            n == scored@.len(),
            keys@ == score_keys(scored@).take(i as int),
    {
        keys.push(scored[i].0 as i128);
        assert(keys@ =~= score_keys(scored@).take(i + 1));
    }
    assert(keys@ =~= score_keys(scored@));
    let order = order_by_key_desc(&keys);
    let m = if n < MAX_RESULTS {
        n
    } else {
        MAX_RESULTS
    };
    let mut r: Vec<SearchResult> = Vec::new();
    for k in 0..m
        invariant
            m <= n == scored@.len() == order@.len() == keys@.len(),
            m <= MAX_RESULTS,
            keys@ == score_keys(scored@),
            order@ == desc_order(keys@, n as nat),
            forall|j: int| 0 <= j < order@.len() ==> order@[j] < n,
            r@.len() == k,
            forall|j: int| 0 <= j < k ==> r@[j].same_as(scored@[order@[j] as int].1),
    {
        r.push(scored[order[k]].1.clone());
    }
    assert forall|a: int, b: int| 0 <= a < b < r@.len() implies scored@[order@[a] as int].0
        >= scored@[order@[b] as int].0 by {
        assert(keys@[order@[a] as int] >= keys@[order@[b] as int]);
    }
    r
}

/// The text that a contact is matched on.
fn contact_haystack(c: &Contact) -> (r: String)
    ensures
        r@ == haystack(SearchResult::Contact(*c)),
{
    let company = match &c.company {
        Some(s) => s.as_str(),
        None => "",
    };
    proof {
        reveal_strlit("");
    }
    String::from_str(c.first_name.as_str()).concat(" ").concat(c.last_name.as_str()).concat(
        " ",
    ).concat(c.email.as_str()).concat(" ").concat(company)
}

/// The text that a deal is matched on.
fn deal_haystack(d: &Deal) -> (r: String)
    ensures
        r@ == haystack(SearchResult::Deal(*d)),
{
    String::from_str(d.title.as_str()).concat(" ").concat(d.company.as_str())
}

/// The text that an activity is matched on.
fn activity_haystack(a: &Activity) -> (r: String)
    ensures
        r@ == haystack(SearchResult::Activity(*a)),
{
    let description = match &a.description {
        Some(s) => s.as_str(),
        None => "",
    };
    proof {
        reveal_strlit("");
    }
    String::from_str(a.title.as_str()).concat(" ").concat(description)
}

/// `scored` pairs each hit among the first `p` candidates with its score.
pub open spec fn scored_hits(scored: Seq<(i64, SearchResult)>, cands: Seq<SearchResult>, p: int, q: Seq<char>) -> bool {
    let hs = hits(cands.take(p), q);
    &&& scored.len() == hs.len()
    &&& forall|k: int|
        0 <= k < scored.len() ==> scored[k].1.same_as(hs[k]) && scored[k].0 == result_score(
            hs[k],
            q,
        )
}

/// Scores the candidate at `p` and keeps it where the query matches.
fn score_candidate(
    scored: &mut Vec<(i64, SearchResult)>,
    hay: &String,
    found: SearchResult,
    query: &str,
    Ghost(cands): Ghost<Seq<SearchResult>>,
    Ghost(p): Ghost<int>,
)
    requires
        0 <= p < cands.len(),
        found.same_as(cands[p]),
        hay@ == haystack(cands[p]),
        scored_hits(old(scored)@, cands, p, query@),
    ensures
        scored_hits(final(scored)@, cands, p + 1, query@),
{
    proof {
        lemma_filter_step(cands, p, |r: SearchResult| skim_score(haystack(r), query@) is Some);
    }
    match fuzzy_score(hay.as_str(), query) {
        Some(s) => {
            scored.push((s, found));
        },
        None => {},
    }
}

/// The ten (or fewer) records that best match `query`, best first; none
/// for an empty query.
pub fn search(data: &AppData, query: &str) -> (r: Vec<SearchResult>)
    ensures
        query@.len() == 0 ==> r@.len() == 0,
        query@.len() > 0 ==> ({
            let hs = hits(candidates(*data), query@);
            top_along(r@, hs, desc_order(hit_keys(hs, query@), hs.len()))
        }),
        r@.len() <= MAX_RESULTS,
        forall|a: int, b: int|
            0 <= a < b < r@.len() ==> result_score(r@[a], query@) >= result_score(r@[b], query@),
{
    if query.unicode_len() == 0 {
        return Vec::new();
    }
    let ghost cands = candidates(*data);
    let mut scored: Vec<(i64, SearchResult)> = Vec::new();
    let nc = data.contacts.len();
    let nd = data.deals.len();
    let na = data.activities.len();
    assert(hits(cands.take(0), query@) =~= Seq::<SearchResult>::empty()) by {
        reveal(Seq::filter);
    }
    for i in 0..nc
        invariant
            nc == data.contacts@.len(),
            cands == candidates(*data),
            scored_hits(scored@, cands, i as int, query@),
    {
        let c = &data.contacts[i];
        let hay = contact_haystack(c);
        score_candidate(&mut scored, &hay, SearchResult::Contact(c.clone()), query, Ghost(cands), Ghost(i as int));
    }
    for i in 0..nd
        invariant
            nc == data.contacts@.len(),
            nd == data.deals@.len(),
            cands == candidates(*data),
            scored_hits(scored@, cands, nc + i, query@),
    {
        let d = &data.deals[i];
        let hay = deal_haystack(d);
        score_candidate(&mut scored, &hay, SearchResult::Deal(d.clone()), query, Ghost(cands), Ghost(nc + i));
    }
    for i in 0..na
        invariant
            nc == data.contacts@.len(),
            nd == data.deals@.len(),
            na == data.activities@.len(),
            cands == candidates(*data),
            scored_hits(scored@, cands, nc + nd + i, query@),
    {
        let a = &data.activities[i];
        let hay = activity_haystack(a);
        score_candidate(&mut scored, &hay, SearchResult::Activity(a.clone()), query, Ghost(cands), Ghost(nc + nd + i));
    }
    let ghost hs = hits(cands, query@);
    assert(cands.take(nc + nd + na) =~= cands);
    assert(score_keys(scored@) =~= hit_keys(hs, query@));
    let r = rank_results(&scored);
    proof {
        let order = desc_order(hit_keys(hs, query@), hs.len());
        crate::order::lemma_desc_order(hit_keys(hs, query@), hs.len());
        assert forall|k: int| 0 <= k < r@.len() implies r@[k].same_as(hs[order[k] as int]) by {
            assert(r@[k].same_as(scored@.map_values(|p: (i64, SearchResult)| p.1)[order[k] as int]));
        }
        assert forall|a: int, b: int| 0 <= a < b < r@.len() implies result_score(r@[a], query@)
            >= result_score(r@[b], query@) by {
            assert(haystack(r@[a]) == haystack(hs[order[a] as int]));
            assert(haystack(r@[b]) == haystack(hs[order[b] as int]));
            assert(keys_non_increasing(order, hit_keys(hs, query@)));
        }
    }
    r
}

} // verus!
