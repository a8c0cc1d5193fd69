//! Station resolution: a free-text query and a provider are resolved against
//! a station catalog to exactly one entry, or rejected.
//!
//! The load-bearing rule: first the catalog is narrowed to the provider's
//! entries whose name, case folded, contains the case-folded query. No entry
//! fails the lookup; exactly one settles it. More than one narrows further
//! to the entries whose name, case folded, equals the case-folded query: a
//! single exact match wins over a broad substring set, anything else is
//! ambiguous and reports every candidate by name.

use vstd::prelude::*;

use crate::errors::ResolveError;
use crate::models::Station;
use crate::text::contains_seq;
use crate::text::contains_sub;
use crate::text::lower_of;
use crate::text::lowercased;
use crate::text::str_eq;

verus! {

/// The station belongs to the provider and its name, case folded, contains
/// the case-folded query.
pub open spec fn station_matches(s: Station, query: Seq<char>, provider: Seq<char>) -> bool {
    s.provider@ == provider && contains_seq(lower_of(s.name@), lower_of(query))
}

/// The station's name, case folded, equals the case-folded query.
pub open spec fn station_exact(s: Station, query: Seq<char>) -> bool {
    lower_of(s.name@) == lower_of(query)
}

/// The catalog entries matching the query for the provider, in catalog
/// order.
pub open spec fn matched_stations(catalog: Seq<Station>, query: Seq<char>, provider: Seq<char>) -> Seq<
    Station,
>
    decreases catalog.len(),
{
    if catalog.len() == 0 {
        Seq::empty()
    } else {
        let rest = matched_stations(catalog.drop_last(), query, provider);
        if station_matches(catalog.last(), query, provider) {
            rest.push(catalog.last())
        } else {
            rest
        }
    }
}

/// The stations among `stations` whose name is an exact case-folded match of
/// the query, in order.
pub open spec fn exact_stations(stations: Seq<Station>, query: Seq<char>) -> Seq<Station>
    decreases stations.len(),
{
    if stations.len() == 0 {
        Seq::empty()
    } else {
        let rest = exact_stations(stations.drop_last(), query);
        if station_exact(stations.last(), query) {
            rest.push(stations.last())
        } else {
            rest
        }
    }
}

/// Resolves a free-text station query for one provider against a catalog.
///
/// Exactly one matching entry is returned as is. Zero matching entries fail
/// with `NotFound`. Among several matching entries a single exact
/// case-folded name match wins; otherwise the lookup fails with `Ambiguous`,
/// listing the names of all matching entries in catalog order.
pub fn resolve_station(query: &str, provider: &str, catalog: &Vec<Station>) -> (r: Result<
    Station,
    ResolveError,
>)
    ensures
        ({
            let m = matched_stations(catalog@, query@, provider@);
            let e = exact_stations(m, query@);
            match r {
                Ok(s) => (m.len() == 1 && s == m[0]) || (m.len() > 1 && e.len() == 1 && s == e[0]),
                Err(ResolveError::NotFound { query: q, provider: p }) => m.len() == 0 && q@
                    == query@ && p@ == provider@,
                Err(ResolveError::Ambiguous { query: q, provider: p, candidates }) => m.len() > 1
                    && e.len() != 1 && q@ == query@ && p@ == provider@ && candidates@.len()
                    == m.len() && (forall|k: int|
                    0 <= k < m.len() ==> (#[trigger] candidates@[k])@ == m[k].name@),
            }
        }),
{
    let folded_query = lowercased(query);
    let mut matched: Vec<Station> = Vec::new();
    let mut i: usize = 0;
    while i < catalog.len()
        invariant
            i <= catalog@.len(),
            folded_query@ == lower_of(query@),
            matched@ =~= matched_stations(catalog@.take(i as int), query@, provider@),
        decreases catalog@.len() - i,
    {
        let s: &Station = &catalog[i];
        let provider_hit = str_eq(s.provider.as_str(), provider);
        let name_hit = contains_sub(lowercased(s.name.as_str()).as_str(), folded_query.as_str());
        if provider_hit && name_hit {
            matched.push(s.duplicate());
        }
        proof {
            assert(catalog@.take(i + 1 as int).drop_last() =~= catalog@.take(i as int));
            assert(catalog@.take(i + 1 as int).last() == catalog@[i as int]);
            assert(matched@ =~= matched_stations(catalog@.take(i + 1 as int), query@, provider@));
        }
        i = i + 1;
    }
    proof {
        assert(catalog@.take(catalog@.len() as int) =~= catalog@);
    }
    if matched.len() == 0 {
        return Err(
            ResolveError::NotFound { query: query.to_owned(), provider: provider.to_owned() },
        );
    }
    if matched.len() == 1 {
        return Ok(matched[0].duplicate());
    }
    let mut exact: Vec<Station> = Vec::new();
    let mut j: usize = 0;
    while j < matched.len()
        invariant
            j <= matched@.len(),
            folded_query@ == lower_of(query@),
            exact@ =~= exact_stations(matched@.take(j as int), query@),
        decreases matched@.len() - j,
    {
        let s: &Station = &matched[j];
        if str_eq(lowercased(s.name.as_str()).as_str(), folded_query.as_str()) {
            exact.push(s.duplicate());
        }
        proof {
            assert(matched@.take(j + 1 as int).drop_last() =~= matched@.take(j as int));
            assert(matched@.take(j + 1 as int).last() == matched@[j as int]);
            assert(exact@ =~= exact_stations(matched@.take(j + 1 as int), query@));
        }
        j = j + 1;
    }
    proof {
        assert(matched@.take(matched@.len() as int) =~= matched@);
    }
    if exact.len() == 1 {
        return Ok(exact[0].duplicate());
    }
    let mut candidates: Vec<String> = Vec::new();
    let mut k: usize = 0;
    while k < matched.len()
        invariant
            k <= matched@.len(),
            candidates@.len() == k,
            forall|q: int| 0 <= q < k ==> (#[trigger] candidates@[q])@ == matched@[q].name@,
        decreases matched@.len() - k,
    {
        candidates.push(matched[k].name.clone());
        k = k + 1;
    }
    Err(
        ResolveError::Ambiguous {
            query: query.to_owned(),
            provider: provider.to_owned(),
            candidates,
        },
    )
}

/// A catalog with no matching entry yields an empty match set, so resolving
/// such a query is owed a `NotFound` error.
pub proof fn lemma_no_match_empty(catalog: Seq<Station>, query: Seq<char>, provider: Seq<char>)
    requires
        forall|j: int| 0 <= j < catalog.len() ==> !station_matches(
            #[trigger] catalog[j],
            query,
            provider,
        ),
    ensures
        matched_stations(catalog, query, provider).len() == 0,
    decreases catalog.len(),
{
    if catalog.len() > 0 {
        lemma_no_match_empty(catalog.drop_last(), query, provider);
    }
}

/// Stations among which none is an exact case-folded name match of the query
/// yield an empty exact set.
pub proof fn lemma_no_exact_match_empty(stations: Seq<Station>, query: Seq<char>)
    requires
        forall|j: int| 0 <= j < stations.len() ==> !station_exact(#[trigger] stations[j], query),
    ensures
        exact_stations(stations, query).len() == 0,
    decreases stations.len(),
{
    if stations.len() > 0 {
        lemma_no_exact_match_empty(stations.drop_last(), query);
    }
}

/// Among several matching stations, a single exact case-folded name match
/// narrows the exact set to that station alone, so resolving such a query is
/// owed exactly that station rather than an ambiguity error.
pub proof fn lemma_unique_exact_match_wins(stations: Seq<Station>, query: Seq<char>, i: int)
    requires
        0 <= i < stations.len(),
        station_exact(stations[i], query),
        forall|j: int|
            0 <= j < stations.len() && j != i ==> !station_exact(#[trigger] stations[j], query),
    ensures
        exact_stations(stations, query) =~= seq![stations[i]],
    decreases stations.len(),
{
    if i == stations.len() - 1 {
        lemma_no_exact_match_empty(stations.drop_last(), query);
    } else {
        lemma_unique_exact_match_wins(stations.drop_last(), query, i);
    }
}

/// A query matching exactly one catalog entry narrows the match set to that
/// entry alone, so resolving it is owed exactly that station.
pub proof fn lemma_unique_match_resolves(
    catalog: Seq<Station>,
    query: Seq<char>,
    provider: Seq<char>,
    i: int,
)
    requires
        0 <= i < catalog.len(),
        station_matches(catalog[i], query, provider),
        forall|j: int|
            0 <= j < catalog.len() && j != i ==> !station_matches(
                #[trigger] catalog[j],
                query,
                provider,
            ),
    ensures
        matched_stations(catalog, query, provider) =~= seq![catalog[i]],
    decreases catalog.len(),
{
    if i == catalog.len() - 1 {
        lemma_no_match_empty(catalog.drop_last(), query, provider);
    } else {
        lemma_unique_match_resolves(catalog.drop_last(), query, provider, i);
    }
}

} // verus!
