//! The user-facing error texts of the registration flow, assembled exactly.

use vstd::prelude::*;
use vstd::string::StringExecFns;

use crate::dtos::ErrorDto;
use crate::errors::ResolveError;

verus! {

/// The candidate names of an ambiguous lookup, rendered as a bracketed,
/// comma-separated list of quoted names.
pub open spec fn quoted_list(names: Seq<String>) -> Seq<char>
    decreases names.len(),
{
    if names.len() == 0 {
        Seq::empty()
    } else if names.len() == 1 {
        "\""@ + names[0]@ + "\""@
    } else {
        quoted_list(names.drop_last()) + ", \""@ + names.last()@ + "\""@
    }
}

/// The text reported when a station query matched nothing.
pub open spec fn not_found_text(query: Seq<char>, provider: Seq<char>) -> Seq<char> {
    "Station '"@ + query + "' with provider '"@ + provider + "' not found."@
}

/// The text reported when a station query was too broad, listing every
/// candidate by name.
pub open spec fn ambiguous_text(
    query: Seq<char>,
    provider: Seq<char>,
    candidates: Seq<String>,
) -> Seq<char> {
    "Multiple stations found matching '"@ + query + "' with provider '"@ + provider
        + "'. Please be more specific. Found stations: ["@ + quoted_list(candidates) + "]"@
}

/// The text reported when no live line matched a registration's line and
/// direction.
pub open spec fn no_such_line_text(
    line: Seq<char>,
    direction: Seq<char>,
    station: Seq<char>,
) -> Seq<char> {
    "Line '"@ + line + "' with direction '"@ + direction + "' not found at station '"@ + station
        + "'."@
}

/// The text reported when a registration names an unknown provider.
pub open spec fn provider_not_supported_text(provider: Seq<char>) -> Seq<char> {
    "Provider '"@ + provider + "' not supported"@
}

/// Renders the error of a registration whose line and direction matched no
/// live line.
pub fn no_such_line_message(line: &str, direction: &str, station: &str) -> (r: ErrorDto)
    ensures
        r.message@ == no_such_line_text(line@, direction@, station@),
{
    let mut m = "Line '".to_owned();
    m.append(line);
    m.append("' with direction '");
    m.append(direction);
    m.append("' not found at station '");
    m.append(station);
    m.append("'.");
    ErrorDto { message: m }
}

/// Renders the error of a registration naming an unknown provider.
pub fn provider_not_supported_message(provider: &str) -> (r: ErrorDto)
    ensures
        r.message@ == provider_not_supported_text(provider@),
{
    let mut m = "Provider '".to_owned();
    m.append(provider);
    m.append("' not supported");
    ErrorDto { message: m }
}

/// Renders a failed station lookup as its user-facing error text.
pub fn resolve_error_message(e: &ResolveError) -> (r: ErrorDto)
    ensures
        match e {
            ResolveError::NotFound { query, provider } => r.message@ == not_found_text(
                query@,
                provider@,
            ),
            ResolveError::Ambiguous { query, provider, candidates } => r.message@
                == ambiguous_text(query@, provider@, candidates@),
        },
{
    match e {
        ResolveError::NotFound { query, provider } => {
            let mut m = "Station '".to_owned();
            m.append(query.as_str());
            m.append("' with provider '");
            m.append(provider.as_str());
            m.append("' not found.");
            ErrorDto { message: m }
        },
        ResolveError::Ambiguous { query, provider, candidates } => {
            let mut m = "Multiple stations found matching '".to_owned();
            m.append(query.as_str());
            m.append("' with provider '");
            m.append(provider.as_str());
            m.append("'. Please be more specific. Found stations: [");
            let mut i: usize = 0;
            while i < candidates.len()
                invariant
                    i <= candidates@.len(),
                    m@ =~= "Multiple stations found matching '"@ + query@ + "' with provider '"@
                        + provider@ + "'. Please be more specific. Found stations: ["@
                        + quoted_list(candidates@.take(i as int)),
                decreases candidates@.len() - i,
            {
                if i > 0 {
                    m.append(", ");
                }
                m.append("\"");
                m.append(candidates[i].as_str());
                m.append("\"");
                proof {
                    reveal_strlit("\"");
                    reveal_strlit(", ");
                    reveal_strlit(", \"");
                    assert(", "@ + "\""@ =~= ", \""@);
                    assert(candidates@.take(i + 1 as int).drop_last() =~= candidates@.take(
                        i as int,
                    ));
                    assert(candidates@.take(i + 1 as int).last() == candidates@[i as int]);
                    assert(m@ =~= "Multiple stations found matching '"@ + query@
                        + "' with provider '"@ + provider@
                        + "'. Please be more specific. Found stations: ["@ + quoted_list(
                        candidates@.take(i + 1 as int),
                    ));
                }
                i = i + 1;
            }
            proof {
                assert(candidates@.take(candidates@.len() as int) =~= candidates@);
            }
            m.append("]");
            ErrorDto { message: m }
        },
    }
}

} // verus!
