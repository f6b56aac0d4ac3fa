//! The request that a fetch sends: one `GET` to the endpoint, with the
//! wanted source and block types in the query, asking for JSON.

use crate::endpoint::{append_pair, as_str, pair_fits, parse, parsed_url, url_text, with_query_pair};
use url::Url;
use vstd::prelude::*;
use vstd::string::StringExecFns;

verus! {

/// Name of the query parameter that selects the data source.
pub const SOURCE_PARAM: &'static str = "source";

/// Name of the query parameter that lists the wanted block types.
pub const BLOCKS_PARAM: &'static str = "blocks";

/// Name of the one header that a request carries.
pub const ACCEPT_HEADER: &'static str = "accept";

/// Value of that header.
pub const ACCEPT_JSON: &'static str = "application/json";

/// The texts of a list of string slices.
pub open spec fn texts(items: Seq<&str>) -> Seq<Seq<char>> {
    items.map_values(|s: &str| s@)
}

/// The text of an optional string slice.
pub open spec fn opt_text(item: Option<&str>) -> Option<Seq<char>> {
    match item {
        Some(s) => Some(s@),
        None => None,
    }
}

/// The parts in order, with a comma between each two.
pub open spec fn joined(parts: Seq<Seq<char>>) -> Seq<char>
    decreases parts.len(),
{
    if parts.len() == 0 {
        Seq::empty()
    } else if parts.len() == 1 {
        parts[0]
    } else {
        joined(parts.drop_last()) + seq![','] + parts.last()
    }
}

/// A URL text with one more query pair, or `None` where the pair does not
/// fit or there was no text to begin with.
pub open spec fn with_param(text: Option<Seq<char>>, name: Seq<char>, value: Seq<char>) -> Option<
    Seq<char>,
> {
    match text {
        Some(t) => if pair_fits(t, name, value) {
            Some(with_query_pair(t, name, value))
        } else {
            None
        },
        None => None,
    }
}

/// The URL that a fetch requests.
///
/// An endpoint that is no URL is requested as it stands. One that is a URL
/// is requested in its parsed form, with `source` appended if a source is
/// given and then `blocks`, the block types joined by commas, if any are
/// given. `None` where a parameter does not fit.
pub open spec fn request_url_text(
    endpoint: Seq<char>,
    types: Seq<Seq<char>>,
    source: Option<Seq<char>>,
) -> Option<Seq<char>> {
    match parsed_url(endpoint) {
        None => Some(endpoint),
        Some(base) => {
            let sourced = match source {
                Some(s) => with_param(Some(base), SOURCE_PARAM@, s),
                None => Some(base),
            };
            if types.len() == 0 {
                sourced
            } else {
                with_param(sourced, BLOCKS_PARAM@, joined(types))
            }
        },
    }
}

/// Joins block type identifiers with commas.
pub fn join_block_types(types: &[&str]) -> (r: String)
    ensures
        r@ == joined(texts(types@)),
{
    let mut out = String::new();
    let mut i: usize = 0;
    while i < types.len()
        invariant
            i <= types.len(),
            out@ == joined(texts(types@).take(i as int)),
        decreases types.len() - i,
    {
        proof {
            reveal_strlit(",");
            assert(","@ =~= seq![',']);
            assert(texts(types@).take(i + 1).drop_last() =~= texts(types@).take(i as int));
        }
        if i > 0 {
            out.append(",");
        }
        out.append(types[i]);
        i = i + 1;
    }
    proof {
        assert(texts(types@).take(i as int) =~= texts(types@));
    }
    out
}

/// Appends `name=value` to the query of `url` if the pair fits, and says
/// whether it did. A URL that the pair does not fit is left as it was.
pub fn add_param(url: &mut Url, name: &str, value: &str) -> (added: bool)
    ensures
        added == pair_fits(url_text(*old(url)), name@, value@),
        added ==> url_text(*final(url)) == with_query_pair(url_text(*old(url)), name@, value@),
        !added ==> *final(url) == *old(url),
{
    let room: u128 = u32::MAX as u128;
    let need: u128 = as_str(url).as_bytes().len() as u128 + 3 * (name.as_bytes().len() as u128) + 3
        * (value.as_bytes().len() as u128) + 2;
    if need <= room {
        append_pair(url, name, value);
        true
    } else {
        false
    }
}

/// Builds the URL that a fetch requests; see [`request_url_text`].
pub fn request_url(endpoint: &str, types: &[&str], source: Option<&str>) -> (r: Option<String>)
    ensures
        match r {
            Some(text) => request_url_text(endpoint@, texts(types@), opt_text(source)) == Some(text@),
            None => request_url_text(endpoint@, texts(types@), opt_text(source)) is None,
        },
{
    match parse(endpoint) {
        None => Some(endpoint.to_owned()),
        Some(mut url) => {
            if let Some(s) = source {
                if !add_param(&mut url, SOURCE_PARAM, s) {
                    return None;
                }
            }
            if types.len() > 0 {
                let list = join_block_types(types);
                if !add_param(&mut url, BLOCKS_PARAM, list.as_str()) {
                    return None;
                }
            }
            Some(as_str(&url).to_owned())
        },
    }
}

/// Without a source and without block types nothing is appended: the
/// request goes to the endpoint in its parsed form, or to the endpoint as it
/// stands where it is no URL.
pub proof fn lemma_no_parameters(endpoint: Seq<char>)
    ensures
        request_url_text(endpoint, Seq::empty(), None) == Some(
            match parsed_url(endpoint) {
                Some(base) => base,
                None => endpoint,
            },
        ),
{
}

/// An endpoint that is no URL is requested as it stands, whatever source and
/// block types are given.
pub proof fn lemma_invalid_endpoint_unchanged(
    endpoint: Seq<char>,
    types: Seq<Seq<char>>,
    source: Option<Seq<char>>,
)
    requires
        parsed_url(endpoint) is None,
    ensures
        request_url_text(endpoint, types, source) == Some(endpoint),
{
}

/// With a source and block types given, `source` is appended first and
/// `blocks` after it.
pub proof fn lemma_source_before_blocks(
    endpoint: Seq<char>,
    types: Seq<Seq<char>>,
    source: Seq<char>,
)
    requires
        types.len() > 0,
        request_url_text(endpoint, types, Some(source)) is Some,
        parsed_url(endpoint) is Some,
    ensures
        request_url_text(endpoint, types, Some(source)) == Some(
            with_query_pair(
                with_query_pair(parsed_url(endpoint)->0, SOURCE_PARAM@, source),
                BLOCKS_PARAM@,
                joined(types),
            ),
        ),
{
}

} // verus!
