//! The boundary to the `url` crate.
//!
//! A parsed URL stays a `url::Url`. What the library needs of one is its
//! serialization, the text that the request goes out to, so the contracts
//! here speak of that text alone. Nothing in this module is proved: each
//! contract restates what the `url` crate does.

use url::Url;
use vstd::prelude::*;
use vstd::utf8::encode_utf8;

verus! {

/// `url::Url`: a parsed absolute URL. Opaque to the verifier.
#[verifier::external_type_specification]
#[verifier::external_body]
pub struct ExUrl(url::Url);

/// The serialization of a URL: the text that `Url::as_str` shows. It stands
/// for the whole URL: the crate compares and hashes URLs by it alone, and
/// the offsets that a `Url` keeps beside it are those that parsing the text
/// anew would give.
pub uninterp spec fn url_text(url: Url) -> Seq<char>;

/// The serialization of the URL that `Url::parse` reads out of `input`, which
/// may differ from `input` (the host is lowercased, an empty path becomes `/`);
/// `None` where `input` is no absolute URL.
pub uninterp spec fn parsed_url(input: Seq<char>) -> Option<Seq<char>>;

/// The serialization of the URL `text` once `name=value` has been appended to
/// its query in `application/x-www-form-urlencoded` syntax: after a `?` where
/// there was no query, after a `&` where the query was not empty, and before
/// the fragment in any case.
pub uninterp spec fn with_query_pair(text: Seq<char>, name: Seq<char>, value: Seq<char>) -> Seq<
    char,
>;

/// Whether a pair can be appended to a URL without its serialization growing
/// past what the `url` crate can index, which is `u32::MAX` bytes. A byte of
/// `name` or `value` takes at most three bytes once encoded, and the two
/// separators take one each.
pub open spec fn pair_fits(text: Seq<char>, name: Seq<char>, value: Seq<char>) -> bool {
    encode_utf8(text).len() + 3 * encode_utf8(name).len() + 3 * encode_utf8(value).len() + 2
        <= u32::MAX
}

/// `Url::parse`: reads an absolute URL. Its outcome depends on the input
/// alone, so it has a name, [`parsed_url`]. The parse error is dropped.
#[verifier::external_body]
pub(crate) fn parse(input: &str) -> (r: Option<Url>)
    ensures
        match r {
            Some(url) => parsed_url(input@) == Some(url_text(url)),
            None => parsed_url(input@) is None,
        },
{
    Url::parse(input).ok()
}

/// `Url::as_str`: the serialization.
#[verifier::external_body]
pub(crate) fn as_str(url: &Url) -> (r: &str)
    ensures
        r@ == url_text(*url),
{
    url.as_str()
}

/// `Url::query_pairs_mut` followed by `Serializer::append_pair`: appends one
/// pair to the query. The new serialization depends on the old one and on
/// the pair alone, so it has a name, [`with_query_pair`]. The crate keeps
/// offsets into the serialization as `u32` and panics where one does not fit;
/// [`pair_fits`] keeps every offset it takes here in range.
#[verifier::external_body]
pub(crate) fn append_pair(url: &mut Url, name: &str, value: &str)
    requires
        pair_fits(url_text(*old(url)), name@, value@),
    ensures
        url_text(*final(url)) == with_query_pair(url_text(*old(url)), name@, value@),
{
    url.query_pairs_mut().append_pair(name, value);
}

} // verus!
