use vstd::prelude::*;

verus! {

#[verifier::external_type_specification]
#[verifier::external_body]
pub struct ExParseError(url::ParseError);

/// Whether `url::Url::parse` accepts the text as an absolute URL.
pub uninterp spec fn url_parses(s: Seq<char>) -> bool;

/// The serialization of the URL parsed from `base` after the pairs were
/// form-encoded and appended to its query, in order.
pub uninterp spec fn with_query_pairs(base: Seq<char>, pairs: Seq<(Seq<char>, Seq<char>)>) -> Seq<
    char,
>;

/// The form-decoded query pairs of the URL parsed from `s`, in the order in
/// which they stand in the query.
pub uninterp spec fn query_pairs_of(s: Seq<char>) -> Seq<(Seq<char>, Seq<char>)>;

pub open spec fn pairs_view(v: Seq<(String, String)>) -> Seq<(Seq<char>, Seq<char>)> {
    v.map_values(|p: (String, String)| (p.0@, p.1@))
}

/// Longest text, in chars, of any one field given to the URL parser or the
/// query serializer. `url` indexes a serialization with `u32` and panics past
/// it; with the base and at most eight pairs (seventeen fields), each char
/// percent-encoded to at most twelve bytes, a URL built from them stays near
/// 2 GB, below that.
pub const MAX_FIELD_CHARS: usize = 10000000;

pub open spec fn field_fits(s: Seq<char>) -> bool {
    s.len() <= MAX_FIELD_CHARS
}

/// Relies on `url::Url::parse` (success is decided by the text alone) and on
/// `form_urlencoded::Serializer::extend_pairs` through `Url::query_pairs_mut`,
/// which encodes every pair and appends it after any query already present.
#[verifier::external_body]
pub(crate) fn append_query_pairs(base: &str, pairs: &Vec<(String, String)>) -> (r: Result<
    String,
    url::ParseError,
>)
    requires
        field_fits(base@),
        pairs@.len() <= 8,
        forall|i: int|
            0 <= i < pairs@.len() ==> field_fits(#[trigger] pairs@[i].0@) && field_fits(
                pairs@[i].1@,
            ),
    ensures
        r is Ok == url_parses(base@),
        match r {
            Ok(s) => s@ == with_query_pairs(base@, pairs_view(pairs@)),
            Err(_) => true,
        },
{
    let mut url = url::Url::parse(base)?;
    url.query_pairs_mut().extend_pairs(pairs.iter());
    Ok(url.into())
}

/// Relies on `url::Url::parse` and on `Url::query_pairs`, which yields the
/// decoded pairs of the query in their order, repeated keys included.
#[verifier::external_body]
pub(crate) fn decode_query_pairs(s: &str) -> (r: Result<Vec<(String, String)>, url::ParseError>)
    ensures
        r is Ok == url_parses(s@),
        match r {
            Ok(v) => pairs_view(v@) == query_pairs_of(s@),
            Err(_) => true,
        },
{
    let url = url::Url::parse(s)?;
    Ok(url.query_pairs().into_owned().collect())
}

/// Relies on the `Display` impl of `url::ParseError` for a readable message.
#[verifier::external_body]
pub(crate) fn parse_error_text(e: &url::ParseError) -> String {
    e.to_string()
}

} // verus!
