//! Addresses, identifiers and encodings that the web asks for.

use vstd::prelude::*;
use crate::text::opt_text;

verus! {

/// A name and its value in the query of an address.
pub type QueryPair = (String, String);

/// What each pair of a list says.
pub open spec fn pair_texts(pairs: Seq<QueryPair>) -> Seq<(Seq<char>, Seq<char>)> {
    pairs.map_values(|p: QueryPair| (p.0@, p.1@))
}

/// The address that the `url` crate makes of a base address and the pairs
/// appended to its query, in their order.  `None` where the crate cannot
/// read the base address.
pub uninterp spec fn url_with_pairs(base: Seq<char>, pairs: Seq<(Seq<char>, Seq<char>)>) -> Option<
    Seq<char>,
>;

/// A text in the standard alphabet of base 64, padded.
pub uninterp spec fn base64_standard(text: Seq<char>) -> Seq<char>;

/// Parses an address with `url::Url::parse`, appends each pair with
/// `query_pairs_mut().append_pair`, and prints the address.  Trusted: the
/// result is the crate's, which depends on base and pairs alone.
#[verifier::external_body]
pub(crate) fn url_with_query(base: &str, pairs: &Vec<QueryPair>) -> (address: Option<String>)
    ensures
        opt_text(address) == url_with_pairs(base@, pair_texts(pairs@)),
{
    let mut url = url::Url::parse(base).ok()?;
    for pair in pairs.iter() {
        url.query_pairs_mut().append_pair(&pair.0, &pair.1);
    }
    Some(url.to_string())
}

/// Draws a random identifier with `uuid::Uuid::new_v4`.  Nothing is
/// promised of it.
#[verifier::external_body]
pub(crate) fn random_identifier() -> (identifier: String) {
    uuid::Uuid::new_v4().to_string()
}

/// Encodes a text with `base64`'s standard engine.  Trusted: the result
/// depends on the text alone.
#[verifier::external_body]
pub(crate) fn encode_base64(text: &str) -> (encoded: String)
    ensures
        encoded@ == base64_standard(text@),
{
    base64::Engine::encode(&base64::engine::general_purpose::STANDARD, text)
}

} // verus!
