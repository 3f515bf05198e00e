//! Building the address of a request: a base URL and its query parameters.

use vstd::prelude::*;
use vstd::utf8::encode_utf8;
use crate::error::{Error, UrlError};

verus! {

/// Makes `url::ParseError` known to the verifier, as a value that is carried
/// through and never looked into.
#[verifier::external_type_specification]
#[verifier::external_body]
pub struct ExParseError(url::ParseError);

/// The longest URL, in bytes, that the parser can index.
pub const MAX_URL: u64 = 0xFFFF_FFFF;

/// How many times longer than its input the parsed base is allowed to be.
pub const BASE_GROWTH: u64 = 256;

/// The longest base, in bytes, whose allowance still is within [`MAX_URL`].
pub const MAX_BASE: u64 = 16_777_214;

/// What `url::Url::parse_with_params` gives for a base and a list of
/// key/value pairs: the serialised URL, or the error it rejects the base with.
pub uninterp spec fn url_with_params(
    input: Seq<char>,
    pairs: Seq<(Seq<char>, Seq<char>)>,
) -> Result<Seq<char>, url::ParseError>;

/// The length of a text in bytes, as UTF-8.
pub open spec fn byte_len(text: Seq<char>) -> nat {
    encode_utf8(text).len()
}

/// The room allowed for the parsed base. Parsing escapes and normalises the
/// parts of a URL; the allowance is 256 times the length of the input and 256
/// bytes more.
pub open spec fn base_size(input: Seq<char>) -> nat {
    BASE_GROWTH as nat * byte_len(input) + BASE_GROWTH as nat
}

/// The most bytes one pair adds to a query: every byte of the key and of the
/// value escaped to three, the sign between them and the separator before.
pub open spec fn pair_size(pair: (Seq<char>, Seq<char>)) -> nat {
    3 * byte_len(pair.0) + 3 * byte_len(pair.1) + 2
}

/// The most bytes a list of pairs adds to a query.
pub open spec fn query_size(pairs: Seq<(Seq<char>, Seq<char>)>) -> nat
    decreases pairs.len(),
{
    if pairs.len() == 0 {
        0
    } else {
        query_size(pairs.drop_last()) + pair_size(pairs.last())
    }
}

/// The URL made of a base and its pairs is sure to be within what the parser
/// can index.
pub open spec fn within_limits(input: Seq<char>, pairs: Seq<(Seq<char>, Seq<char>)>) -> bool {
    base_size(input) + query_size(pairs) <= MAX_URL
}

/// The first pairs of a list add no more bytes than the whole list.
pub proof fn query_size_of_prefix(pairs: Seq<(Seq<char>, Seq<char>)>, n: int)
    requires
        0 <= n <= pairs.len(),
    ensures
        query_size(pairs.take(n)) <= query_size(pairs),
    decreases pairs.len(),
{
    if n == pairs.len() {
        assert(pairs.take(n) =~= pairs);
    } else {
        query_size_of_prefix(pairs.drop_last(), n);
        assert(pairs.drop_last().take(n) =~= pairs.take(n));
    }
}

/// One more pair adds its own size to that of the pairs before it.
pub proof fn query_size_of_next(pairs: Seq<(Seq<char>, Seq<char>)>, n: int)
    requires
        0 <= n < pairs.len(),
    ensures
        query_size(pairs.take(n + 1)) == query_size(pairs.take(n)) + pair_size(pairs[n]),
{
    assert(pairs.take(n + 1).drop_last() =~= pairs.take(n));
    assert(pairs.take(n + 1).last() == pairs[n]);
}

/// Calls `url::Url::parse_with_params` and hands back the URL as text.
///
/// Trusted: that the outcome, the error included, is a function of the base
/// and the pairs alone, named [`url_with_params`]. The parser indexes a URL
/// with 32-bit offsets and panics where the serialisation outgrows them. The
/// precondition keeps it within them: the query escapes a byte to at most
/// three, and the base is given room to grow 256-fold while it is parsed.
#[verifier::external_body]
fn parse_with_params(input: &str, pairs: &Vec<(String, String)>) -> (r: Result<
    String,
    url::ParseError,
>)
    requires
        within_limits(input@, pairs.deep_view()),
    ensures
        match r {
            Ok(url) => url_with_params(input@, pairs.deep_view()) == Ok::<
                Seq<char>,
                url::ParseError,
            >(url@),
            Err(e) => url_with_params(input@, pairs.deep_view()) == Err::<
                Seq<char>,
                url::ParseError,
            >(e),
        },
{
    url::Url::parse_with_params(input, pairs).map(String::from)
}

/// The length of a text in bytes.
fn bytes_of(text: &str) -> (n: u64)
    ensures
        n == byte_len(text@),
{
    let n: usize = text.as_bytes().len();
    n as u64
}

/// Whether the URL made of a base and its pairs is sure to be within what
/// the parser can index.
pub fn fits(input: &str, pairs: &Vec<(String, String)>) -> (b: bool)
    ensures
        b == within_limits(input@, pairs.deep_view()),
{
    let ghost all = pairs.deep_view();
    let base: u64 = bytes_of(input);
    if base > MAX_BASE {
        return false;
    }
    let mut total: u64 = BASE_GROWTH * base + BASE_GROWTH;
    let mut i: usize = 0;
    proof {
        assert(all.take(0) =~= Seq::empty());
    }
    while i < pairs.len()
        invariant
            i <= pairs.len(),
            all == pairs.deep_view(),
            total == base_size(input@) + query_size(all.take(i as int)),
            total <= MAX_URL,
        decreases pairs.len() - i,
    {
        let key: u64 = bytes_of(pairs[i].0.as_str());
        let value: u64 = bytes_of(pairs[i].1.as_str());
        proof {
            assert(all[i as int] == (pairs[i as int].0@, pairs[i as int].1@));
            query_size_of_next(all, i as int);
            query_size_of_prefix(all, i + 1);
        }
        if key > MAX_URL || value > MAX_URL {
            return false;
        }
        let next: u64 = total + 3 * key + 3 * value + 2;
        if next > MAX_URL {
            return false;
        }
        total = next;
        i += 1;
    }
    proof {
        assert(all.take(i as int) =~= all);
    }
    true
}

/// The full address for a base URL and its query parameters.
///
/// Fails with [`UrlError::Oversize`] exactly when the input is beyond what
/// the parser can be given, and with [`UrlError::Rejected`] exactly when it
/// is within that and the parser rejects the base; the error is the parser's.
pub fn build_url(input: &str, pairs: &Vec<(String, String)>) -> (r: Result<String, Error>)
    ensures
        match r {
            Ok(url) => within_limits(input@, pairs.deep_view()) && url_with_params(
                input@,
                pairs.deep_view(),
            ) == Ok::<Seq<char>, url::ParseError>(url@),
            Err(Error::Url(UrlError::Oversize)) => !within_limits(input@, pairs.deep_view()),
            Err(Error::Url(UrlError::Rejected(e))) => within_limits(input@, pairs.deep_view())
                && url_with_params(input@, pairs.deep_view()) == Err::<
                Seq<char>,
                url::ParseError,
            >(e),
            Err(_) => false,
        },
{
    if !fits(input, pairs) {
        return Err(Error::Url(UrlError::Oversize));
    }
    match parse_with_params(input, pairs) {
        Ok(url) => Ok(url),
        Err(e) => Err(Error::Url(UrlError::Rejected(e))),
    }
}

} // verus!
