//! Relay endpoints and the client identity tag.
//!
//! One configured base URL serves plaintext queries, encrypted queries and
//! cancellation: the encrypted and the cancel endpoint are derived from it
//! by rewriting its last path segment.

use crate::text::{append_str, chars_of, ends_with, string_of, string_of_range};
use vstd::prelude::*;
use vstd::string::*;

verus! {

/// `url` without its trailing slashes.
pub open spec fn trim_slashes(url: Seq<char>) -> Seq<char>
    decreases url.len(),
{
    if url.len() > 0 && url.last() == '/' {
        trim_slashes(url.drop_last())
    } else {
        url
    }
}

/// `s` without its last `n` characters.
pub open spec fn without_suffix(s: Seq<char>, n: nat) -> Seq<char> {
    s.subrange(0, s.len() - n)
}

/// Whether the base of `url` ends with the echo test suffix.
pub open spec fn is_echo_endpoint(url: Seq<char>) -> bool {
    "/echo"@.is_suffix_of(trim_slashes(url))
}

/// Whether the base of `url` ends with the plaintext query suffix.
pub open spec fn is_query_endpoint(url: Seq<char>) -> bool {
    "/ai_query"@.is_suffix_of(trim_slashes(url))
}

/// The endpoint for encrypted queries: an echo endpoint is used as it is;
/// on a query endpoint the query suffix is replaced by the secure suffix;
/// on any other base the secure suffix is appended.
pub open spec fn secure_endpoint_spec(url: Seq<char>) -> Seq<char> {
    let base = trim_slashes(url);
    if is_echo_endpoint(url) {
        base
    } else if is_query_endpoint(url) {
        without_suffix(base, "/ai_query"@.len()) + "/ai_query/secure"@
    } else {
        base + "/ai_query/secure"@
    }
}

/// The endpoint for cancelling a request: on a query endpoint the query
/// suffix is replaced by the cancel suffix; on any other base the cancel
/// suffix is appended.
pub open spec fn cancel_endpoint_spec(url: Seq<char>) -> Seq<char> {
    let base = trim_slashes(url);
    if is_query_endpoint(url) {
        without_suffix(base, "/ai_query"@.len()) + "/cancel_request"@
    } else {
        base + "/cancel_request"@
    }
}

/// The part of a version before its first dot.
pub open spec fn major_version(version: Seq<char>) -> Seq<char>
    decreases version.len(),
{
    if version.len() == 0 || version.first() == '.' {
        Seq::empty()
    } else {
        seq![version.first()] + major_version(version.drop_first())
    }
}

/// The client identity tag of an application with the given version.
pub open spec fn app_id_spec(version: Seq<char>) -> Seq<char> {
    "apiai-v"@ + major_version(version)
}

proof fn lemma_trim_slashes_stable(url: Seq<char>)
    ensures
        trim_slashes(trim_slashes(url)) == trim_slashes(url),
        trim_slashes(url).len() > 0 ==> trim_slashes(url).last() != '/',
    decreases url.len(),
{
    if url.len() > 0 && url.last() == '/' {
        lemma_trim_slashes_stable(url.drop_last());
    }
}

/// Rewriting an echo endpoint a second time changes nothing.
pub proof fn lemma_secure_endpoint_stable(url: Seq<char>)
    requires
        is_echo_endpoint(url),
    ensures
        secure_endpoint_spec(secure_endpoint_spec(url)) == secure_endpoint_spec(url),
{
    lemma_trim_slashes_stable(url);
}

/// Rewriting any other endpoint a second time appends the secure suffix
/// again: the rewrite is to be applied once, to the configured base URL.
pub proof fn lemma_secure_endpoint_restacks(url: Seq<char>)
    requires
        !is_echo_endpoint(url),
    ensures
        secure_endpoint_spec(secure_endpoint_spec(url)) == secure_endpoint_spec(url)
            + "/ai_query/secure"@,
{
    reveal_strlit("/echo");
    reveal_strlit("/ai_query");
    reveal_strlit("/ai_query/secure");
    let once = secure_endpoint_spec(url);
    let suffix = "/ai_query/secure"@;
    assert(once.len() >= suffix.len());
    assert(once.last() == suffix[suffix.len() - 1]);
    assert(once.last() == 'e');
    assert(trim_slashes(once) == once);
    assert(!"/echo"@.is_suffix_of(once)) by {
        if "/echo"@.is_suffix_of(once) {
            assert(once.subrange(once.len() - 5, once.len() as int)[4] == 'o');
        }
    }
    assert(!"/ai_query"@.is_suffix_of(once)) by {
        if "/ai_query"@.is_suffix_of(once) {
            assert(once.subrange(once.len() - 9, once.len() as int)[8] == 'y');
        }
    }
}

/// The characters of `url` without its trailing slashes.
fn base_of(url: &str) -> (base: Vec<char>)
    ensures
        base@ == trim_slashes(url@),
{
    let mut base = chars_of(url);
    while base.len() > 0 && base[base.len() - 1] == '/'
        invariant
            trim_slashes(base@) == trim_slashes(url@),
        decreases base.len(),
    {
        base.pop();
    }
    base
}

/// Derives the endpoint for encrypted queries from the configured base URL.
pub fn secure_endpoint(url: &str) -> (endpoint: String)
    ensures
        endpoint@ == secure_endpoint_spec(url@),
{
    let mut base = base_of(url);
    let echo = chars_of("/echo");
    let query = chars_of("/ai_query");
    if ends_with(&base, &echo) {
    } else if ends_with(&base, &query) {
        base.truncate(base.len() - query.len());
        append_str(&mut base, "/ai_query/secure");
    } else {
        append_str(&mut base, "/ai_query/secure");
    }
    string_of(&base)
}

/// Derives the endpoint for cancelling a request from the configured base URL.
pub fn cancel_endpoint(url: &str) -> (endpoint: String)
    ensures
        endpoint@ == cancel_endpoint_spec(url@),
{
    let mut base = base_of(url);
    let query = chars_of("/ai_query");
    if ends_with(&base, &query) {
        base.truncate(base.len() - query.len());
    }
    append_str(&mut base, "/cancel_request");
    string_of(&base)
}

/// The client identity tag of an application with the given version: the
/// application's name, `-v`, and the version up to its first dot.
pub fn app_id_for(version: &str) -> (id: String)
    ensures
        id@ == app_id_spec(version@),
{
    let chars = chars_of(version);
    let n = chars.len();
    let mut i: usize = 0;
    assert(chars@.subrange(0, n as int) == chars@);
    while i < n && chars[i] != '.'
        invariant
            n == chars@.len(),
            i <= n,
            major_version(chars@) == chars@.subrange(0, i as int) + major_version(
                chars@.subrange(i as int, n as int),
            ),
        decreases n - i,
    {
        proof {
            let rest = chars@.subrange(i as int, n as int);
            assert(rest.drop_first() == chars@.subrange(i + 1, n as int));
            assert(chars@.subrange(0, i + 1) == chars@.subrange(0, i as int) + seq![rest.first()]);
        }
        i += 1;
    }
    let mut id = chars_of("apiai-v");
    let major = string_of_range(&chars, 0, i);
    append_str(&mut id, major.as_str());
    string_of(&id)
}

/// The version that this client declares.
pub open spec fn declared_version() -> Seq<char> {
    "2.1.1"@
}

/// The client identity tag of this client.
pub fn get_app_id() -> (id: String)
    ensures
        id@ == app_id_spec(declared_version()),
        id@ == "apiai-v2"@,
{
    proof {
        reveal_strlit("2.1.1");
        reveal_strlit("apiai-v");
        reveal_strlit("apiai-v2");
        reveal_with_fuel(major_version, 3);
        assert(app_id_spec("2.1.1"@) =~= "apiai-v2"@);
    }
    app_id_for("2.1.1")
}

} // verus!
