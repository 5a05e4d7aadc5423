//! URLs as four plain components, and the merge of a call URL with a base URL.
//!
//! A URL is split by position alone: an optional scheme in front of `://`, an
//! optional authority, a path, and an optional query behind `?`. A fragment is
//! dropped. Whether the components are well formed is asked of the `http` crate.
use crate::text::{
    begins_with, component_end, finishes_with, lemma_trimmed_len, scan, slice, starts_with_char,
    trim_end, trimmed_len, Boundary,
};
use std::str::FromStr;
use vstd::prelude::*;

verus! {

/// `http::uri::InvalidUri`, the error of the parsers of the `http` crate. It
/// is carried out of the calls and never looked into.
#[verifier::external_type_specification]
#[verifier::external_body]
pub struct ExInvalidUri(http::uri::InvalidUri);

/// Whether `http::uri::Scheme::try_from` accepts `text` as a scheme.
pub uninterp spec fn scheme_accepted(text: Seq<char>) -> bool;

/// Whether `http::uri::Authority::from_str` accepts `text` as an authority.
pub uninterp spec fn authority_accepted(text: Seq<char>) -> bool;

/// Whether `http::uri::PathAndQuery::from_str` accepts `text` as a path with
/// its query.
pub uninterp spec fn path_and_query_accepted(text: Seq<char>) -> bool;

/// Calls `http::uri::Scheme::try_from` on `text`. Nothing is claimed of the
/// grammar: the call succeeds exactly where `scheme_accepted` says so.
#[verifier::external_body]
fn check_scheme(text: &str) -> (r: Result<(), http::uri::InvalidUri>)
    ensures
        r is Ok == scheme_accepted(text@),
{
    match http::uri::Scheme::try_from(text) {
        Ok(_) => Ok(()),
        Err(e) => Err(e),
    }
}

/// Calls `http::uri::Authority::from_str` on `text`. Nothing is claimed of the
/// grammar: the call succeeds exactly where `authority_accepted` says so.
#[verifier::external_body]
fn check_authority(text: &str) -> (r: Result<(), http::uri::InvalidUri>)
    ensures
        r is Ok == authority_accepted(text@),
{
    match http::uri::Authority::from_str(text) {
        Ok(_) => Ok(()),
        Err(e) => Err(e),
    }
}

/// Calls `http::uri::PathAndQuery::from_str` on `text`. Nothing is claimed of
/// the grammar: the call succeeds exactly where `path_and_query_accepted`
/// says so.
#[verifier::external_body]
fn check_path_and_query(text: &str) -> (r: Result<(), http::uri::InvalidUri>)
    ensures
        r is Ok == path_and_query_accepted(text@),
{
    match http::uri::PathAndQuery::from_str(text) {
        Ok(_) => Ok(()),
        Err(e) => Err(e),
    }
}

/// Why a merge of two URLs gave no URL.
#[derive(Clone, Copy, Debug, PartialEq, Eq, Structural)]
pub enum UrlError {
    /// The merged path and query are not well formed.
    InvalidPathAndQuery,
    /// Only one of scheme and authority is present.
    InvalidParts,
}

/// A URL as its components. A missing path is the empty path.
#[derive(Debug, PartialEq, Eq)]
pub struct Url {
    pub scheme: Option<String>,
    pub authority: Option<String>,
    pub path: String,
    pub query: Option<String>,
}

/// The mathematical value of a `Url`.
pub ghost struct UrlView {
    pub scheme: Option<Seq<char>>,
    pub authority: Option<Seq<char>>,
    pub path: Seq<char>,
    pub query: Option<Seq<char>>,
}

/// The characters of an optional string.
pub open spec fn text_of(part: Option<String>) -> Option<Seq<char>> {
    match part {
        Some(s) => Some(s@),
        None => None,
    }
}

impl View for Url {
    type V = UrlView;

    open spec fn view(&self) -> UrlView {
        UrlView {
            scheme: text_of(self.scheme),
            authority: text_of(self.authority),
            path: self.path@,
            query: text_of(self.query),
        }
    }
}

/// Whether `://` stands at index `at` of `s`, behind at least one character.
pub open spec fn marks_scheme(s: Seq<char>, at: int) -> bool {
    0 < at && at + 2 < s.len() && s[at] == ':' && s[at + 1] == '/' && s[at + 2] == '/'
}

/// Path and query of `s` from index `from` on, under the given scheme and
/// authority.
pub open spec fn split_tail(
    s: Seq<char>,
    scheme: Option<Seq<char>>,
    authority: Option<Seq<char>>,
    from: int,
) -> UrlView {
    let path_end = component_end(s, from, Boundary::Path);
    UrlView {
        scheme,
        authority,
        path: s.subrange(from, path_end),
        query: if path_end < s.len() && s[path_end] == '?' {
            Some(s.subrange(path_end + 1, component_end(s, path_end + 1, Boundary::Query)))
        } else {
            None
        },
    }
}

/// Authority, path and query of `s`, where the authority starts at `from`.
pub open spec fn split_authority(s: Seq<char>, scheme: Option<Seq<char>>, from: int) -> UrlView {
    let end = component_end(s, from, Boundary::Authority);
    split_tail(s, scheme, Some(s.subrange(from, end)), end)
}

/// The components of the text `s`.
pub open spec fn split(s: Seq<char>) -> UrlView {
    let colon = component_end(s, 0, Boundary::Scheme);
    if marks_scheme(s, colon) {
        split_authority(s, Some(s.subrange(0, colon)), colon + 3)
    } else if s.len() >= 2 && s[0] == '/' && s[1] == '/' {
        split_authority(s, None, 2)
    } else {
        split_tail(s, None, None, 0)
    }
}

/// `?` and the query, or nothing.
pub open spec fn query_suffix(query: Option<Seq<char>>) -> Seq<char> {
    match query {
        Some(q) => seq!['?'] + q,
        None => Seq::empty(),
    }
}

/// What stands in front of the path in the text of a URL.
pub open spec fn origin(scheme: Option<Seq<char>>, authority: Option<Seq<char>>) -> Seq<char> {
    let head = match scheme {
        Some(s) => s + seq![':', '/', '/'],
        None => if authority is Some {
            seq!['/', '/']
        } else {
            Seq::empty()
        },
    };
    match authority {
        Some(a) => head + a,
        None => head,
    }
}

/// The text of a URL.
pub open spec fn render(u: UrlView) -> Seq<char> {
    origin(u.scheme, u.authority) + u.path + query_suffix(u.query)
}

/// The path `p`, with `/` put in front unless it has one.
pub open spec fn rooted(p: Seq<char>) -> Seq<char> {
    if begins_with(p, '/') {
        p
    } else {
        seq!['/'] + p
    }
}

/// Whether every component of `u` is well formed.
pub open spec fn valid(u: UrlView) -> bool {
    &&& u.scheme matches Some(s) ==> scheme_accepted(s)
    &&& u.authority matches Some(a) ==> authority_accepted(a)
    &&& path_and_query_accepted(rooted(u.path) + query_suffix(u.query))
}

/// A URL that names both scheme and authority stands for itself.
pub open spec fn is_absolute(u: UrlView) -> bool {
    u.scheme is Some && u.authority is Some
}

/// The base path `p` made to end with exactly one `/`.
pub open spec fn normalized(p: Seq<char>) -> Seq<char> {
    p.subrange(0, trimmed_len(p, '/') as int) + seq!['/']
}

/// The path of a call merged with the path of a base: an absolute call path
/// stands alone, a relative one follows the normalized base path.
pub open spec fn joined_path(base: Seq<char>, call: Seq<char>) -> Seq<char> {
    if begins_with(call, '/') {
        call
    } else {
        normalized(base) + call
    }
}

/// The components of a call URL laid over those of a base URL. The query is
/// that of the call alone.
pub open spec fn merged(base: UrlView, call: UrlView) -> UrlView {
    UrlView {
        scheme: if call.scheme is Some {
            call.scheme
        } else {
            base.scheme
        },
        authority: if call.authority is Some {
            call.authority
        } else {
            base.authority
        },
        path: joined_path(base.path, call.path),
        query: call.query,
    }
}

/// The URL that a call to `call` under `base` is sent to.
pub open spec fn resolution(base: UrlView, call: UrlView) -> Result<UrlView, UrlError> {
    if is_absolute(call) {
        Ok(call)
    } else {
        let m = merged(base, call);
        if !path_and_query_accepted(m.path + query_suffix(m.query)) {
            Err(UrlError::InvalidPathAndQuery)
        } else if (m.scheme is Some) != (m.authority is Some) {
            Err(UrlError::InvalidParts)
        } else {
            Ok(m)
        }
    }
}

fn clone_part(part: &Option<String>) -> (r: Option<String>)
    ensures
        r == *part,
{
    match part {
        Some(s) => Some(s.clone()),
        None => None,
    }
}

/// `path`, and behind it `?` and the query if there is one.
fn path_with_query(path: String, query: &Option<String>) -> (r: String)
    ensures
        r@ == path@ + query_suffix(text_of(*query)),
{
    match query {
        Some(q) => {
            let r = path.concat("?").concat(q.as_str());
            proof {
                reveal_strlit("?");
                assert("?"@ =~= seq!['?']);
                assert(r@ =~= path@ + (seq!['?'] + q@));
            }
            r
        },
        None => {
            assert(path@ + Seq::<char>::empty() =~= path@);
            path
        },
    }
}

impl Clone for Url {
    fn clone(&self) -> (r: Self)
        ensures
            r == *self,
    {
        Url {
            scheme: clone_part(&self.scheme),
            authority: clone_part(&self.authority),
            path: self.path.clone(),
            query: clone_part(&self.query),
        }
    }
}

impl Url {
    fn parse_tail(text: &str, scheme: Option<String>, authority: Option<String>, from: usize) -> (r:
        Url)
        requires
            from <= text@.len(),
        ensures
            r@ == split_tail(text@, text_of(scheme), text_of(authority), from as int),
    {
        let n: usize = text.unicode_len();
        let path_end: usize = scan(text, from, Boundary::Path);
        let path = slice(text, from, path_end);
        let query = if path_end < n && text.get_char(path_end) == '?' {
            let query_end: usize = scan(text, path_end + 1, Boundary::Query);
            Some(slice(text, path_end + 1, query_end))
        } else {
            None
        };
        Url { scheme, authority, path, query }
    }

    fn parse_authority(text: &str, scheme: Option<String>, from: usize) -> (r: Url)
        requires
            from <= text@.len(),
        ensures
            r@ == split_authority(text@, text_of(scheme), from as int),
    {
        let end: usize = scan(text, from, Boundary::Authority);
        let authority = slice(text, from, end);
        Url::parse_tail(text, scheme, Some(authority), end)
    }

    /// Splits `text` into the components of a URL. Every text splits; whether
    /// the components are well formed is what `is_valid` tells.
    pub fn parse(text: &str) -> (r: Url)
        ensures
            r@ == split(text@),
    {
        let n: usize = text.unicode_len();
        let colon: usize = scan(text, 0, Boundary::Scheme);
        if colon > 0 && n >= 3 && colon < n - 2 && text.get_char(colon) == ':' && text.get_char(
            colon + 1,
        ) == '/' && text.get_char(colon + 2) == '/' {
            let scheme = slice(text, 0, colon);
            Url::parse_authority(text, Some(scheme), colon + 3)
        } else if n >= 2 && text.get_char(0) == '/' && text.get_char(1) == '/' {
            Url::parse_authority(text, None, 2)
        } else {
            Url::parse_tail(text, None, None, 0)
        }
    }

    /// The text of this URL.
    pub fn to_string(&self) -> (r: String)
        ensures
            r@ == render(self@),
    {
        let mut out = String::new();
        match &self.scheme {
            Some(s) => {
                out.append(s.as_str());
                out.append("://");
            },
            None => {
                if self.authority.is_some() {
                    out.append("//");
                }
            },
        }
        proof {
            reveal_strlit("://");
            reveal_strlit("//");
            assert("://"@ =~= seq![':', '/', '/']);
            assert("//"@ =~= seq!['/', '/']);
        }
        match &self.authority {
            Some(a) => {
                out.append(a.as_str());
            },
            None => {},
        }
        assert(out@ =~= origin(self@.scheme, self@.authority));
        out.append(self.path.as_str());
        path_with_query(out, &self.query)
    }

    /// Whether this URL names both a scheme and an authority.
    pub fn has_origin(&self) -> (r: bool)
        ensures
            r == is_absolute(self@),
    {
        self.scheme.is_some() && self.authority.is_some()
    }

    /// Whether the `http` crate accepts each component of this URL. A relative
    /// path is judged with `/` in front of it.
    pub fn is_valid(&self) -> (r: bool)
        ensures
            r == valid(self@),
    {
        let scheme_ok = match &self.scheme {
            Some(s) => check_scheme(s.as_str()).is_ok(),
            None => true,
        };
        let authority_ok = match &self.authority {
            Some(a) => check_authority(a.as_str()).is_ok(),
            None => true,
        };
        let path = if starts_with_char(self.path.as_str(), '/') {
            self.path.clone()
        } else {
            let p = "/".to_owned().concat(self.path.as_str());
            proof {
                reveal_strlit("/");
                assert(p@ =~= seq!['/'] + self.path@);
            }
            p
        };
        let text = path_with_query(path, &self.query);
        let path_ok = check_path_and_query(text.as_str()).is_ok();
        scheme_ok && authority_ok && path_ok
    }

    /// The path of a call to `call` under the base path `base`.
    pub fn join_path(base: &str, call: &str) -> (r: String)
        ensures
            r@ == joined_path(base@, call@),
    {
        if starts_with_char(call, '/') {
            call.to_owned()
        } else {
            let kept: usize = trim_end(base, '/');
            let r = slice(base, 0, kept).concat("/").concat(call);
            proof {
                reveal_strlit("/");
                assert("/"@ =~= seq!['/']);
            }
            r
        }
    }

    /// Merges the call URL `call` with the base URL `base`.
    ///
    /// A call URL with scheme and authority is returned as it is. Otherwise
    /// scheme and authority of the call, where present, replace those of the
    /// base; an absolute call path replaces the base path and a relative one
    /// follows it; the query is that of the call. The merge fails where the
    /// `http` crate rejects the merged path and query, or where only one of
    /// scheme and authority is left.
    pub fn resolve(base: &Url, call: &Url) -> (r: Result<Url, UrlError>)
        ensures
            match resolution(base@, call@) {
                Ok(v) => r matches Ok(u) && u@ == v,
                Err(e) => r == Err::<Url, UrlError>(e),
            },
    {
        if call.has_origin() {
            return Ok(call.clone());
        }
        let scheme = if call.scheme.is_some() {
            clone_part(&call.scheme)
        } else {
            clone_part(&base.scheme)
        };
        let authority = if call.authority.is_some() {
            clone_part(&call.authority)
        } else {
            clone_part(&base.authority)
        };
        let path = Url::join_path(base.path.as_str(), call.path.as_str());
        let text = path_with_query(path.clone(), &call.query);
        match check_path_and_query(text.as_str()) {
            Err(_) => Err(UrlError::InvalidPathAndQuery),
            Ok(_) => {
                if scheme.is_some() != authority.is_some() {
                    Err(UrlError::InvalidParts)
                } else {
                    Ok(Url { scheme, authority, path, query: clone_part(&call.query) })
                }
            },
        }
    }
}

/// A call URL that names scheme and authority resolves to itself, whatever the
/// base URL is.
pub proof fn lemma_absolute_call_ignores_base(base: UrlView, other: UrlView, call: UrlView)
    requires
        is_absolute(call),
    ensures
        resolution(base, call) == Ok::<UrlView, UrlError>(call),
        resolution(base, call) == resolution(other, call),
{
}

/// The normalized base path ends with one `/`, and with no second one in front
/// of it.
pub proof fn lemma_normalized_ends_with_one_separator(p: Seq<char>)
    ensures
        finishes_with(normalized(p), '/'),
        !finishes_with(normalized(p).drop_last(), '/'),
        normalized(normalized(p)) == normalized(p),
{
    lemma_trimmed_len(p, '/');
    let kept = p.subrange(0, trimmed_len(p, '/') as int);
    let n = normalized(p);
    assert(n.drop_last() =~= kept);
    lemma_trimmed_len(n, '/');
    assert(finishes_with(n, '/'));
    assert(trimmed_len(n, '/') == trimmed_len(kept, '/'));
    lemma_trimmed_stable(kept, '/');
    assert(n.subrange(0, kept.len() as int) =~= kept);
    assert(normalized(n) =~= n);
}

/// A text that does not end with `c` is its own trimmed form.
pub proof fn lemma_trimmed_stable(s: Seq<char>, c: char)
    requires
        !finishes_with(s, c),
    ensures
        trimmed_len(s, c) == s.len(),
{
}

/// Where a call URL has neither scheme nor authority and its path is relative,
/// a successful merge keeps scheme and authority of the base, and its path is
/// the normalized base path followed by the call path; the query is the
/// call's.
pub proof fn lemma_relative_call_follows_base(base: UrlView, call: UrlView)
    requires
        call.scheme is None,
        call.authority is None,
        !begins_with(call.path, '/'),
        resolution(base, call) is Ok,
    ensures
        resolution(base, call)->Ok_0.scheme == base.scheme,
        resolution(base, call)->Ok_0.authority == base.authority,
        resolution(base, call)->Ok_0.path == normalized(base.path) + call.path,
        resolution(base, call)->Ok_0.query == call.query,
{
}

/// Where a call URL has neither scheme nor authority and its path is absolute,
/// a successful merge keeps scheme and authority of the base and takes path and
/// query from the call.
pub proof fn lemma_rooted_call_replaces_path(base: UrlView, call: UrlView)
    requires
        call.scheme is None,
        call.authority is None,
        begins_with(call.path, '/'),
        resolution(base, call) is Ok,
    ensures
        resolution(base, call)->Ok_0.scheme == base.scheme,
        resolution(base, call)->Ok_0.authority == base.authority,
        resolution(base, call)->Ok_0.path == call.path,
        resolution(base, call)->Ok_0.query == call.query,
{
}

/// A merge that succeeds gives an absolute URL or one with neither scheme nor
/// authority.
pub proof fn lemma_resolution_is_consistent(base: UrlView, call: UrlView)
    requires
        resolution(base, call) is Ok,
        !is_absolute(call),
    ensures
        resolution(base, call)->Ok_0.scheme is Some == resolution(base, call)->Ok_0.authority is Some,
        path_and_query_accepted(
            resolution(base, call)->Ok_0.path + query_suffix(resolution(base, call)->Ok_0.query),
        ),
{
}

} // verus!
