//! A compiled operation, and the request that one call of it makes.
use crate::client::{settled, Client, ClientError};
use crate::method::Method;
use crate::string_map::{
    has_key, lemma_overlaid_keeps, lemma_overlaid_value, overlaid, pairs_of, Pair, StringMap,
};
use crate::template::{substitute, substituted};
use crate::url::{split, Url};
use crate::{Request, Transport};
use vstd::prelude::*;

verus! {

/// Where the body of a request comes from.
#[derive(Debug, PartialEq, Eq)]
pub enum BodySource {
    /// The request has no body.
    Absent,
    /// The body is this text, fixed by the declaration.
    Literal(String),
    /// The body is the argument given for the parameter at this index.
    Parameter(usize),
}

/// The plan of one operation: what every call of it has in common.
#[derive(Debug, PartialEq, Eq)]
pub struct Operation {
    pub name: String,
    pub method: Method,
    /// The path or URL of the operation, placeholders included.
    pub uri: String,
    /// The headers that the declaration fixes, in its order.
    pub headers: Vec<(String, String)>,
    /// The query parameters that the declaration fixes, in its order.
    pub queries: Vec<(String, String)>,
    pub body: BodySource,
    /// The index of the parameter that brings headers with each call.
    pub headers_from: Option<usize>,
    /// The index of the parameter that brings query parameters with each call.
    pub queries_from: Option<usize>,
    /// The type of the body on the wire, as declared.
    pub request_type: String,
    /// The type that a response decodes to, as declared.
    pub response_type: String,
    /// Whether a response must have a body.
    pub expect_body: bool,
}

/// The body of a request that an operation makes.
#[derive(Debug, PartialEq, Eq)]
pub enum Body<T> {
    /// The text that the declaration fixes.
    Literal(String),
    /// The argument of the call.
    Value(T),
}

/// What one call of an operation brings.
pub struct Arguments<T> {
    /// For the parameter that brings headers.
    pub headers: Option<StringMap>,
    /// For the parameter that brings query parameters.
    pub queries: Option<StringMap>,
    /// For the parameter that is the body.
    pub body: Option<T>,
    /// The value of each path parameter, under its name.
    pub parameters: Vec<(String, String)>,
}

/// The entries that a call brings for a map: those given, where the operation
/// has a parameter for them, and none otherwise.
pub open spec fn brought(bound: Option<usize>, given: Option<StringMap>) -> Map<
    Seq<char>,
    Seq<char>,
> {
    match given {
        Some(map) => if bound is Some {
            map@
        } else {
            Map::empty()
        },
        None => Map::empty(),
    }
}

/// The body of the request: the argument where the operation takes its body
/// from a parameter, else the text that the declaration fixes, else none.
pub open spec fn body_of<T>(source: BodySource, given: Option<T>) -> Option<Body<T>> {
    match source {
        BodySource::Parameter(_) => match given {
            Some(value) => Some(Body::Value(value)),
            None => None,
        },
        BodySource::Literal(text) => Some(Body::Literal(text)),
        BodySource::Absent => None,
    }
}

/// Whether `request` is the request of a call of `operation` with
/// `arguments`.
///
/// Headers and query parameters start from what the call brings; those of the
/// declaration are written over them in turn, so that under one key the
/// declaration wins.
pub open spec fn requested<T>(
    operation: Operation,
    arguments: Arguments<T>,
    request: Request<Body<T>>,
) -> bool {
    &&& request.method == operation.method
    &&& request.url@ == split(substituted(operation.uri@, pairs_of(arguments.parameters@)))
    &&& request.headers@ == overlaid(
        brought(operation.headers_from, arguments.headers),
        pairs_of(operation.headers@),
    )
    &&& request.queries@ == overlaid(
        brought(operation.queries_from, arguments.queries),
        pairs_of(operation.queries@),
    )
    &&& request.body == body_of(operation.body, arguments.body)
    &&& request.expect_body == operation.expect_body
}

/// The map that a call starts from, with the pairs of the declaration written
/// over it.
fn assemble(bound: &Option<usize>, given: &Option<StringMap>, fixed: &Vec<(String, String)>) -> (r:
    StringMap)
    ensures
        r@ == overlaid(brought(*bound, *given), pairs_of(fixed@)),
{
    let mut out = StringMap::new();
    match given {
        Some(map) => {
            if bound.is_some() {
                out.extend(map);
                assert(out@ =~= map@);
            }
        },
        None => {},
    }
    out.extend_pairs(fixed);
    out
}

impl Operation {
    /// The request of one call of this operation.
    pub fn request<T>(&self, arguments: Arguments<T>) -> (r: Request<Body<T>>)
        ensures
            requested(*self, arguments, r),
    {
        let path = substitute(self.uri.as_str(), &arguments.parameters);
        let url = Url::parse(path.as_str());
        let headers = assemble(&self.headers_from, &arguments.headers, &self.headers);
        let queries = assemble(&self.queries_from, &arguments.queries, &self.queries);
        let body = match &self.body {
            BodySource::Parameter(_) => match arguments.body {
                Some(value) => Some(Body::Value(value)),
                None => None,
            },
            BodySource::Literal(text) => Some(Body::Literal(text.clone())),
            BodySource::Absent => None,
        };
        Request {
            method: self.method.clone(),
            url,
            headers,
            queries,
            body,
            expect_body: self.expect_body,
        }
    }

    /// Calls this operation through `client`.
    ///
    /// The outcome is what the transport of the client answered to the request
    /// of the call, held to what the operation declares: a success holds a
    /// value exactly where the operation declares a return type.
    pub fn call<T, RES, C: Transport<Body<T>, RES>>(
        &self,
        client: &Client<C>,
        arguments: Arguments<T>,
    ) -> (r: Result<Option<RES>, ClientError<C::Error>>)
        ensures
            exists|request: Request<Body<T>>|
                requested(*self, arguments, request) && #[trigger] client.answers(request, r),
            r matches Ok(value) ==> (value is Some) == self.expect_body,
    {
        let request = self.request(arguments);
        let r = client.call(request);
        assert(client.answers(request, r));
        r
    }
}

/// A header or query parameter that the declaration fixes wins over one that
/// the call brings under the same key: the request holds, under the key of a
/// fixed pair, the value of the last fixed pair of that key.
pub proof fn lemma_declaration_wins(
    given: Map<Seq<char>, Seq<char>>,
    fixed: Seq<Pair>,
    at: int,
)
    requires
        0 <= at < fixed.len(),
        forall|j: int| at < j < fixed.len() ==> (#[trigger] fixed[j]).0 != fixed[at].0,
    ensures
        overlaid(given, fixed).contains_key(fixed[at].0),
        overlaid(given, fixed)[fixed[at].0] == fixed[at].1,
{
    lemma_overlaid_value(given, fixed, at);
}

/// What the call brings stays under every key that the declaration does not
/// fix.
pub proof fn lemma_call_fills_the_rest(
    given: Map<Seq<char>, Seq<char>>,
    fixed: Seq<Pair>,
    key: Seq<char>,
)
    requires
        !has_key(fixed, key),
    ensures
        overlaid(given, fixed).contains_key(key) == given.contains_key(key),
        given.contains_key(key) ==> overlaid(given, fixed)[key] == given[key],
{
    lemma_overlaid_keeps(given, fixed, key);
}

} // verus!
