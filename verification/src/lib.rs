//! Declarative REST clients: an operation is described once, compiled into a
//! plan, and each call of it becomes a request that a pluggable transport
//! carries out.
use vstd::prelude::*;

pub mod client;
pub mod crabs;
pub mod expansion;
pub mod method;
pub mod operation;
pub mod string_map;
pub mod template;
pub mod text;
pub mod url;

use crate::method::Method;
use crate::string_map::StringMap;
use crate::url::Url;

verus! {

/// A response whose body is not what the operation declared.
#[derive(Clone, Copy, Debug, PartialEq, Eq, Structural)]
pub enum Error {
    /// The operation declares a return type and the response has no body.
    EmptyBody,
    /// The operation declares no return type and the response has a body.
    NoEmptyBody,
}

impl Error {
    /// The text that describes this error.
    pub open spec fn description(self) -> Seq<char> {
        match self {
            Error::EmptyBody => "Empty response body"@,
            Error::NoEmptyBody => "Expected empty response body"@,
        }
    }

    /// Writes out what is wrong with the body.
    pub fn to_string(&self) -> (r: String)
        ensures
            r@ == self.description(),
    {
        match self {
            Error::EmptyBody => "Empty response body".to_owned(),
            Error::NoEmptyBody => "Expected empty response body".to_owned(),
        }
    }
}

/// One request: built for one call, handed to one transport.
#[derive(Debug)]
pub struct Request<T> {
    pub method: Method,
    /// The URL of the call, not yet merged with the base URL of the client.
    pub url: Url,
    pub headers: StringMap,
    pub queries: StringMap,
    pub body: Option<T>,
    /// Whether the operation declares a return type, and so expects a body.
    pub expect_body: bool,
}

/// What every transport offers besides the call itself: it is made from its
/// options and keeps them, open to reading and to change.
///
/// `settings` and `made` are specification items. An implementation outside
/// verified code still has to give each a body, which is never run.
pub trait Restcrab: Sized {
    type Error;

    type Options;

    /// The options that the transport works under.
    spec fn settings(&self) -> Self::Options;

    /// Whether `outcome` is what making a transport from `options` can come
    /// to: the transport, or the error of a construction that failed.
    spec fn made(options: Self::Options, outcome: Result<Self, Self::Error>) -> bool;

    /// Makes a transport that works under `options`.
    fn from_options(options: Self::Options) -> (r: Result<Self, Self::Error>)
        ensures
            Self::made(options, r),
            r matches Ok(crab) ==> crab.settings() == options,
    ;

    /// The options, to read.
    fn options(&self) -> (r: &Self::Options)
        ensures
            *r == self.settings(),
    ;

    /// The options, to change; later calls go by what they then hold.
    fn options_mut(&mut self) -> (r: &mut Self::Options)
        ensures
            *r == old(self).settings(),
            final(self).settings() == *final(r),
    ;
}

/// A transport for requests with a body of type `REQ` and responses that
/// decode to `RES`.
///
/// `answers` is a specification item. An implementation outside verified code
/// still has to give it a body, which is never run.
pub trait Transport<REQ, RES>: Restcrab {
    /// Whether `outcome` is an answer of this transport to `request`.
    spec fn answers(&self, request: Request<REQ>, outcome: Result<Option<RES>, Self::Error>) -> bool;

    /// Issues `request` once. Returns the decoded body of the response, or
    /// nothing where the response has no body.
    fn call(&self, request: Request<REQ>) -> (r: Result<Option<RES>, Self::Error>)
        ensures
            self.answers(request, r),
    ;
}

} // verus!
