//! The client that wraps one transport and holds every response to what the
//! operation declared of its body.
use crate::{Error, Request, Restcrab, Transport};
use vstd::prelude::*;

verus! {

/// An error of a client: that of its transport, or a response whose body is not
/// what the operation declared.
#[derive(Debug, PartialEq, Eq)]
pub enum ClientError<E> {
    /// The transport failed; its error is kept as it is.
    Crab(E),
    /// The transport answered, and the body is not as declared.
    Restcrab(Error),
}

/// What a client makes of the outcome of its transport: an error stays an
/// error, a body must be there exactly where one is expected.
pub open spec fn settled<T, E>(expect_body: bool, outcome: Result<Option<T>, E>) -> Result<
    Option<T>,
    ClientError<E>,
> {
    match outcome {
        Err(e) => Err(ClientError::Crab(e)),
        Ok(None) => if expect_body {
            Err(ClientError::Restcrab(Error::EmptyBody))
        } else {
            Ok(None)
        },
        Ok(Some(value)) => if expect_body {
            Ok(Some(value))
        } else {
            Err(ClientError::Restcrab(Error::NoEmptyBody))
        },
    }
}

/// Holds the outcome of a transport to what the operation declared.
pub fn settle<T, E>(expect_body: bool, outcome: Result<Option<T>, E>) -> (r: Result<
    Option<T>,
    ClientError<E>,
>)
    ensures
        r == settled(expect_body, outcome),
{
    match outcome {
        Err(e) => Err(ClientError::Crab(e)),
        Ok(None) => {
            if expect_body {
                Err(ClientError::Restcrab(Error::EmptyBody))
            } else {
                Ok(None)
            }
        },
        Ok(Some(value)) => {
            if expect_body {
                Ok(Some(value))
            } else {
                Err(ClientError::Restcrab(Error::NoEmptyBody))
            }
        },
    }
}

/// Where a body is expected, a body that came is handed on and a missing one
/// is an error: no value is made up.
pub proof fn lemma_expected_body<T, E>(outcome: Option<T>)
    ensures
        outcome is Some ==> settled::<T, E>(true, Ok(outcome)) == Ok::<Option<T>, ClientError<E>>(
            outcome,
        ),
        outcome is None ==> settled::<T, E>(true, Ok(outcome)) == Err::<Option<T>, ClientError<E>>(
            ClientError::Restcrab(Error::EmptyBody),
        ),
{
}

/// Where no body is expected, any body that came is an error, whatever it
/// holds.
pub proof fn lemma_unexpected_body<T, E>(value: T)
    ensures
        settled::<T, E>(false, Ok(Some(value))) == Err::<Option<T>, ClientError<E>>(
            ClientError::Restcrab(Error::NoEmptyBody),
        ),
        settled::<T, E>(false, Ok(None)) == Ok::<Option<T>, ClientError<E>>(None),
{
}

/// A client never hands on a body that was not expected, nor nothing where one
/// was.
pub proof fn lemma_settled_matches_expectation<T, E>(
    expect_body: bool,
    outcome: Result<Option<T>, E>,
)
    ensures
        settled(expect_body, outcome) matches Ok(body) ==> (body is Some) == expect_body,
        settled(expect_body, outcome) matches Ok(body) ==> outcome == Ok::<Option<T>, E>(body),
        settled(expect_body, outcome) matches Err(ClientError::Crab(e)) ==> outcome == Err::<
            Option<T>,
            E,
        >(e),
{
}

/// A client over the transport `C`.
#[derive(Debug)]
pub struct Client<C> {
    crab: C,
}

/// What a client makes of the construction of its transport: a transport that
/// was made is wrapped, and a failure is handed on as it is.
pub open spec fn wrapped<C, E>(inner: Result<C, E>, outcome: Result<Client<C>, ClientError<E>>) -> bool {
    match inner {
        Ok(crab) => outcome matches Ok(client) && client.crab() == crab,
        Err(e) => outcome == Err::<Client<C>, ClientError<E>>(ClientError::Crab(e)),
    }
}

impl<C> Client<C> {
    /// The transport inside.
    pub closed spec fn crab(&self) -> C {
        self.crab
    }

    /// The client over the transport `from`.
    pub fn from_crab(from: C) -> (r: Self)
        ensures
            r.crab() == from,
    {
        Client { crab: from }
    }

    /// The client over the transport that `inner` holds, or the failure that
    /// it holds, unchanged.
    pub fn from_made<E>(inner: Result<C, E>) -> (r: Result<Self, ClientError<E>>)
        ensures
            wrapped(inner, r),
    {
        match inner {
            Ok(crab) => Ok(Client { crab }),
            Err(e) => Err(ClientError::Crab(e)),
        }
    }
}

impl<C: Restcrab> Restcrab for Client<C> {
    type Error = ClientError<C::Error>;

    type Options = C::Options;

    open spec fn settings(&self) -> C::Options {
        self.crab().settings()
    }

    open spec fn made(options: C::Options, outcome: Result<Self, ClientError<C::Error>>) -> bool {
        exists|inner: Result<C, C::Error>| #[trigger] C::made(options, inner) && wrapped(inner, outcome)
    }

    /// Makes the transport from `options` and wraps it. The client is made
    /// exactly where the transport is, over that transport; where the
    /// transport fails, its error is the client's, unchanged.
    fn from_options(options: C::Options) -> (r: Result<Self, ClientError<C::Error>>) {
        let inner = C::from_options(options);
        assert(C::made(options, inner));
        Client::from_made(inner)
    }

    fn options(&self) -> (r: &C::Options) {
        self.crab.options()
    }

    fn options_mut(&mut self) -> (r: &mut C::Options) {
        self.crab.options_mut()
    }
}

impl<REQ, RES, C: Transport<REQ, RES>> Transport<REQ, RES> for Client<C> {
    open spec fn answers(
        &self,
        request: Request<REQ>,
        outcome: Result<Option<RES>, ClientError<C::Error>>,
    ) -> bool {
        exists|inner: Result<Option<RES>, C::Error>| #[trigger]
            self.crab().answers(request, inner) && outcome == settled(request.expect_body, inner)
    }

    /// Hands `request` to the transport, and holds what comes back to what the
    /// request expects of the body.
    fn call(&self, request: Request<REQ>) -> (r: Result<Option<RES>, ClientError<C::Error>>) {
        let expect_body = request.expect_body;
        let inner = self.crab.call(request);
        assert(self.crab().answers(request, inner));
        settle(expect_body, inner)
    }
}

} // verus!
