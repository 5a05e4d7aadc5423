//! The HTTP transport, as the decisions it takes around the wire.
//!
//! A call runs in steps. `Reqwest::begin` turns a request into the first step;
//! the caller does what the step asks (encode a body, send, decode a text) and
//! reports what happened as an event; `advance` answers with the next step,
//! until a step is `Done`.
use crate::client::{settled, ClientError};
use crate::method::{name_of, supported, Method};
use crate::string_map::pairs_of;
use crate::text::{decimal, to_decimal};
use crate::url::{render, resolution, Url, UrlError};
use crate::{Request, Restcrab};
use vstd::prelude::*;

verus! {

/// What a transport is configured with.
#[derive(Debug, PartialEq, Eq)]
pub struct Options {
    /// The URL that the URL of each call is merged with.
    pub base_url: Url,
}

impl Clone for Options {
    fn clone(&self) -> (r: Self)
        ensures
            r == *self,
    {
        Options { base_url: self.base_url.clone() }
    }
}

/// A response as it came from the wire.
#[derive(Debug, PartialEq, Eq)]
pub struct RawResponse {
    pub status: u16,
    pub headers: Vec<(String, String)>,
    /// The body as text, or why it could not be read as text.
    pub text: Result<String, String>,
}

/// Why a call failed.
#[derive(Debug, PartialEq, Eq)]
pub enum Error {
    /// The merged URL has only one of scheme and authority.
    ParsingUrl,
    /// The body could not be encoded.
    SerializingBody { cause: String },
    /// The text of the response could not be decoded.
    DeserializingBody { cause: String },
    /// The request could not be sent.
    SendingRequest { cause: String },
    /// The status of the response is outside 200 to 299.
    UnsuccessfulResponseCode { response: RawResponse },
    /// The body of the response could not be read as text.
    DecodingResponseBody { cause: String },
    /// The verb is none of the nine that a transport serves.
    InvalidMethod { method: Method },
    /// The merged path and query are not well formed.
    ConstructingUrl,
}

impl Error {
    /// The text that describes this error.
    pub open spec fn description(self) -> Seq<char> {
        match self {
            Error::ParsingUrl => "Error parsing url"@,
            Error::SerializingBody { cause } => "Error serializing body: "@ + cause@,
            Error::DeserializingBody { cause } => "Error deserializing body: "@ + cause@,
            Error::SendingRequest { cause } => "Error sending request: "@ + cause@,
            Error::UnsuccessfulResponseCode { response } => "Unsuccessful response code: "@
                + decimal(response.status as nat),
            Error::DecodingResponseBody { cause } => "Error converting response body to text: "@
                + cause@,
            Error::InvalidMethod { method } => "Invalid method: "@ + name_of(method@),
            Error::ConstructingUrl => "Error constructing url"@,
        }
    }

    /// Writes out what failed, and the cause where one was given.
    pub fn to_string(&self) -> (r: String)
        ensures
            r@ == self.description(),
    {
        match self {
            Error::ParsingUrl => "Error parsing url".to_owned(),
            Error::SerializingBody { cause } => "Error serializing body: ".to_owned().concat(
                cause.as_str(),
            ),
            Error::DeserializingBody { cause } => "Error deserializing body: ".to_owned().concat(
                cause.as_str(),
            ),
            Error::SendingRequest { cause } => "Error sending request: ".to_owned().concat(
                cause.as_str(),
            ),
            Error::UnsuccessfulResponseCode { response } => {
                "Unsuccessful response code: ".to_owned().concat(
                    to_decimal(response.status).as_str(),
                )
            },
            Error::DecodingResponseBody { cause } => {
                "Error converting response body to text: ".to_owned().concat(cause.as_str())
            },
            Error::InvalidMethod { method } => "Invalid method: ".to_owned().concat(
                method.as_str().as_str(),
            ),
            Error::ConstructingUrl => "Error constructing url".to_owned(),
        }
    }
}

/// A request ready for the wire.
#[derive(Debug, PartialEq, Eq)]
pub struct Dispatch {
    pub method: Method,
    /// The text of the merged URL.
    pub url: String,
    pub headers: Vec<(String, String)>,
    pub queries: Vec<(String, String)>,
    /// The encoded body.
    pub body: Option<String>,
}

/// What the caller is to do next.
#[derive(Debug, PartialEq, Eq)]
pub enum Step<REQ, RES> {
    /// Encode `body`, and report `Encoded` or `EncodeFailed`.
    Encode { body: REQ },
    /// Send `dispatch`, and report `Responded` or `SendFailed`.
    Send { dispatch: Dispatch },
    /// Decode `text`, and report `Decoded` or `DecodeFailed`.
    Decode { text: String },
    /// The call is over.
    Done { outcome: Result<Option<RES>, Error> },
}

/// What happened when the caller did what a step asked.
#[derive(Debug, PartialEq, Eq)]
pub enum Event<RES> {
    Encoded { text: String },
    EncodeFailed { cause: String },
    Responded { response: RawResponse },
    SendFailed { cause: String },
    Decoded { value: RES },
    DecodeFailed { cause: String },
}

/// Where a call stands.
#[derive(Debug, PartialEq, Eq)]
pub enum Phase {
    /// The body is being encoded; `dispatch` waits for it.
    Encoding { dispatch: Dispatch },
    /// The request is on the wire.
    Sending,
    /// The text of the response is being decoded.
    Decoding,
    /// The call is over.
    Finished,
}

/// Whether a status tells success: 200 to 299.
pub open spec fn is_success(status: u16) -> bool {
    200 <= status < 300
}

impl Phase {
    /// Whether `event` can be reported in this phase.
    pub open spec fn awaits<RES>(self, event: Event<RES>) -> bool {
        match self {
            Phase::Encoding { .. } => event is Encoded || event is EncodeFailed,
            Phase::Sending => event is Responded || event is SendFailed,
            Phase::Decoding => event is Decoded || event is DecodeFailed,
            Phase::Finished => false,
        }
    }

    /// Tells whether `event` can be reported in this phase.
    pub fn expects<RES>(&self, event: &Event<RES>) -> (r: bool)
        ensures
            r == self.awaits(*event),
    {
        match self {
            Phase::Encoding { .. } => match event {
                Event::Encoded { .. } => true,
                Event::EncodeFailed { .. } => true,
                _ => false,
            },
            Phase::Sending => match event {
                Event::Responded { .. } => true,
                Event::SendFailed { .. } => true,
                _ => false,
            },
            Phase::Decoding => match event {
                Event::Decoded { .. } => true,
                Event::DecodeFailed { .. } => true,
                _ => false,
            },
            Phase::Finished => false,
        }
    }
}

/// The end of a call with the error `error`.
pub open spec fn failed<REQ, RES>(error: Error) -> (Phase, Step<REQ, RES>) {
    (Phase::Finished, Step::Done { outcome: Err(error) })
}

/// What follows a response: a status outside 200 to 299 fails with the
/// response kept, a body that is no text fails, an empty text is no body, and
/// any other text is to be decoded.
pub open spec fn received<REQ, RES>(response: RawResponse) -> (Phase, Step<REQ, RES>) {
    if !is_success(response.status) {
        failed(Error::UnsuccessfulResponseCode { response })
    } else {
        match response.text {
            Err(cause) => failed(Error::DecodingResponseBody { cause }),
            Ok(text) => if text@.len() == 0 {
                (Phase::Finished, Step::Done { outcome: Ok(None) })
            } else {
                (Phase::Decoding, Step::Decode { text })
            },
        }
    }
}

/// The phase and the step that follow `event` in `phase`, where the phase
/// awaits the event.
pub open spec fn advanced<REQ, RES>(phase: Phase, event: Event<RES>) -> (Phase, Step<REQ, RES>)
    recommends
        phase.awaits(event),
{
    match phase {
        Phase::Encoding { dispatch } => match event {
            Event::Encoded { text } => (
                Phase::Sending,
                Step::Send {
                    dispatch: Dispatch {
                        method: dispatch.method,
                        url: dispatch.url,
                        headers: dispatch.headers,
                        queries: dispatch.queries,
                        body: Some(text),
                    },
                },
            ),
            Event::EncodeFailed { cause } => failed(Error::SerializingBody { cause }),
            _ => arbitrary(),
        },
        Phase::Sending => match event {
            Event::Responded { response } => received(response),
            Event::SendFailed { cause } => failed(Error::SendingRequest { cause }),
            _ => arbitrary(),
        },
        Phase::Decoding => match event {
            Event::Decoded { value } => (Phase::Finished, Step::Done { outcome: Ok(Some(value)) }),
            Event::DecodeFailed { cause } => failed(Error::DeserializingBody { cause }),
            _ => arbitrary(),
        },
        Phase::Finished => arbitrary(),
    }
}

/// Takes a call from `phase` to the next phase, on the report `event`.
pub fn advance<REQ, RES>(phase: Phase, event: Event<RES>) -> (r: (Phase, Step<REQ, RES>))
    requires
        phase.awaits(event),
    ensures
        r == advanced::<REQ, RES>(phase, event),
{
    match event {
        Event::Encoded { text } => match phase {
            Phase::Encoding { dispatch } => (
                Phase::Sending,
                Step::Send {
                    dispatch: Dispatch {
                        method: dispatch.method,
                        url: dispatch.url,
                        headers: dispatch.headers,
                        queries: dispatch.queries,
                        body: Some(text),
                    },
                },
            ),
            _ => unreached(),
        },
        Event::EncodeFailed { cause } => (
            Phase::Finished,
            Step::Done { outcome: Err(Error::SerializingBody { cause }) },
        ),
        Event::Responded { response } => receive(response),
        Event::SendFailed { cause } => (
            Phase::Finished,
            Step::Done { outcome: Err(Error::SendingRequest { cause }) },
        ),
        Event::Decoded { value } => (Phase::Finished, Step::Done { outcome: Ok(Some(value)) }),
        Event::DecodeFailed { cause } => (
            Phase::Finished,
            Step::Done { outcome: Err(Error::DeserializingBody { cause }) },
        ),
    }
}

/// Decides what follows the response `response`.
pub fn receive<REQ, RES>(response: RawResponse) -> (r: (Phase, Step<REQ, RES>))
    ensures
        r == received::<REQ, RES>(response),
{
    if response.status < 200 || response.status >= 300 {
        (Phase::Finished, Step::Done { outcome: Err(Error::UnsuccessfulResponseCode { response }) })
    } else {
        match response.text {
            Err(cause) => (
                Phase::Finished,
                Step::Done { outcome: Err(Error::DecodingResponseBody { cause }) },
            ),
            Ok(text) => {
                if text.as_str().unicode_len() == 0 {
                    (Phase::Finished, Step::Done { outcome: Ok(None) })
                } else {
                    (Phase::Decoding, Step::Decode { text })
                }
            },
        }
    }
}

/// The HTTP transport without its wire: it holds the options and takes the
/// decisions of a call.
#[derive(Debug)]
pub struct Reqwest {
    options: Options,
}

impl Restcrab for Reqwest {
    type Error = Error;

    type Options = Options;

    closed spec fn settings(&self) -> Options {
        self.options
    }

    open spec fn made(options: Options, outcome: Result<Reqwest, Error>) -> bool {
        outcome matches Ok(crab) && crab.settings() == options
    }

    /// The transport under `options`. It never fails.
    fn from_options(options: Options) -> (r: Result<Reqwest, Error>)
        ensures
            r is Ok,
    {
        Ok(Reqwest { options })
    }

    fn options(&self) -> (r: &Options) {
        &self.options
    }

    fn options_mut(&mut self) -> (r: &mut Options) {
        &mut self.options
    }
}

/// What a call of `request` under the base URL `base` begins with.
///
/// The URL is merged first and the verb is looked at second, so of a request
/// that fails on both counts the error is that of the URL.
pub open spec fn begins<REQ, RES>(
    base: Url,
    request: Request<REQ>,
    r: (Phase, Step<REQ, RES>),
) -> bool {
    match resolution(base@, request.url@) {
        Err(UrlError::InvalidPathAndQuery) => r == failed::<REQ, RES>(Error::ConstructingUrl),
        Err(UrlError::InvalidParts) => r == failed::<REQ, RES>(Error::ParsingUrl),
        Ok(target) => if !supported(request.method@) {
            r == failed::<REQ, RES>(Error::InvalidMethod { method: request.method })
        } else {
            match request.body {
                Some(body) => {
                    &&& r.0 matches Phase::Encoding { dispatch } && carries(
                        dispatch,
                        request,
                        render(target),
                    )
                    &&& r.1 == Step::<REQ, RES>::Encode { body }
                },
                None => {
                    &&& r.0 == Phase::Sending
                    &&& r.1 matches Step::Send { dispatch } && carries(
                        dispatch,
                        request,
                        render(target),
                    )
                },
            }
        },
    }
}

/// Whether `dispatch` is `request` made ready for the URL `url`, its body
/// still to come.
pub open spec fn carries<REQ>(dispatch: Dispatch, request: Request<REQ>, url: Seq<char>) -> bool {
    &&& dispatch.method == request.method
    &&& dispatch.url@ == url
    &&& pairs_of(dispatch.headers@) == request.headers.listing()
    &&& pairs_of(dispatch.queries@) == request.queries.listing()
    &&& dispatch.body is None
}

impl Reqwest {
    /// Begins a call of `request`: merges its URL with the base URL, refuses a
    /// verb outside the nine, and asks for the body to be encoded or, where
    /// there is none, for the request to be sent.
    pub fn begin<REQ, RES>(&self, request: Request<REQ>) -> (r: (Phase, Step<REQ, RES>))
        ensures
            begins(self.settings().base_url, request, r),
    {
        let target = match Url::resolve(&self.options.base_url, &request.url) {
            Err(UrlError::InvalidPathAndQuery) => {
                return (Phase::Finished, Step::Done { outcome: Err(Error::ConstructingUrl) });
            },
            Err(UrlError::InvalidParts) => {
                return (Phase::Finished, Step::Done { outcome: Err(Error::ParsingUrl) });
            },
            Ok(target) => target,
        };
        if !request.method.is_supported() {
            return (
                Phase::Finished,
                Step::Done { outcome: Err(Error::InvalidMethod { method: request.method }) },
            );
        }
        let dispatch = Dispatch {
            method: request.method,
            url: target.to_string(),
            headers: request.headers.entries(),
            queries: request.queries.entries(),
            body: None,
        };
        assert(carries(dispatch, request, render(target@)));
        match request.body {
            Some(body) => (Phase::Encoding { dispatch }, Step::Encode { body }),
            None => (Phase::Sending, Step::Send { dispatch }),
        }
    }
}

/// A transport and a client under an operation that declares a return type: a
/// successful response with text is decoded, and the decoded value is what the
/// client returns; one without text makes the client fail with `EmptyBody`.
pub proof fn lemma_declared_return<REQ, RES>(response: RawResponse, value: RES)
    requires
        is_success(response.status),
        response.text is Ok,
    ensures
        response.text->Ok_0@.len() > 0 ==> {
            &&& received::<REQ, RES>(response) == (
                Phase::Decoding,
                Step::<REQ, RES>::Decode { text: response.text->Ok_0 },
            )
            &&& advanced::<REQ, RES>(Phase::Decoding, Event::Decoded { value }).1 == (Step::<
                REQ,
                RES,
            >::Done { outcome: Ok(Some(value)) })
            &&& settled::<RES, Error>(true, Ok(Some(value))) == Ok::<
                Option<RES>,
                ClientError<Error>,
            >(Some(value))
        },
        response.text->Ok_0@.len() == 0 ==> {
            &&& received::<REQ, RES>(response).1 == (Step::<REQ, RES>::Done { outcome: Ok(None) })
            &&& settled::<RES, Error>(true, Ok(None)) == Err::<Option<RES>, ClientError<Error>>(
                ClientError::Restcrab(crate::Error::EmptyBody),
            )
        },
{
}

/// A transport and a client under an operation that declares no return type: a
/// successful response without text is a success without a value, and one with
/// text makes the client fail with `NoEmptyBody`, whatever the text decodes
/// to.
pub proof fn lemma_no_declared_return<REQ, RES>(response: RawResponse, value: RES)
    requires
        is_success(response.status),
        response.text is Ok,
    ensures
        response.text->Ok_0@.len() == 0 ==> {
            &&& received::<REQ, RES>(response).1 == (Step::<REQ, RES>::Done { outcome: Ok(None) })
            &&& settled::<RES, Error>(false, Ok(None)) == Ok::<Option<RES>, ClientError<Error>>(
                None,
            )
        },
        response.text->Ok_0@.len() > 0 ==> {
            &&& received::<REQ, RES>(response) == (
                Phase::Decoding,
                Step::<REQ, RES>::Decode { text: response.text->Ok_0 },
            )
            &&& advanced::<REQ, RES>(Phase::Decoding, Event::Decoded { value }).1 == (Step::<
                REQ,
                RES,
            >::Done { outcome: Ok(Some(value)) })
            &&& settled::<RES, Error>(false, Ok(Some(value))) == Err::<
                Option<RES>,
                ClientError<Error>,
            >(ClientError::Restcrab(crate::Error::NoEmptyBody))
        },
{
}

/// A response whose status is outside 200 to 299 ends the call with the
/// response kept in the error, whatever its text is.
pub proof fn lemma_unsuccessful_response<REQ, RES>(response: RawResponse)
    requires
        !is_success(response.status),
    ensures
        received::<REQ, RES>(response) == failed::<REQ, RES>(
            Error::UnsuccessfulResponseCode { response },
        ),
{
}

} // verus!
