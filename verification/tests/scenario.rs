use restcrab::client::{Client, ClientError};
use restcrab::crabs::reqwest::{advance, Dispatch, Error, Event, Options, RawResponse, Reqwest, Step};
use restcrab::expansion::on_sig::{on_sig, DefinitionError, Description, Parameter, Role};
use restcrab::expansion::on_trait::{Rejected, TraitDescription};
use restcrab::expansion::{Args, AttributesArgs, Meta};
use restcrab::method::Method;
use restcrab::operation::{Arguments, Body, Operation};
use restcrab::string_map::StringMap;
use restcrab::url::Url;
use restcrab::{Request, Restcrab, Transport};

/// A transport that runs the steps of the HTTP transport against a server that
/// is a function.
struct Wire {
    core: Reqwest,
    server: fn(&Dispatch) -> RawResponse,
}

impl Restcrab for Wire {
    type Error = Error;
    type Options = Options;

    fn settings(&self) -> Options {
        self.core.options().clone()
    }

    fn made(_options: Options, outcome: Result<Self, Error>) -> bool {
        outcome.is_ok()
    }

    fn from_options(options: Options) -> Result<Self, Error> {
        Ok(Wire { core: Reqwest::from_options(options)?, server: mock_server })
    }

    fn options(&self) -> &Options {
        self.core.options()
    }

    fn options_mut(&mut self) -> &mut Options {
        self.core.options_mut()
    }
}

impl<T: serde::Serialize, RES: serde::de::DeserializeOwned> Transport<Body<T>, RES> for Wire {
    fn answers(&self, _request: Request<Body<T>>, _outcome: Result<Option<RES>, Error>) -> bool {
        true
    }

    fn call(&self, request: Request<Body<T>>) -> Result<Option<RES>, Error> {
        let (mut phase, mut step) = self.core.begin(request);
        loop {
            let event = match step {
                Step::Encode { body } => {
                    let encoded = match body {
                        Body::Literal(text) => serde_json::to_string(&text),
                        Body::Value(value) => serde_json::to_string(&value),
                    };
                    match encoded {
                        Ok(text) => Event::Encoded { text },
                        Err(e) => Event::EncodeFailed { cause: e.to_string() },
                    }
                }
                Step::Send { dispatch } => Event::Responded { response: (self.server)(&dispatch) },
                Step::Decode { text } => match serde_json::from_str::<RES>(&text) {
                    Ok(value) => Event::Decoded { value },
                    Err(e) => Event::DecodeFailed { cause: e.to_string() },
                },
                Step::Done { outcome } => return outcome,
            };
            assert!(phase.expects(&event));
            (phase, step) = advance(phase, event);
        }
    }
}

fn pair(key: &str, value: &str) -> (String, String) {
    (key.to_string(), value.to_string())
}

fn has(pairs: &[(String, String)], key: &str, value: &str) -> bool {
    pairs.contains(&pair(key, value))
}

fn answer(status: u16, text: &str) -> RawResponse {
    RawResponse { status, headers: vec![], text: Ok(text.to_string()) }
}

/// The routes of the mock server.
fn mock_server(dispatch: &Dispatch) -> RawResponse {
    let url = Url::parse(&dispatch.url);
    let json = has(&dispatch.headers, "Content-Type", "application/json");
    let body = dispatch.body.clone().unwrap_or_default();
    match (&dispatch.method, url.path.as_str()) {
        (Method::Post, "/echo") | (Method::Post, "/api/echo") if json => answer(200, &body),
        (Method::Post, "/test")
            if json && has(&dispatch.headers, "test", "header") && body == "\"test\"" =>
        {
            answer(200, "\"testbody\"")
        }
        (Method::Get, "/get") if json && has(&dispatch.headers, "test", "header") => {
            answer(200, "")
        }
        (Method::Put, "/put")
            if has(&dispatch.queries, "test", "value")
                && has(&dispatch.queries, "test2", "value2") =>
        {
            answer(200, "")
        }
        (Method::Delete, "/delete")
            if has(&dispatch.queries, "test", "value")
                && has(&dispatch.queries, "test3", "value3")
                && has(&dispatch.queries, "test4", "value4") =>
        {
            answer(200, "")
        }
        (Method::Get, "/parameter") | (Method::Get, "/42") => answer(200, ""),
        (Method::Get, "/chatty") => answer(200, "\"unasked\""),
        _ => answer(404, ""),
    }
}

fn parameter(name: &str, ty: &str, role: Role) -> Parameter {
    Parameter { name: name.to_string(), ty: ty.to_string(), role }
}

fn declare(
    name: &str,
    method: &str,
    uri: Option<&str>,
    headers: Vec<(String, String)>,
    queries: Vec<(String, String)>,
    body: Option<&str>,
    parameters: Vec<Parameter>,
    output: Option<&str>,
) -> Description {
    Description {
        name: name.to_string(),
        method: Some(method.to_string()),
        uri: uri.map(|u| u.to_string()),
        headers,
        queries,
        body: body.map(|b| b.to_string()),
        parameters,
        output: output.map(|o| o.to_string()),
    }
}

fn json() -> Vec<(String, String)> {
    vec![pair("Content-Type", "application/json")]
}

fn map_type() -> &'static str {
    "HashMap<String, String>"
}

fn crab_operations() -> Vec<Description> {
    vec![
        declare(
            "echo",
            "POST",
            Some("/echo"),
            json(),
            vec![],
            None,
            vec![parameter("body", "String", Role::Body)],
            Some("String"),
        ),
        declare(
            "test",
            "POST",
            Some("/test"),
            json(),
            vec![],
            Some("test"),
            vec![parameter("headers", map_type(), Role::Headers)],
            Some("String"),
        ),
        declare(
            "get",
            "GET",
            None,
            json(),
            vec![],
            None,
            vec![parameter("headers", map_type(), Role::Headers)],
            None,
        ),
        declare(
            "static_query",
            "PUT",
            Some("/put"),
            vec![],
            vec![pair("test", "value"), pair("test2", "value2")],
            None,
            vec![],
            None,
        ),
        declare(
            "dynamic_query",
            "DELETE",
            Some("/delete"),
            vec![],
            vec![pair("test", "value")],
            None,
            vec![parameter("headers", map_type(), Role::Queries)],
            None,
        ),
        declare(
            "path_parameters",
            "GET",
            Some("/{test}"),
            vec![],
            vec![],
            None,
            vec![parameter("test", "&str", Role::Parameter)],
            None,
        ),
    ]
}

fn no_arguments<T>() -> Arguments<T> {
    Arguments { headers: None, queries: None, body: None, parameters: vec![] }
}

fn test_header() -> StringMap {
    let mut headers = StringMap::new();
    headers.insert("test".to_string(), "header".to_string());
    headers
}

fn client_at(base: &str) -> Client<Wire> {
    Client::from_options(Options { base_url: Url::parse(base) }).unwrap()
}

fn take(operations: &mut Vec<Operation>, name: &str) -> Operation {
    let at = operations.iter().position(|o| o.name == name).unwrap();
    operations.remove(at)
}

#[test]
fn test_reqwest_crab() {
    let args = Args { on: None, crab: "Reqwest".to_string(), attributes: None };
    let input = TraitDescription { name: "Crab".to_string(), operations: crab_operations() };
    let interface = restcrab::expansion::on_trait(&args, &input);
    assert_eq!(interface.rejected, vec![]);
    let mut operations = interface.operations;
    let client = client_at("http://127.0.0.1:8080");

    let message = "a message of no importance".to_string();
    let echo = take(&mut operations, "echo");
    let response: Option<String> = echo
        .call(&client, Arguments { body: Some(message.clone()), ..no_arguments() })
        .unwrap();
    assert_eq!(Some(message), response);

    let test = take(&mut operations, "test");
    let response: Option<String> = test
        .call(&client, Arguments::<()> { headers: Some(test_header()), ..no_arguments() })
        .unwrap();
    assert_eq!(Some("testbody".to_string()), response);

    let get = take(&mut operations, "get");
    let response: Option<()> = get
        .call(&client, Arguments::<()> { headers: Some(test_header()), ..no_arguments() })
        .unwrap();
    assert_eq!(None, response);

    let static_query = take(&mut operations, "static_query");
    let response: Option<()> = static_query.call(&client, no_arguments::<()>()).unwrap();
    assert_eq!(None, response);

    let mut queries = StringMap::new();
    queries.insert("test".to_string(), "value".to_string());
    queries.insert("test3".to_string(), "value3".to_string());
    queries.insert("test4".to_string(), "value4".to_string());
    let dynamic_query = take(&mut operations, "dynamic_query");
    let response: Option<()> = dynamic_query
        .call(&client, Arguments::<()> { queries: Some(queries), ..no_arguments() })
        .unwrap();
    assert_eq!(None, response);

    let path_parameters = take(&mut operations, "path_parameters");
    let response: Option<()> = path_parameters
        .call(
            &client,
            Arguments::<()> { parameters: vec![pair("test", "parameter")], ..no_arguments() },
        )
        .unwrap();
    assert_eq!(None, response);
}

#[test]
fn test_error_messages() {
    let wrong = vec![
        declare(
            "echo",
            "POST",
            Some("/echo"),
            json(),
            vec![],
            None,
            vec![parameter("body", "String", Role::Body)],
            None,
        ),
        declare(
            "get",
            "GET",
            Some("/get"),
            json(),
            vec![],
            None,
            vec![parameter("headers", map_type(), Role::Headers)],
            Some("String"),
        ),
    ];
    let args = Args { on: None, crab: "Reqwest".to_string(), attributes: None };
    let input = TraitDescription { name: "WrongCrab".to_string(), operations: wrong };
    let interface = restcrab::expansion::on_trait(&args, &input);
    assert_eq!(interface.struct_name, "WrongCrabClient");
    let mut operations = interface.operations;
    let client = client_at("http://127.0.0.1:8080");

    let echo = take(&mut operations, "echo");
    let response: Result<Option<String>, ClientError<Error>> = echo.call(
        &client,
        Arguments { body: Some("a message".to_string()), ..no_arguments() },
    );
    match response.err().unwrap() {
        ClientError::Restcrab(e) => {
            println!("{}", e.to_string());
            assert_eq!(e.to_string(), "Expected empty response body");
        }
        other => panic!("{:?}", other),
    }

    let get = take(&mut operations, "get");
    let response: Result<Option<String>, ClientError<Error>> =
        get.call(&client, Arguments::<()> { headers: Some(test_header()), ..no_arguments() });
    match response.err().unwrap() {
        ClientError::Restcrab(e) => {
            println!("{}", e.to_string());
            assert_eq!(e.to_string(), "Empty response body");
        }
        other => panic!("{:?}", other),
    }
}

#[test]
fn static_header_overrides_dynamic_header() {
    let declared = declare(
        "x",
        "GET",
        Some("/x"),
        vec![pair("A", "2")],
        vec![pair("Q", "fixed")],
        None,
        vec![
            parameter("headers", map_type(), Role::Headers),
            parameter("queries", map_type(), Role::Queries),
        ],
        None,
    );
    let operation = on_sig(&declared).unwrap();
    let mut headers = StringMap::new();
    headers.insert("A".to_string(), "1".to_string());
    headers.insert("B".to_string(), "1".to_string());
    let mut queries = StringMap::new();
    queries.insert("Q".to_string(), "given".to_string());
    let request = operation.request(Arguments::<()> {
        headers: Some(headers),
        queries: Some(queries),
        ..no_arguments()
    });
    assert_eq!(request.headers.entries(), vec![pair("A", "2"), pair("B", "1")]);
    assert_eq!(request.queries.entries(), vec![pair("Q", "fixed")]);
}

#[test]
fn headers_without_a_parameter_for_them_are_not_sent() {
    let operation = on_sig(&declare(
        "x",
        "GET",
        None,
        vec![pair("A", "2"), pair("A", "3")],
        vec![],
        None,
        vec![],
        None,
    ))
    .unwrap();
    let request = operation.request(Arguments::<()> {
        headers: Some(test_header()),
        queries: Some(test_header()),
        ..no_arguments()
    });
    assert_eq!(request.headers.entries(), vec![pair("A", "3")]);
    assert_eq!(request.queries.entries(), vec![]);
    assert_eq!(request.url, Url::parse("/x"));
    assert_eq!(request.method, Method::Get);
    assert!(!request.expect_body);
    assert_eq!(request.body, None);
}

#[test]
fn relative_uri_is_sent_below_the_base() {
    fn echo_server(dispatch: &Dispatch) -> RawResponse {
        assert_eq!(dispatch.url, "http://host/api/echo");
        assert_eq!(dispatch.method, Method::Post);
        assert_eq!(dispatch.body, Some("\"hello\"".to_string()));
        assert_eq!(dispatch.headers, vec![pair("Content-Type", "application/json")]);
        answer(200, dispatch.body.as_ref().unwrap())
    }
    let operation = on_sig(&declare(
        "echo",
        "POST",
        Some("echo"),
        json(),
        vec![],
        None,
        vec![parameter("body", "String", Role::Body)],
        Some("String"),
    ))
    .unwrap();
    let mut client = client_at("http://host/api/");
    client = Client::from_crab(Wire {
        core: Reqwest::from_options(client.options().clone()).unwrap(),
        server: echo_server,
    });
    let response: Option<String> = operation
        .call(&client, Arguments { body: Some("hello".to_string()), ..no_arguments() })
        .unwrap();
    assert_eq!(response, Some("hello".to_string()));
}

#[test]
fn operation_without_return_type_needs_an_empty_body() {
    let quiet = on_sig(&declare("get", "GET", Some("/42"), vec![], vec![], None, vec![], None))
        .unwrap();
    let client = client_at("http://host/");
    let response: Result<Option<u8>, ClientError<Error>> =
        quiet.call(&client, no_arguments::<()>());
    assert_eq!(response, Ok(None));

    let chatty =
        on_sig(&declare("chatty", "GET", None, vec![], vec![], None, vec![], None)).unwrap();
    let response: Result<Option<String>, ClientError<Error>> =
        chatty.call(&client, no_arguments::<()>());
    assert_eq!(response, Err(ClientError::Restcrab(restcrab::Error::NoEmptyBody)));
}

#[test]
fn path_parameter_fills_its_placeholder() {
    fn id_server(dispatch: &Dispatch) -> RawResponse {
        assert_eq!(Url::parse(&dispatch.url).path, "/42");
        answer(200, "")
    }
    let operation = on_sig(&declare(
        "item",
        "GET",
        Some("/{id}"),
        vec![],
        vec![],
        None,
        vec![parameter("id", "&str", Role::Parameter)],
        None,
    ))
    .unwrap();
    let request =
        operation.request(Arguments::<()> { parameters: vec![pair("id", "42")], ..no_arguments() });
    assert_eq!(request.url, Url::parse("/42"));
    let client = Client::from_crab(Wire {
        core: Reqwest::from_options(Options { base_url: Url::parse("http://host") }).unwrap(),
        server: id_server,
    });
    let response: Option<()> = operation
        .call(&client, Arguments::<()> { parameters: vec![pair("id", "42")], ..no_arguments() })
        .unwrap();
    assert_eq!(response, None);
}

#[test]
fn unsuccessful_status_reaches_the_caller_with_the_response() {
    let missing =
        on_sig(&declare("nowhere", "GET", None, vec![], vec![], None, vec![], None)).unwrap();
    let client = client_at("http://host/");
    let response: Result<Option<()>, ClientError<Error>> =
        missing.call(&client, no_arguments::<()>());
    assert_eq!(
        response,
        Err(ClientError::Crab(Error::UnsuccessfulResponseCode { response: answer(404, "") }))
    );
}

#[test]
fn text_that_does_not_decode_is_an_error() {
    let operation = on_sig(&declare(
        "echo",
        "POST",
        None,
        json(),
        vec![],
        None,
        vec![parameter("body", "String", Role::Body)],
        Some("u32"),
    ))
    .unwrap();
    let client = client_at("http://host/");
    let response: Result<Option<u32>, ClientError<Error>> =
        operation.call(&client, Arguments { body: Some("text".to_string()), ..no_arguments() });
    assert!(matches!(response, Err(ClientError::Crab(Error::DeserializingBody { .. }))));
}

#[test]
fn on_trait_leaves_out_what_has_errors() {
    let mut operations = crab_operations();
    operations[1].method = Some("FETCH".to_string());
    operations[4].parameters.push(parameter("more", map_type(), Role::Queries));
    let args = Args {
        on: Some("Api".to_string()),
        crab: "Reqwest".to_string(),
        attributes: Some(AttributesArgs {
            crab: vec![
                Meta::List("crab".to_string(), vec!["cfg(test)".to_string()]),
                Meta::Path("crab".to_string()),
                Meta::List("crab".to_string(), vec!["a".to_string(), "b".to_string()]),
                Meta::List("crab".to_string(), vec![]),
                Meta::List("crab".to_string(), vec!["allow(unused)".to_string()]),
            ],
            client: vec![
                Meta::NameValue("client".to_string(), "x".to_string()),
                Meta::List("client".to_string(), vec!["derive(Debug)".to_string()]),
            ],
        }),
    };
    let input = TraitDescription { name: "Crab".to_string(), operations };
    let interface = restcrab::expansion::on_trait(&args, &input);
    assert_eq!(interface.trait_name, "CrabCrab");
    assert_eq!(interface.struct_name, "Api");
    assert_eq!(interface.trait_attributes, vec!["cfg(test)", "allow(unused)"]);
    assert_eq!(interface.struct_attributes, vec!["derive(Debug)"]);
    let names: Vec<&str> = interface.operations.iter().map(|o| o.name.as_str()).collect();
    assert_eq!(names, vec!["echo", "get", "static_query", "path_parameters"]);
    assert_eq!(
        interface.rejected,
        vec![
            Rejected { operation: 1, errors: vec![DefinitionError::InvalidMethod] },
            Rejected {
                operation: 4,
                errors: vec![DefinitionError::QueriesAlreadySet { parameter: 1 }]
            },
        ]
    );
}
