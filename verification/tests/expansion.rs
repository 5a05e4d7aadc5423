use restcrab::expansion::on_sig::{
    on_sig, DefinitionError, Description, Header, HeaderError, Parameter, Role, ValueError,
};
use restcrab::expansion::{Literal, NestedMeta};
use restcrab::method::Method;
use restcrab::operation::{BodySource, Operation};
use restcrab::url::Url;

fn pair(key: &str, value: &str) -> (String, String) {
    (key.to_string(), value.to_string())
}

fn parameter(name: &str, ty: &str, role: Role) -> Parameter {
    Parameter { name: name.to_string(), ty: ty.to_string(), role }
}

fn description(name: &str) -> Description {
    Description {
        name: name.to_string(),
        method: None,
        uri: None,
        headers: vec![],
        queries: vec![],
        body: None,
        parameters: vec![],
        output: None,
    }
}

fn string(text: &str) -> NestedMeta {
    NestedMeta::Lit(Literal::Str(text.to_string()))
}

#[test]
fn bare_description_gets_the_defaults() {
    assert_eq!(
        on_sig(&description("list")),
        Ok(Operation {
            name: "list".to_string(),
            method: Method::Get,
            uri: "/list".to_string(),
            headers: vec![],
            queries: vec![],
            body: BodySource::Absent,
            headers_from: None,
            queries_from: None,
            request_type: "()".to_string(),
            response_type: "()".to_string(),
            expect_body: false,
        })
    );
}

#[test]
fn full_description_is_taken_over() {
    let declared = Description {
        name: "echo".to_string(),
        method: Some("POST".to_string()),
        uri: Some("/echo/{id}".to_string()),
        headers: vec![pair("Content-Type", "application/json"), pair("Content-Type", "text/plain")],
        queries: vec![pair("test", "value")],
        body: None,
        parameters: vec![
            parameter("id", "&str", Role::Parameter),
            parameter("trace", "bool", Role::Plain),
            parameter("queries", "HashMap<String, String>", Role::Queries),
            parameter("body", "Message", Role::Body),
            parameter("headers", "HashMap<String, String>", Role::Headers),
        ],
        output: Some("Reply".to_string()),
    };
    assert_eq!(
        on_sig(&declared),
        Ok(Operation {
            name: "echo".to_string(),
            method: Method::Post,
            uri: "/echo/{id}".to_string(),
            headers: vec![
                pair("Content-Type", "application/json"),
                pair("Content-Type", "text/plain")
            ],
            queries: vec![pair("test", "value")],
            body: BodySource::Parameter(3),
            headers_from: Some(4),
            queries_from: Some(2),
            request_type: "Message".to_string(),
            response_type: "Reply".to_string(),
            expect_body: true,
        })
    );
}

#[test]
fn fixed_body_goes_out_as_a_string() {
    let mut declared = description("test");
    declared.body = Some("test".to_string());
    let operation = on_sig(&declared).unwrap();
    assert_eq!(operation.body, BodySource::Literal("test".to_string()));
    assert_eq!(operation.request_type, "&str");
}

#[test]
fn unknown_verb_is_an_error() {
    for method in ["FETCH", "get", ""] {
        let mut declared = description("x");
        declared.method = Some(method.to_string());
        assert_eq!(on_sig(&declared), Err(vec![DefinitionError::InvalidMethod]));
    }
}

#[test]
fn malformed_uri_is_an_error() {
    for uri in ["/a b", "http://ho st/x", "/x?a b"] {
        let mut declared = description("x");
        declared.uri = Some(uri.to_string());
        assert_eq!(on_sig(&declared), Err(vec![DefinitionError::InvalidUrl]));
    }
}

#[test]
fn second_binding_of_a_kind_is_an_error() {
    let mut declared = description("x");
    declared.parameters = vec![
        parameter("a", "A", Role::Headers),
        parameter("b", "B", Role::Headers),
    ];
    assert_eq!(on_sig(&declared), Err(vec![DefinitionError::HeadersAlreadySet { parameter: 1 }]));
    declared.parameters = vec![
        parameter("a", "A", Role::Queries),
        parameter("b", "B", Role::Plain),
        parameter("c", "C", Role::Queries),
    ];
    assert_eq!(on_sig(&declared), Err(vec![DefinitionError::QueriesAlreadySet { parameter: 2 }]));
    declared.parameters = vec![parameter("a", "A", Role::Body), parameter("b", "B", Role::Body)];
    assert_eq!(on_sig(&declared), Err(vec![DefinitionError::BodyAlreadySet { parameter: 1 }]));
}

#[test]
fn fixed_body_and_body_parameter_are_two_sources() {
    let mut declared = description("x");
    declared.body = Some("fixed".to_string());
    declared.parameters = vec![parameter("body", "String", Role::Body)];
    assert_eq!(on_sig(&declared), Err(vec![DefinitionError::BodyAlreadySet { parameter: 0 }]));
}

#[test]
fn path_parameters_may_be_many() {
    let mut declared = description("x");
    declared.uri = Some("/{a}/{b}".to_string());
    declared.parameters = vec![
        parameter("a", "&str", Role::Parameter),
        parameter("b", "&str", Role::Parameter),
        parameter("c", "u8", Role::Plain),
        parameter("d", "u8", Role::Plain),
    ];
    assert!(on_sig(&declared).is_ok());
}

#[test]
fn all_errors_are_reported_at_once() {
    let declared = Description {
        name: "x".to_string(),
        method: Some("FETCH".to_string()),
        uri: Some("/a b".to_string()),
        headers: vec![],
        queries: vec![],
        body: Some("fixed".to_string()),
        parameters: vec![
            parameter("h1", "H", Role::Headers),
            parameter("b1", "B", Role::Body),
            parameter("q1", "Q", Role::Queries),
            parameter("h2", "H", Role::Headers),
            parameter("q2", "Q", Role::Queries),
            parameter("b2", "B", Role::Body),
            parameter("h3", "H", Role::Headers),
        ],
        output: None,
    };
    assert_eq!(
        on_sig(&declared),
        Err(vec![
            DefinitionError::InvalidMethod,
            DefinitionError::InvalidUrl,
            DefinitionError::BodyAlreadySet { parameter: 1 },
            DefinitionError::HeadersAlreadySet { parameter: 3 },
            DefinitionError::QueriesAlreadySet { parameter: 4 },
            DefinitionError::BodyAlreadySet { parameter: 5 },
            DefinitionError::HeadersAlreadySet { parameter: 6 },
        ])
    );
}

#[test]
fn header_from_list_takes_two_strings() {
    assert_eq!(
        Header::from_list(&vec![string("key"), string("value")]),
        Ok(Header("key".to_string(), "value".to_string()))
    );
    assert_eq!(
        Header::from_list(&vec![string("key"), string("value")]).unwrap().into_pair(),
        pair("key", "value")
    );
}

#[test]
fn header_from_list_counts_first() {
    assert_eq!(Header::from_list(&vec![]), Err(HeaderError::WrongCount));
    assert_eq!(Header::from_list(&vec![string("key")]), Err(HeaderError::WrongCount));
    assert_eq!(
        Header::from_list(&vec![string("a"), string("b"), string("c")]),
        Err(HeaderError::WrongCount)
    );
    assert_eq!(
        Header::from_list(&vec![NestedMeta::Meta("a".to_string())]),
        Err(HeaderError::WrongCount)
    );
}

#[test]
fn header_from_list_names_the_first_item_that_is_wrong() {
    let int = || NestedMeta::Lit(Literal::Int(1));
    let meta = || NestedMeta::Meta("path".to_string());
    assert_eq!(Header::from_list(&vec![int(), string("v")]), Err(HeaderError::NotAString));
    assert_eq!(Header::from_list(&vec![string("k"), int()]), Err(HeaderError::NotAString));
    assert_eq!(Header::from_list(&vec![meta(), string("v")]), Err(HeaderError::NotALiteral));
    assert_eq!(Header::from_list(&vec![string("k"), meta()]), Err(HeaderError::NotALiteral));
    assert_eq!(Header::from_list(&vec![int(), meta()]), Err(HeaderError::NotAString));
    assert_eq!(Header::from_list(&vec![meta(), int()]), Err(HeaderError::NotALiteral));
    assert_eq!(
        Header::from_list(&vec![NestedMeta::Lit(Literal::Bool(true)), int()]),
        Err(HeaderError::NotAString)
    );
}

#[test]
fn url_from_value_needs_a_well_formed_string() {
    assert_eq!(
        Url::from_value(&Literal::Str("/echo?x=1".to_string())),
        Ok(Url::parse("/echo?x=1"))
    );
    assert_eq!(Url::from_value(&Literal::Str("/a b".to_string())), Err(ValueError::Rejected));
    assert_eq!(Url::from_value(&Literal::Int(1)), Err(ValueError::NotAString));
    assert_eq!(Url::from_value(&Literal::Bool(false)), Err(ValueError::NotAString));
}

#[test]
fn method_from_value_needs_the_name_of_a_verb() {
    assert_eq!(Method::from_value(&Literal::Str("DELETE".to_string())), Ok(Method::Delete));
    assert_eq!(Method::from_value(&Literal::Str("delete".to_string())), Err(ValueError::Rejected));
    assert_eq!(Method::from_value(&Literal::Int(7)), Err(ValueError::NotAString));
}
