use restcrab::method::Method;

#[test]
fn from_name_knows_the_nine_verbs() {
    assert_eq!(Method::from_name("HEAD"), Some(Method::Head));
    assert_eq!(Method::from_name("GET"), Some(Method::Get));
    assert_eq!(Method::from_name("POST"), Some(Method::Post));
    assert_eq!(Method::from_name("PUT"), Some(Method::Put));
    assert_eq!(Method::from_name("PATCH"), Some(Method::Patch));
    assert_eq!(Method::from_name("DELETE"), Some(Method::Delete));
    assert_eq!(Method::from_name("OPTIONS"), Some(Method::Options));
    assert_eq!(Method::from_name("CONNECT"), Some(Method::Connect));
    assert_eq!(Method::from_name("TRACE"), Some(Method::Trace));
}

#[test]
fn from_name_knows_no_other_text() {
    assert_eq!(Method::from_name("get"), None);
    assert_eq!(Method::from_name(""), None);
    assert_eq!(Method::from_name("QUERY"), None);
    assert_eq!(Method::from_name("GET "), None);
}

#[test]
fn as_str_is_the_name_on_the_wire() {
    assert_eq!(Method::Patch.as_str(), "PATCH");
    assert_eq!(Method::Other("PURGE".to_string()).as_str(), "PURGE");
}

#[test]
fn name_and_verb_round_trip() {
    for method in [
        Method::Head,
        Method::Get,
        Method::Post,
        Method::Put,
        Method::Patch,
        Method::Delete,
        Method::Options,
        Method::Connect,
        Method::Trace,
    ] {
        assert!(method.is_supported());
        assert_eq!(Method::from_name(&method.as_str()), Some(method.clone()));
    }
}

#[test]
fn other_verbs_are_not_supported() {
    assert!(!Method::Other("GET".to_string()).is_supported());
}

#[test]
fn default_verb_is_get() {
    assert_eq!(Method::default(), Method::Get);
}
