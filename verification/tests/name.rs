use crankshaft::engine::service::catalog::name::Name;
use crankshaft::engine::service::catalog::name::ParseError;

#[test]
fn smoke() {
    assert_eq!(
        "logging/name".parse::<Name>().unwrap(),
        Name::Logging(String::from("name"))
    );

    assert_eq!(
        "runner/name".parse::<Name>().unwrap(),
        Name::Runner(String::from("name"))
    );

    let err = "runner".parse::<Name>().unwrap_err();
    assert_eq!(err, ParseError::new("invalid number of components: 1"));

    let err = "runner/foo/bar".parse::<Name>().unwrap_err();
    assert_eq!(err, ParseError::new("invalid number of components: 3"));

    let err = "foo/name".parse::<Name>().unwrap_err();
    assert_eq!(err, ParseError::new("unknown namespace: foo"));
}

#[test]
fn names_print_as_they_parse() {
    let name = Name::parse("runner/docker").unwrap();
    assert_eq!(name.to_string(), "runner/docker");
    assert_eq!(Name::Logging(String::from("")).to_string(), "logging/");
    assert_eq!(Name::parse("logging/").unwrap(), Name::Logging(String::new()));
    assert_eq!(
        ParseError::new("unknown namespace: foo").to_string(),
        "parse error: unknown namespace: foo"
    );
    assert_eq!(
        Name::parse("").unwrap_err(),
        ParseError::new("invalid number of components: 1")
    );
}
