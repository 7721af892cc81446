use nu_command::path_expand;
use nu_command::span::Span;
use nu_command::url_scheme;
use nu_command::value::Value;

#[test]
fn scheme_test_examples() {
    let cmd = url_scheme::SubCommand;
    assert_eq!(cmd.name(), "url scheme");
    let examples = cmd.examples();
    assert_eq!(examples.len(), 2);
    let inputs = vec![
        Value::test_string("http://www.example.com"),
        Value::test_string("test"),
    ];
    for (input, example) in inputs.into_iter().zip(examples.into_iter()) {
        let out = cmd.run(input, Span::unknown());
        assert_eq!(out, example.result.unwrap(), "example: {}", example.example);
    }
}

#[test]
fn scheme_maps_table_rows() {
    let cmd = url_scheme::SubCommand;
    let input = Value::List {
        vals: vec![
            Value::test_string("ftp://host/file"),
            Value::test_string("nope"),
        ],
        span: Span::unknown(),
    };
    let out = cmd.run(input, Span::unknown());
    assert_eq!(
        out,
        Value::List {
            vals: vec![Value::test_string("ftp"), Value::test_string("")],
            span: Span::unknown(),
        }
    );
}

#[test]
fn expand_test_examples() {
    let cmd = path_expand::SubCommand;
    assert_eq!(cmd.name(), "path expand");
    let examples = cmd.examples();
    assert_eq!(examples.len(), 3);
    let cwd = "/".to_string();
    let mut it = examples.into_iter();
    // an absolute path with a dot component, not present on disk
    let absolute = it.next().unwrap();
    let out = cmd.run(
        Value::test_string("/home/joe/foo/../bar"),
        Span::unknown(),
        false,
        &cwd,
    );
    assert_eq!(out, absolute.result.unwrap(), "example: {}", absolute.example);
    // the column example fixes no result
    let column = it.next().unwrap();
    assert!(column.result.is_none());
    // a relative path with a dot component
    let relative = it.next().unwrap();
    let out = cmd.run(
        Value::test_string("foo/../bar"),
        Span::unknown(),
        false,
        &cwd,
    );
    assert_eq!(out, relative.result.unwrap(), "example: {}", relative.example);
}

#[test]
fn strict_expansion_of_a_missing_path_fails() {
    let cmd = path_expand::SubCommand;
    let cwd = "/".to_string();
    let out = cmd.run(
        Value::test_string("/no/such/path/here"),
        Span::unknown(),
        true,
        &cwd,
    );
    match out {
        Value::Error { error } => {
            let text = format!("{:?}", error);
            assert!(text.contains("Could not expand path"), "got {}", text);
        },
        other => panic!("expected an error value, got {:?}", other),
    }
}

#[test]
fn expansion_of_an_existing_path_is_canonical() {
    let cmd = path_expand::SubCommand;
    let cwd = "/".to_string();
    // the root exists everywhere, so the canonical branch is taken
    let out = cmd.run(Value::test_string("/../"), Span::unknown(), false, &cwd);
    assert_eq!(out, Value::test_string("/"));
}
