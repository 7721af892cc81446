use nu_command::camel_case;
use nu_command::pascal_case;
use nu_command::span::Span;
use nu_command::value::Value;

fn table_row(lang: &str) -> Value {
    Value::List {
        vals: vec![Value::Record {
            cols: vec!["lang".to_string(), "gems".to_string()],
            vals: vec![Value::test_string(lang), Value::test_int(100)],
            span: Span::unknown(),
        }],
        span: Span::unknown(),
    }
}

#[test]
fn camel_case_test_examples() {
    let cmd = camel_case::SubCommand;
    assert_eq!(cmd.name(), "str camel-case");
    let examples = cmd.examples();
    assert_eq!(examples.len(), 4);
    let none: Vec<String> = Vec::new();
    let lang: Vec<String> = vec!["lang".to_string()];
    let inputs = vec![
        (Value::test_string("NuShell"), &none),
        (Value::test_string("this-is-the-first-case"), &none),
        (Value::test_string("this_is_the_second_case"), &none),
        (table_row("nu_test"), &lang),
    ];
    for ((input, columns), example) in inputs.into_iter().zip(examples.into_iter()) {
        let out = cmd.run(input, Span::unknown(), columns);
        assert_eq!(out, example.result.unwrap(), "example: {}", example.example);
    }
}

#[test]
fn pascal_case_test_examples() {
    let cmd = pascal_case::SubCommand;
    assert_eq!(cmd.name(), "str pascal-case");
    let examples = cmd.examples();
    assert_eq!(examples.len(), 4);
    let none: Vec<String> = Vec::new();
    let lang: Vec<String> = vec!["lang".to_string()];
    let inputs = vec![
        (Value::test_string("nu-shell"), &none),
        (Value::test_string("this-is-the-first-case"), &none),
        (Value::test_string("this_is_the_second_case"), &none),
        (table_row("nu_test"), &lang),
    ];
    for ((input, columns), example) in inputs.into_iter().zip(examples.into_iter()) {
        let out = cmd.run(input, Span::unknown(), columns);
        assert_eq!(out, example.result.unwrap(), "example: {}", example.example);
    }
}

#[test]
fn non_string_input_is_refused() {
    let cmd = camel_case::SubCommand;
    let none: Vec<String> = Vec::new();
    match cmd.run(Value::test_int(7), Span::unknown(), &none) {
        Value::Error { error } => {
            let text = format!("{:?}", error);
            assert!(text.contains("only works with strings"), "got {}", text);
        },
        other => panic!("expected an error value, got {:?}", other),
    }
}

#[test]
fn untouched_columns_are_kept() {
    let cmd = camel_case::SubCommand;
    let gems: Vec<String> = vec!["gems".to_string()];
    // naming a non-string column turns only that column into an error
    let out = cmd.run(table_row("nu_test"), Span::unknown(), &gems);
    match out {
        Value::List { vals, .. } => match &vals[0] {
            Value::Record { cols, vals, .. } => {
                assert_eq!(cols[0], "lang");
                assert_eq!(vals[0], Value::test_string("nu_test"));
                assert!(matches!(vals[1], Value::Error { .. }));
            },
            other => panic!("expected a record row, got {:?}", other),
        },
        other => panic!("expected a table, got {:?}", other),
    }
}
