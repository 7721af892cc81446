use nu_command::doc::DocValue;
use nu_command::value::PathMember;
use nu_command::error::ShellError;
use nu_command::span::Span;
use nu_command::to_toml::{to_toml, value_to_toml_value, ToToml};
use nu_command::value::Value;

fn record(fields: Vec<(&str, Value)>) -> Value {
    let mut cols: Vec<String> = Vec::new();
    let mut vals: Vec<Value> = Vec::new();
    for (k, v) in fields {
        cols.push(k.to_string());
        vals.push(v);
    }
    Value::Record { cols, vals, span: Span::unknown() }
}

#[test]
fn toml_test_examples() {
    let cmd = ToToml;
    assert_eq!(cmd.name(), "to toml");
    let examples = cmd.examples();
    assert_eq!(examples.len(), 1);
    // the example's input: [[foo bar]; ["1" "2"]]
    let input = Value::List {
        vals: vec![record(vec![
            ("foo", Value::test_string("1")),
            ("bar", Value::test_string("2")),
        ])],
        span: Span::unknown(),
    };
    let out = cmd.run(&input, Span::unknown()).expect("example should convert");
    let expected = examples.into_iter().next().unwrap().result.unwrap();
    assert_eq!(out, expected);
}

#[test]
fn test_value_to_toml_value() {
    //
    // Positive Tests
    //
    let input = record(vec![
        ("rust", Value::test_string("editor")),
        ("is", Value::nothing(Span::unknown())),
        (
            "features",
            Value::List {
                vals: vec![Value::test_string("hello"), Value::test_string("array")],
                span: Span::unknown(),
            },
        ),
    ]);
    let tv = value_to_toml_value(&input).expect("Expected Ok from valid TOML dictionary");
    assert_eq!(
        tv.get("features"),
        Some(&DocValue::Array(vec![
            DocValue::Str("hello".to_string()),
            DocValue::Str("array".to_string()),
        ]))
    );
    // TOML string
    let tv = value_to_toml_value(&Value::test_string(
        r#"
            title = "TOML Example"

            [owner]
            name = "Tom Preston-Werner"
            dob = 1979-05-27T07:32:00-08:00 # First class dates

            [dependencies]
            rustyline = "4.1.0"
            sysinfo = "0.8.4"
            chrono = { version = "0.4.6", features = ["serde"] }
            "#,
    ))
    .expect("Expected Ok from valid TOML string");
    assert_eq!(
        tv.get("title").unwrap(),
        &DocValue::Str("TOML Example".to_owned())
    );
    //
    // Negative Tests
    //
    value_to_toml_value(&Value::test_string("not_valid"))
        .expect_err("Expected non-valid toml (String) to cause error!");
    value_to_toml_value(&Value::List {
        vals: vec![Value::test_string("1")],
        span: Span::unknown(),
    })
    .expect_err("Expected non-valid toml (Table) to cause error!");
}

#[test]
fn single_table_unwrap_is_byte_identical() {
    // a one-record list and the bare record serialize identically
    let rec = record(vec![("a", Value::test_int(1))]);
    let wrapped = Value::List {
        vals: vec![record(vec![("a", Value::test_int(1))])],
        span: Span::unknown(),
    };
    let direct = to_toml(&rec, Span::unknown()).unwrap();
    let unwrapped = to_toml(&wrapped, Span::unknown()).unwrap();
    assert_eq!(direct, unwrapped);
    match direct {
        Value::Str { val, .. } => assert_eq!(val, "a = 1\n"),
        other => panic!("expected rendered text, got {:?}", other),
    }
}

#[test]
fn two_records_stay_an_array() {
    // a two-record list converts to a two-table array, never unwrapped
    let input = Value::List {
        vals: vec![
            record(vec![("a", Value::test_int(1))]),
            record(vec![("b", Value::test_int(2))]),
        ],
        span: Span::unknown(),
    };
    let tree = value_to_toml_value(&input).unwrap();
    assert_eq!(
        tree,
        DocValue::Array(vec![
            DocValue::Table(vec![("a".to_string(), DocValue::Int(1))]),
            DocValue::Table(vec![("b".to_string(), DocValue::Int(2))]),
        ])
    );
    // such a root has no document rendering: the pipeline gets an error value
    match to_toml(&input, Span::unknown()).unwrap() {
        Value::Error { error: ShellError::CantConvert(what, ty, _) } => {
            assert_eq!(what, "TOML");
            assert_eq!(ty, "list");
        },
        other => panic!("expected an error value, got {:?}", other),
    }
}

#[test]
fn bad_root_shapes_fail() {
    // a bare integer root
    match to_toml(&Value::test_int(42), Span::unknown()) {
        Err(ShellError::UnsupportedInput(msg, _)) => {
            assert_eq!(msg, "int is not a valid top-level TOML");
        },
        other => panic!("expected a shape error, got {:?}", other),
    }
    // a list of non-records
    let input = Value::List {
        vals: vec![Value::test_int(1), Value::test_int(2), Value::test_int(3)],
        span: Span::unknown(),
    };
    match to_toml(&input, Span::unknown()) {
        Err(ShellError::UnsupportedInput(msg, _)) => {
            assert_eq!(msg, "Expected a table with TOML-compatible structure from pipeline");
        },
        other => panic!("expected a shape error, got {:?}", other),
    }
    // an empty list has no first record either
    let input = Value::List { vals: vec![], span: Span::unknown() };
    assert!(to_toml(&input, Span::unknown()).is_err());
}

#[test]
fn embedded_document_reparses() {
    // a root string that is a TOML document is normalized through the parser
    let embedded = to_toml(&Value::test_string("title = \"x\""), Span::unknown()).unwrap();
    let constructed = to_toml(
        &record(vec![("title", Value::test_string("x"))]),
        Span::unknown(),
    )
    .unwrap();
    assert_eq!(embedded, constructed);
    // a root string that is no TOML document fails with a parse error
    match to_toml(&Value::test_string("not valid"), Span::unknown()) {
        Err(ShellError::UnsupportedInput(msg, _)) => {
            assert_eq!(msg, "unable to de-serialize string to TOML");
        },
        other => panic!("expected a parse error, got {:?}", other),
    }
}

#[test]
fn binary_field_becomes_integer_array() {
    let input = record(vec![(
        "data",
        Value::Binary { val: vec![1, 2, 3], span: Span::unknown() },
    )]);
    let tree = value_to_toml_value(&input).unwrap();
    assert_eq!(
        tree.get("data"),
        Some(&DocValue::Array(vec![
            DocValue::Int(1),
            DocValue::Int(2),
            DocValue::Int(3),
        ]))
    );
}

#[test]
fn round_trip_preserves_the_tree() {
    // converting, rendering, parsing the text back and converting again
    // yields the first tree
    let input = record(vec![
        ("a", Value::test_int(1)),
        ("b", Value::test_string("x")),
        (
            "c",
            Value::List {
                vals: vec![Value::test_int(1), Value::test_int(2)],
                span: Span::unknown(),
            },
        ),
        (
            "d",
            record(vec![("e", Value::Bool { val: true, span: Span::unknown() })]),
        ),
    ]);
    let first = value_to_toml_value(&input).unwrap();
    let rendered = match to_toml(&input, Span::unknown()).unwrap() {
        Value::Str { val, .. } => val,
        other => panic!("expected rendered text, got {:?}", other),
    };
    let second = value_to_toml_value(&Value::test_string(&rendered)).unwrap();
    assert_eq!(first, second);
}

#[test]
fn errors_propagate_unchanged() {
    let boom = ShellError::UnsupportedInput("boom".to_string(), Span::unknown());
    // nested in a record field
    let input = record(vec![
        ("ok", Value::test_int(1)),
        ("bad", Value::Error { error: boom.clone() }),
    ]);
    assert_eq!(to_toml(&input, Span::unknown()), Err(boom.clone()));
    // at the root
    let input = Value::Error { error: boom.clone() };
    assert_eq!(to_toml(&input, Span::unknown()), Err(boom.clone()));
    // as a list element, ahead of the shape check
    let input = Value::List {
        vals: vec![
            record(vec![("a", Value::test_int(1))]),
            Value::Error { error: boom.clone() },
        ],
        span: Span::unknown(),
    };
    assert_eq!(to_toml(&input, Span::unknown()), Err(boom));
}

#[test]
fn scalars_render_as_documented() {
    let input = record(vec![
        ("flag", Value::Bool { val: true, span: Span::unknown() }),
        ("size", Value::Filesize { val: 2048, span: Span::unknown() }),
        ("wait", Value::Duration { val: -1500, span: Span::unknown() }),
        ("when", Value::Date { val: "2020-01-01 00:00:00 +00:00".to_string(), span: Span::unknown() }),
        ("hole", Value::Nothing { span: Span::unknown() }),
        ("span2", Value::Range { span: Span::unknown() }),
        ("blk", Value::Block { span: Span::unknown() }),
        ("cst", Value::Custom { span: Span::unknown() }),
    ]);
    let tree = value_to_toml_value(&input).unwrap();
    assert_eq!(tree.get("flag"), Some(&DocValue::Bool(true)));
    assert_eq!(tree.get("size"), Some(&DocValue::Int(2048)));
    assert_eq!(tree.get("wait"), Some(&DocValue::Str("-1500".to_string())));
    assert_eq!(
        tree.get("when"),
        Some(&DocValue::Str("2020-01-01 00:00:00 +00:00".to_string()))
    );
    assert_eq!(tree.get("hole"), Some(&DocValue::Str("<Nothing>".to_string())));
    assert_eq!(tree.get("span2"), Some(&DocValue::Str("<Range>".to_string())));
    assert_eq!(tree.get("blk"), Some(&DocValue::Str("<Block>".to_string())));
    assert_eq!(tree.get("cst"), Some(&DocValue::Str("<Custom Value>".to_string())));
    assert_eq!(tree.get("absent"), None);
    assert_eq!(DocValue::Int(1).get("flag"), None);
}

#[test]
fn durations_render_in_decimal_at_the_extremes() {
    let input = Value::Record {
        cols: vec!["lo".to_string(), "hi".to_string(), "zero".to_string()],
        vals: vec![
            Value::Duration { val: i64::MIN, span: Span::unknown() },
            Value::Duration { val: i64::MAX, span: Span::unknown() },
            Value::Duration { val: 0, span: Span::unknown() },
        ],
        span: Span::unknown(),
    };
    let tree = value_to_toml_value(&input).unwrap();
    assert_eq!(
        tree.get("lo"),
        Some(&DocValue::Str("-9223372036854775808".to_string()))
    );
    assert_eq!(
        tree.get("hi"),
        Some(&DocValue::Str("9223372036854775807".to_string()))
    );
    assert_eq!(tree.get("zero"), Some(&DocValue::Str("0".to_string())));
}

#[test]
fn float_renderings_survive_the_round_trip() {
    // a float reaches the library as its decimal rendering and is
    // emitted as a TOML float, not as a string
    let input = record(vec![("x", Value::Float { val: "1.5".to_string(), span: Span::unknown() })]);
    let rendered = match to_toml(&input, Span::unknown()).unwrap() {
        Value::Str { val, .. } => val,
        other => panic!("expected rendered text, got {:?}", other),
    };
    assert_eq!(rendered, "x = 1.5\n");
    // and parsing a document with a float yields that rendering back
    let tree = value_to_toml_value(&Value::test_string("x = 1.5")).unwrap();
    assert_eq!(tree.get("x"), Some(&DocValue::Float("1.5".to_string())));
}

#[test]
fn cell_path_becomes_mixed_array() {
    let input = record(vec![(
        "path",
        Value::CellPath {
            members: vec![
                PathMember::Str { val: "name".to_string(), span: Span::unknown() },
                PathMember::Int { val: 3, span: Span::unknown() },
            ],
            span: Span::unknown(),
        },
    )]);
    let tree = value_to_toml_value(&input).unwrap();
    assert_eq!(
        tree.get("path"),
        Some(&DocValue::Array(vec![
            DocValue::Str("name".to_string()),
            DocValue::Int(3),
        ]))
    );
}
