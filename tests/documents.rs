use act::concurrency::{Concurrency, ConcurrencyWithCancel};
use act::defaults::{Defaults, Run};
use act::env::Env;
use act::expression::{Expression, InString, InSyntax, StringOnly};
use act::grammar::{IN_BRACE_PATTERN, IN_STRING_PATTERN};
use act::node::Node;
use act::on::Event;
use act::scalar::StrNumBool;

fn node_of(v: serde_yaml::Value) -> Node {
    match v {
        serde_yaml::Value::Null => Node::Unit,
        serde_yaml::Value::Bool(b) => Node::Bool(b),
        serde_yaml::Value::Number(n) => {
            if let Some(u) = n.as_u64() {
                Node::Unsigned(u)
            } else if let Some(i) = n.as_i64() {
                Node::Signed(i)
            } else {
                Node::Float(n.as_f64().unwrap_or(f64::NAN).to_string())
            }
        }
        serde_yaml::Value::String(s) => Node::Str(s),
        serde_yaml::Value::Sequence(items) => Node::Sequence(items.into_iter().map(node_of).collect()),
        serde_yaml::Value::Mapping(m) => Node::Mapping(
            m.into_iter()
                .map(|(k, v)| {
                    let key = match k {
                        serde_yaml::Value::String(s) => s,
                        other => serde_yaml::to_string(&other).unwrap().trim().to_string(),
                    };
                    (key, node_of(v))
                })
                .collect(),
        ),
        serde_yaml::Value::Tagged(t) => node_of(t.value),
    }
}

fn yaml(text: &str) -> Node {
    node_of(serde_yaml::from_str::<serde_yaml::Value>(text).unwrap())
}

fn value_of(n: &Node) -> serde_yaml::Value {
    match n {
        Node::Unit => serde_yaml::Value::Null,
        Node::Bool(b) => serde_yaml::Value::Bool(*b),
        Node::Unsigned(u) => serde_yaml::Value::Number((*u).into()),
        Node::Signed(i) => serde_yaml::Value::Number((*i).into()),
        Node::Float(f) => serde_yaml::Value::Number(f.parse::<f64>().unwrap().into()),
        Node::Str(s) => serde_yaml::Value::String(s.clone()),
        Node::Sequence(items) => serde_yaml::Value::Sequence(items.iter().map(value_of).collect()),
        Node::Mapping(es) => {
            let mut m = serde_yaml::Mapping::new();
            for (k, v) in es {
                m.insert(serde_yaml::Value::String(k.clone()), value_of(v));
            }
            serde_yaml::Value::Mapping(m)
        }
    }
}

fn to_yaml(n: &Node) -> String {
    serde_yaml::to_string(&value_of(n)).unwrap()
}

#[test]
fn expression_serialize() {
    let e = Expression::in_syntax("${{ x }}").unwrap();
    assert_eq!(to_yaml(&Node::Str(e.encode().unwrap())), "${{ x }}\n");
}

#[test]
fn expression_deserialize_to_in_syntax() {
    assert_eq!(
        Expression::decode(&yaml(r#"${{ x }}"#)).unwrap(),
        Expression::in_syntax("${{ x }}").unwrap()
    );
}

#[test]
fn expression_deserialize_to_in_string() {
    assert_eq!(
        Expression::decode(&yaml(r#"abc${{ x }}def"#)).unwrap(),
        Expression::in_string("abc${{ x }}def").unwrap()
    );
}

#[test]
fn expression_deserialize_to_string_only() {
    assert_eq!(
        Expression::decode(&yaml("inputs.abc")).unwrap(),
        Expression::string_only("inputs.abc").unwrap()
    );
}

#[test]
fn expression_deserialize_err() {
    assert_eq!(
        Expression::decode(&yaml("abc ${{")).unwrap_err().to_string(),
        format!(
            r#"invalid value: string "abc ${{{{", expected a expression string without "${{{{" or a expression string matching one of {IN_BRACE_PATTERN} or {IN_STRING_PATTERN}"#
        )
    );
}

#[test]
fn mod_serialize() {
    let e = Expression::in_syntax("${{ x }}").unwrap();
    assert_eq!(to_yaml(&Node::Str(e.encode().unwrap())), "${{ x }}\n");
}

#[test]
fn mod_deserialize_to_in_syntax() {
    assert_eq!(
        Expression::decode(&yaml(r#"${{ x }}"#)).unwrap(),
        Expression::in_syntax("${{ x }}").unwrap()
    );
}

#[test]
fn mod_deserialize_to_in_string() {
    assert_eq!(
        Expression::decode(&yaml(r#"abc${{ x }}def"#)).unwrap(),
        Expression::in_string("abc${{ x }}def").unwrap()
    );
}

#[test]
fn mod_deserialize_to_string_only() {
    assert_eq!(
        Expression::decode(&yaml("inputs.abc")).unwrap(),
        Expression::string_only("inputs.abc").unwrap()
    );
}

#[test]
fn mod_deserialize_err() {
    assert_eq!(
        Expression::decode(&yaml("abc ${{")).unwrap_err().to_string(),
        format!(r#"invalid value: string "abc ${{{{", expected a expression string without "${{{{" or a expression string matching one of {IN_BRACE_PATTERN} or {IN_STRING_PATTERN}"#)
    );
}

#[test]
fn expression_decode_rejects_non_text() {
    assert_eq!(
        Expression::decode(&yaml("true")).unwrap_err().to_string(),
        format!(r#"invalid type: boolean `true`, expected a expression string without "${{{{" or a expression string matching one of {IN_BRACE_PATTERN} or {IN_STRING_PATTERN}"#)
    );
}

#[test]
fn expression_in_string_serialize() {
    let e = InString::new("x=${{ x }}").unwrap();
    assert_eq!(to_yaml(&Node::Str(e.encode().unwrap())), "x=${{ x }}\n");
}

#[test]
fn expression_in_string_deserialize() {
    assert_eq!(
        InString::decode(&yaml(r#"${{ x }}"#)).unwrap(),
        InString::new("${{ x }}").unwrap()
    );
}

#[test]
fn expression_in_string_deserialize_err() {
    assert_eq!(
        InString::decode(&yaml("abc")).unwrap_err().to_string(),
        "invalid value: string \"abc\", expected a string matching ^.*\\$\\{\\{(.|[\\r\\n])*\\}\\}.*$"
    );
}

#[test]
fn in_string_deserialize_ok() {
    let e = InString::decode(&yaml("abc=${{ inputs.abc }}")).unwrap();
    assert_eq!(e, InString::new("abc=${{ inputs.abc }}").unwrap());
}

#[test]
fn in_string_deserialize_err() {
    let err = InString::decode(&yaml("inputs.ABC")).unwrap_err();
    assert_eq!(
        err.to_string(),
        format!("invalid value: string \"inputs.ABC\", expected a string matching {IN_STRING_PATTERN}")
    );
}

#[test]
fn in_string_serialize() {
    let e = InString::new("abc=${{ inputs.abc }}").unwrap();
    assert_eq!(to_yaml(&Node::Str(e.encode().unwrap())), "abc=${{ inputs.abc }}\n");
}

#[test]
fn in_syntax_deserialize_ok() {
    let e = InSyntax::decode(&yaml("${{ inputs.abc }}")).unwrap();
    assert_eq!(e, InSyntax::new("${{ inputs.abc }}").unwrap());
}

#[test]
fn in_syntax_deserialize_err() {
    let err = InSyntax::decode(&yaml("inputs.ABC")).unwrap_err();
    assert_eq!(
        err.to_string(),
        format!("invalid value: string \"inputs.ABC\", expected a string matching {IN_BRACE_PATTERN}")
    );
}

#[test]
fn in_syntax_serialize() {
    let e = InSyntax::new("${{ inputs.abc }}").unwrap();
    assert_eq!(to_yaml(&Node::Str(e.encode().unwrap())), "${{ inputs.abc }}\n");
}

#[test]
fn string_only_deserialize_ok() {
    let e = StringOnly::decode(&yaml("inputs.abc")).unwrap();
    assert_eq!(e, StringOnly::new("inputs.abc").unwrap());
}

#[test]
fn string_only_deserialize_err() {
    let err = StringOnly::decode(&yaml("${{ inputs.ABC }}")).unwrap_err();
    assert_eq!(
        err.to_string(),
        "invalid value: string \"${{ inputs.ABC }}\", expected a string without \"${{\""
    );
}

#[test]
fn string_only_serialize() {
    let e = StringOnly::new("inputs.ABC").unwrap();
    assert_eq!(to_yaml(&Node::Str(e.encode().unwrap())), "inputs.ABC\n");
}

#[test]
fn str_num_bool_deserialize_int_ok() {
    let e = StrNumBool::decode(&yaml("123")).unwrap();
    assert_eq!(e, StrNumBool::Int(123));
}

#[test]
fn str_num_bool_deserialize_float_ok() {
    let e = StrNumBool::decode(&yaml("123.456")).unwrap();
    assert_eq!(e, StrNumBool::Float(123.456f64.to_string()));
}

#[test]
fn str_num_bool_deserialize_bool_ok() {
    let e = StrNumBool::decode(&yaml("true")).unwrap();
    assert_eq!(e, StrNumBool::Bool(true));
}

#[test]
fn str_num_bool_deserialize_string_ok() {
    let e = StrNumBool::decode(&yaml("abc")).unwrap();
    assert_eq!(e, StrNumBool::String("abc".to_string()));
}

#[test]
fn str_num_bool_deserialize_err() {
    let err = StrNumBool::decode(&yaml("null")).unwrap_err();
    assert_eq!(
        err.to_string(),
        "invalid type: unit value, expected expected one of string, number or boolean"
    );
}

#[test]
fn str_num_bool_negative_and_too_large() {
    assert_eq!(StrNumBool::decode(&yaml("-7")).unwrap(), StrNumBool::Int(-7));
    assert_eq!(
        StrNumBool::decode(&Node::Unsigned(u64::MAX)).unwrap_err().to_string(),
        "invalid value: integer `18446744073709551615`, expected expected one of string, number or boolean"
    );
    assert_eq!(
        StrNumBool::decode(&yaml("[1]")).unwrap_err().to_string(),
        "invalid type: sequence, expected expected one of string, number or boolean"
    );
}

#[test]
fn env_deserialize_string_ok() {
    let e = Env::decode(&yaml("abc=${{ inputs.ABC }}")).unwrap();
    assert_eq!(
        e,
        InString::new("abc=${{ inputs.ABC }}")
            .map(Env::InStringExpression)
            .unwrap()
    );
}

#[test]
fn env_deserialize_map_ok() {
    let e = Env::decode(&yaml(
        r#"
        n: 123
        f: 123.456
        b: true
        s: abc
        "#,
    ))
    .unwrap();
    match e {
        Env::Mapping(t) => {
            assert_eq!(t.len(), 4);
            assert_eq!(t.get("n"), Some(&StrNumBool::Int(123)));
            assert_eq!(t.get("f"), Some(&StrNumBool::Float(123.456f64.to_string())));
            assert_eq!(t.get("b"), Some(&StrNumBool::Bool(true)));
            assert_eq!(t.get("s"), Some(&StrNumBool::String("abc".to_string())));
        }
        other => panic!("not a table: {:?}", other),
    }
}

#[test]
fn env_deserialize_string_err() {
    let result = Env::decode(&yaml("x=y")).unwrap_err();
    assert_eq!(
        result.to_string(),
        format!("invalid value: string \"x=y\", expected a string matching {IN_STRING_PATTERN} or map...")
    );
}

#[test]
fn env_serialize_string_ok() {
    let e = Env::InStringExpression(InString::new("abc=${{ inputs.ABC }}").unwrap());
    let text = to_yaml(&e.encode().unwrap()).trim().to_string();
    assert_eq!(text, "abc=${{ inputs.ABC }}");
}

#[test]
fn env_map_round_trip_and_later_key_wins() {
    let e = Env::decode(&Node::Mapping(vec![
        ("a".to_string(), Node::Unsigned(1)),
        ("b".to_string(), Node::Str("x".to_string())),
        ("a".to_string(), Node::Bool(false)),
    ]))
    .unwrap();
    let back = Env::decode(&e.encode().unwrap()).unwrap();
    assert_eq!(back, e);
    match back {
        Env::Mapping(t) => {
            assert_eq!(t.len(), 2);
            assert_eq!(t.get("a"), Some(&StrNumBool::Bool(false)));
        }
        other => panic!("not a table: {:?}", other),
    }
}

#[test]
fn env_rejects_nested_value_and_sequence() {
    assert_eq!(
        Env::decode(&yaml("x: [y]")).unwrap_err().to_string(),
        "invalid type: sequence, expected expected one of string, number or boolean"
    );
    assert_eq!(
        Env::decode(&yaml("[x]")).unwrap_err().to_string(),
        format!("invalid type: sequence, expected a string matching {IN_STRING_PATTERN} or map...")
    );
}

#[test]
fn concurrency_deserialize_string() {
    let s = Concurrency::decode(&yaml("staging_environment")).unwrap();
    assert_eq!(s, Concurrency::String("staging_environment".to_string()));
}

#[test]
fn concurrency_deserialize_concurrency_with_cancel() {
    let s = Concurrency::decode(&yaml(
        r#"
        group: staging_environment
        cancel-in-progress: true
        "#,
    ))
    .unwrap();
    assert_eq!(
        s,
        Concurrency::ConcurrencyWithCancel(ConcurrencyWithCancel {
            group: "staging_environment".to_string(),
            cancel_in_progress: true,
        })
    );
}

#[test]
fn concurrency_serialize_string() {
    let s = Concurrency::String("staging_environment".to_string());
    assert_eq!(to_yaml(&s.encode().unwrap()), "staging_environment\n");
}

#[test]
fn concurrency_serialize_concurrency_with_cancel() {
    let s = Concurrency::ConcurrencyWithCancel(ConcurrencyWithCancel {
        group: "staging_environment".to_string(),
        cancel_in_progress: true,
    });
    assert_eq!(
        to_yaml(&s.encode().unwrap()),
        "group: staging_environment\ncancel-in-progress: true\n"
    );
}

#[test]
fn concurrency_serialize_concurrency_with_cancel_err() {
    let s = Concurrency::ConcurrencyWithCancel(ConcurrencyWithCancel {
        group: "".to_string(),
        cancel_in_progress: true,
    });
    let err = s.encode().unwrap_err();
    assert_eq!(err.to_string(), "group cannot be empty");
}

#[test]
fn concurrency_record_rules() {
    assert_eq!(
        Concurrency::decode(&yaml("cancel-in-progress: true")).unwrap_err().to_string(),
        "missing field `group`"
    );
    assert_eq!(
        Concurrency::decode(&yaml("group: g")).unwrap(),
        Concurrency::ConcurrencyWithCancel(ConcurrencyWithCancel {
            group: "g".to_string(),
            cancel_in_progress: false,
        })
    );
    assert_eq!(
        Concurrency::decode(&yaml("group: ''")).unwrap_err().to_string(),
        "group cannot be empty"
    );
    assert_eq!(
        Concurrency::decode(&yaml("group: 5")).unwrap_err().to_string(),
        "invalid type: integer `5`, expected a string"
    );
    assert_eq!(
        Concurrency::decode(&yaml("''")).unwrap_err().to_string(),
        "invalid value: string \"\", expected a string or a map with group and cancel-in-progress"
    );
    assert_eq!(
        Concurrency::String(String::new()).encode().unwrap_err().to_string(),
        "group cannot be empty"
    );
}

#[test]
fn event_deserialize() {
    let e = Event::decode(&yaml("push")).unwrap();
    assert_eq!(e, Event::new("push").unwrap());
}

#[test]
fn event_deserialize_err() {
    let e = Event::decode(&yaml("push1"));
    assert!(e.is_err());
    assert_eq!(
        e.unwrap_err().to_string(),
        "invalid value: string \"push1\", expected a event string <https://docs.github.com/en/actions/using-workflows/events-that-trigger-workflows>"
    );
}

#[test]
fn event_serialize() {
    let e = Event::new("push").unwrap();
    assert_eq!(to_yaml(&Node::Str(e.encode())), "push\n");
}

#[test]
fn run_deserialize_ok() {
    let s = Run::decode(&yaml(
        r#"
        working-directory: /home/runner/work/my-repo/my-repo
        shell: bash
        "#,
    ))
    .unwrap();
    assert_eq!(
        s,
        Run {
            working_directory: Some("/home/runner/work/my-repo/my-repo".to_string()),
            shell: Some("bash".to_string()),
        }
    );
}

#[test]
fn run_deserialize_err() {
    let err = Run::decode(&yaml("true")).unwrap_err();
    assert_eq!(
        err.to_string(),
        "invalid type: boolean `true`, expected a map with at least `shell` or `working-directory` key"
    );
}

#[test]
fn run_serialize() {
    let s = Run {
        working_directory: Some("/home/runner/work/my-repo/my-repo".to_string()),
        shell: Some("bash".to_string()),
    };
    assert_eq!(
        to_yaml(&s.encode()),
        "working-directory: /home/runner/work/my-repo/my-repo\nshell: bash\n"
    );
}

#[test]
fn validate_err() {
    let s: Run = Run {
        working_directory: None,
        shell: None,
    };
    assert_eq!(
        s.validate_min_properties(1).unwrap_err(),
        r#"The size of the properties must be `>= 1`."#
    );
}

#[test]
fn run_field_rules() {
    assert_eq!(
        Run::decode(&Node::Mapping(vec![
            ("shell".to_string(), Node::Str("bash".to_string())),
            ("shell".to_string(), Node::Str("sh".to_string())),
        ]))
        .unwrap_err()
        .to_string(),
        "duplicate field `shell`"
    );
    assert_eq!(
        Run::decode(&yaml("sh: bash")).unwrap_err().to_string(),
        "unknown field `sh`, expected `working-directory` or `shell`"
    );
}

#[test]
fn defaults_deserialize_ok() {
    let s = Defaults::decode(&yaml(
        r#"
        run:
          working-directory: /home/runner/work/my-repo/my-repo
          shell: bash
        "#,
    ))
    .unwrap();
    assert_eq!(
        s,
        Defaults {
            run: Run {
                working_directory: Some("/home/runner/work/my-repo/my-repo".to_string()),
                shell: Some("bash".to_string()),
            },
        }
    );
}

#[test]
fn defaults_deserialize_type_err() {
    let err = Defaults::decode(&yaml("true")).unwrap_err();
    assert_eq!(
        err.to_string(),
        "invalid type: boolean `true`, expected a map with a `run` key"
    );
}

#[test]
fn defaults_rules() {
    assert_eq!(
        Defaults::decode(&yaml("{}")).unwrap_err().to_string(),
        "missing field `run`"
    );
    assert_eq!(
        Defaults::decode(&yaml("steps: 1")).unwrap_err().to_string(),
        "unknown field `steps`, expected `run`"
    );
    assert_eq!(
        Defaults::decode(&yaml("run: {}")).unwrap_err().to_string(),
        "at least one of `shell` or `working-directory` must be specified"
    );
}
