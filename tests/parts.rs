use act::codec::{predefined_visit, Attributes, CodecSpec, Conversions, Implementations, Route};
use act::error::{Error, ValueError};
use act::jobs::{Job, Jobs};
use act::node::Node;
use act::on::{Event, On};
use act::spanned::{SpannedField, SpannedMapAccessState};

fn events(names: &[&str]) -> Vec<Event> {
    names.iter().map(|n| Event::new(n).unwrap()).collect()
}

#[test]
fn jobs() {
    let mut jobs = Jobs::default();
    jobs.insert("build".to_string(), Job::default());
    jobs.insert("test".to_string(), Job::default());
    assert_eq!(jobs.len(), 2);
}

#[test]
fn jobs_map_operations() {
    let mut jobs = Jobs::new();
    assert!(jobs.is_empty());
    assert!(jobs.insert("build".to_string(), Job::default()).is_none());
    assert!(jobs.insert("build".to_string(), Job::default()).is_some());
    assert_eq!(jobs.len(), 1);
    assert!(jobs.contains_key("build"));
    assert!(jobs.get("test").is_none());
    jobs.insert("test".to_string(), Job::default());
    assert_eq!(jobs.keys(), vec!["build".to_string(), "test".to_string()]);
    assert_eq!(jobs.values().len(), 2);
    assert_eq!(jobs.iter().len(), 2);
    assert!(jobs.remove("build").is_some());
    assert!(jobs.remove("build").is_none());
    jobs.clear();
    assert!(jobs.is_empty());
}

#[test]
fn from_events() {
    assert_eq!(
        On::from_events(events(&["push"])).unwrap(),
        On::Event(Event::new("push").unwrap())
    );
    assert_eq!(
        On::from_events(events(&["push", "pull_request"])).unwrap(),
        On::Events(events(&["push", "pull_request"])),
    );
    assert_eq!(
        On::from_events(vec![]).unwrap_err(),
        Error::from(ValueError::new("required at least one event"))
    );
}

#[test]
fn event_names() {
    assert!(Event::new("workflow_dispatch").is_ok());
    assert_eq!(
        Event::new("push1").unwrap_err().to_string(),
        r#"not a valid value: "push1""#
    );
    assert!(On::from_str("push").is_ok());
    assert!(On::from_str("nope").is_err());
}

fn visits(names: &[&str]) -> Option<Vec<String>> {
    Some(names.iter().map(|s| s.to_string()).collect())
}

fn all_conversions() -> Conversions {
    Conversions {
        from_str: true,
        from_bool: true,
        from_i64: true,
        from_u64: true,
        from_f64: true,
        from_map: true,
    }
}

#[test]
fn predefined_visits() {
    for v in ["str", "map", "bool", "f64", "i64", "u64", "number"] {
        assert!(predefined_visit(v));
    }
    assert!(!predefined_visit("string"));
}

#[test]
fn codec_declaring_bool_without_conversion_fails_to_build() {
    let attrs = Attributes {
        visit: visits(&["str", "bool"]),
        expecting: Some("something".to_string()),
    };
    let conversions = Conversions { from_bool: false, ..all_conversions() };
    assert_eq!(
        CodecSpec::build(&attrs, &conversions).err(),
        Some("a declared shape needs the `from_bool` conversion".to_string())
    );
}

#[test]
fn codec_build_rules() {
    let ok = Attributes { visit: visits(&["str"]), expecting: Some("something".to_string()) };
    assert!(CodecSpec::build(&ok, &all_conversions()).is_ok());
    let nothing = Attributes { visit: visits(&[]), expecting: Some("x".to_string()) };
    assert_eq!(
        CodecSpec::build(&nothing, &all_conversions()).err(),
        Some("`visit` must declare at least one shape".to_string())
    );
    let unknown = Attributes { visit: visits(&["str", "text", "float"]), expecting: Some("x".to_string()) };
    assert_eq!(
        CodecSpec::build(&unknown, &all_conversions()).err(),
        Some("invalid `visit` value(s): text, float expected `str`, `bool`, `number`, `f64`, `i64`, `u64` or `map`".to_string())
    );
    let absent = Attributes { visit: None, expecting: Some("x".to_string()) };
    assert_eq!(
        CodecSpec::build(&absent, &all_conversions()).err(),
        Some("`visit` must be specified".to_string())
    );
    let numbers = Attributes { visit: visits(&["number"]), expecting: Some("x".to_string()) };
    let no_u64 = Conversions { from_u64: false, ..all_conversions() };
    assert_eq!(
        CodecSpec::build(&numbers, &no_u64).err(),
        Some("a declared shape needs the `from_u64` conversion".to_string())
    );
}

#[test]
fn codec_assembles_expectation() {
    let attrs = Attributes { visit: visits(&["map", "str", "bool"]), expecting: None };
    let codec = CodecSpec::build(&attrs, &all_conversions()).unwrap();
    assert_eq!(
        codec.invalid_type(&Node::Unit).to_string(),
        "invalid type: unit value, expected a string or a boolean or a map"
    );
}

#[test]
fn codec_routes_by_shape() {
    let attrs = Attributes { visit: visits(&["i64", "map"]), expecting: Some("a thing".to_string()) };
    let codec = CodecSpec::build(&attrs, &all_conversions()).unwrap();
    let shapes = codec.implementations();
    assert!(shapes.should_add_i64() && shapes.should_add_u64() && !shapes.should_add_f64());
    assert_eq!(codec.route(&Node::Unsigned(3)), Route::U64);
    assert_eq!(codec.route(&Node::Signed(-3)), Route::I64);
    assert_eq!(codec.route(&Node::Mapping(vec![])), Route::Mapping);
    assert_eq!(codec.route(&Node::Str("x".to_string())), Route::Reject);
    assert_eq!(
        codec.invalid_type(&Node::Str("x".to_string())).to_string(),
        "invalid type: string \"x\", expected a thing"
    );
    assert_eq!(
        codec.invalid_value(&Node::Signed(-12)).to_string(),
        "invalid value: integer `-12`, expected a thing"
    );
    assert_eq!(Implementations::none().should_add_u64(), false);
}

#[test]
fn spanned_steps() {
    let mut state = SpannedMapAccessState::StartKey;
    let mut fields = Vec::new();
    while let Ok(Some((field, next))) = state.next_key() {
        let (value_field, after) = next.next_value().unwrap();
        assert_eq!(field, value_field);
        fields.push(field);
        state = after;
    }
    assert_eq!(fields, vec![SpannedField::Start, SpannedField::Value, SpannedField::Length]);
    assert_eq!(state, SpannedMapAccessState::Done);
    assert!(SpannedMapAccessState::DeserializeValue.next_key().is_err());
    assert!(SpannedMapAccessState::Done.next_value().is_none());
}
