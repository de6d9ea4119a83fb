use act::error::{Error, ExpectationError, ExpressionError, ValueError};

#[test]
fn error_display() {
    assert_eq!(
        Error::Expression(ExpressionError::new("x")).to_string(),
        r#"not a valid string expression: "x""#
    );
}

#[test]
fn error_expression() {
    assert_eq!(
        Error::Expression(ExpressionError::new("x")).to_string(),
        r#"not a valid string expression: "x""#
    );
}

#[test]
fn expression_error_display() {
    assert_eq!(
        ExpressionError::new("x").to_string(),
        r#"not a valid string expression: "x""#
    );
}

#[test]
fn expression_display_with_expecting() {
    assert_eq!(
        ExpressionError::expecting("x", "a string matching xyz").to_string(),
        r#"not a valid string expression: "x", expecting a string matching xyz"#
    );
}

#[test]
fn expression_error() {
    assert_eq!(
        Error::Expression(ExpressionError::new("x")).to_string(),
        r#"not a valid string expression: "x""#
    );
}

#[test]
fn expectation_display() {
    assert_eq!(ExpectationError::new("x").to_string(), r#"not a valid value: "x""#);
}

#[test]
fn expectation_display_with_expecting() {
    assert_eq!(
        ExpectationError::with_prefix(
            "not a valid value type",
            "x",
            Some("a string matching xyz".to_string())
        )
        .to_string(),
        r#"not a valid value type: "x", expecting a string matching xyz"#
    );
}

#[test]
fn expectation_expecting_uses_value_prefix() {
    assert_eq!(
        ExpectationError::expecting("x", "a number").to_string(),
        r#"not a valid value: "x", expecting a number"#
    );
}

#[test]
fn value_error_display() {
    assert_eq!(ValueError::new("y").to_string(), r#"not a valid value: "y""#);
    assert_eq!(
        Error::from(ValueError::expecting("y", "z")).to_string(),
        r#"not a valid value: "y", expecting z"#
    );
}

#[test]
fn error_from_expression_error() {
    assert_eq!(
        Error::from(ExpressionError::new("x")),
        Error::Expression(ExpressionError::new("x"))
    );
}
