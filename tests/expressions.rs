use act::error::{Error, ExpressionError};
use act::expression::{Expression, InString, InSyntax, StringOnly};
use act::grammar::{contains_marker, IN_BRACE_PATTERN, IN_STRING_PATTERN};

#[test]
fn expression_display() {
    assert_eq!(
        Expression::in_syntax("${{ x }}").unwrap().as_str(),
        r#"${{ x }}"#
    );
    assert_eq!(
        ExpressionError::new("x").to_string(),
        r#"not a valid string expression: "x""#
    );
}

#[test]
fn expression_in_string_display() {
    assert_eq!(InString::new("${{ x }}").unwrap().as_str(), r#"${{ x }}"#);
}

#[test]
fn mod_display() {
    assert_eq!(
        Expression::in_syntax("${{ x }}").unwrap().as_str(),
        r#"${{ x }}"#
    );
    assert_eq!(
        Error::Expression(ExpressionError::new("x")).to_string(),
        r#"not a valid string expression: "x""#
    );
}

#[test]
fn in_string_in_string() {
    assert_eq!(
        InString::new("abc=${{ inputs.abc }}").unwrap(),
        InString::must_new("abc=${{ inputs.abc }}")
    );
}

#[test]
fn must_in_string() {
    assert_eq!(
        InString::must_new("abc=${{ inputs.abc }}"),
        InString::new("abc=${{ inputs.abc }}").unwrap()
    );
}

#[test]
fn in_syntax() {
    assert_eq!(
        InSyntax::new("${{ inputs.abc }}").unwrap(),
        InSyntax::must_new("${{ inputs.abc }}")
    );
}

#[test]
fn must_in_syntax() {
    assert_eq!(
        InSyntax::must_new("${{ inputs.abc }}"),
        InSyntax::new("${{ inputs.abc }}").unwrap()
    );
}

#[test]
fn string_only() {
    assert_eq!(
        StringOnly::new("inputs.abc").unwrap(),
        StringOnly::must_new("inputs.abc")
    );
}

#[test]
fn must_string_only() {
    assert_eq!(
        StringOnly::must_new("inputs.abc"),
        StringOnly::new("inputs.abc").unwrap()
    );
}

#[test]
fn string_only_rejects_marker() {
    assert_eq!(
        StringOnly::new("a ${{ b }}").unwrap_err().to_string(),
        "not a valid string expression: \"a ${{ b }}\", expecting a string without `${{`"
    );
}

#[test]
fn in_syntax_rejects_partial_wrap() {
    assert_eq!(
        InSyntax::new("x ${{ y }}").unwrap_err().to_string(),
        format!("not a valid string expression: \"x ${{{{ y }}}}\", expecting a string matching {IN_BRACE_PATTERN}")
    );
    assert!(InSyntax::new("${{}").is_err());
    assert!(InSyntax::new("${{}}").is_ok());
}

#[test]
fn in_string_needs_single_line_edges() {
    assert!(InString::new("a ${{ b }} c").is_ok());
    assert!(InString::new("${{ a\nb }}").is_ok());
    assert!(InString::new("a\n${{ b }}").is_err());
    assert!(InString::new("${{ b }}\nc").is_err());
    assert_eq!(
        InString::new("inputs.ABC").unwrap_err().to_string(),
        format!("not a valid string expression: \"inputs.ABC\", expecting a string matching {IN_STRING_PATTERN}")
    );
}

#[test]
fn classify_plain_text() {
    let e = Expression::classify("inputs.abc").unwrap();
    assert_eq!(e, Expression::StringOnly(StringOnly::must_new("inputs.abc")));
    assert_eq!(e.encode().unwrap(), "inputs.abc");
    assert_eq!(
        Expression::classify("").unwrap(),
        Expression::StringOnly(StringOnly::must_new(""))
    );
}

#[test]
fn classify_full_wrap_with_newline() {
    let e = Expression::classify("${{ a &&\n b }}").unwrap();
    assert_eq!(e, Expression::InSyntax(InSyntax::must_new("${{ a &&\n b }}")));
}

#[test]
fn classify_embedded() {
    assert_eq!(
        Expression::classify("abc${{ x }}def").unwrap(),
        Expression::in_string("abc${{ x }}def").unwrap()
    );
}

#[test]
fn classify_unbalanced_marker_error_text() {
    let err = Expression::classify("abc ${{").unwrap_err();
    assert_eq!(
        err.to_string(),
        format!(r#"invalid value: string "abc ${{{{", expected a expression string without "${{{{" or a expression string matching one of {IN_BRACE_PATTERN} or {IN_STRING_PATTERN}"#)
    );
}

#[test]
fn classify_round_trip() {
    for s in ["plain", "${{ x }}", "a ${{ x }} b", "${{}}"] {
        let v = Expression::classify(s).unwrap();
        let text = v.encode().unwrap();
        assert_eq!(text, s);
        assert_eq!(Expression::classify(&text).unwrap(), v);
    }
}

#[test]
fn classify_twice_is_equal() {
    for s in ["plain", "${{ x }}", "a ${{ x }} b", "abc ${{"] {
        let a = Expression::classify(s).map_err(|e| e.to_string());
        let b = Expression::classify(s).map_err(|e| e.to_string());
        assert_eq!(a, b);
    }
}

#[test]
fn expression_new_names_all_grammars() {
    assert_eq!(
        Expression::new("abc ${{").unwrap_err().to_string(),
        format!(r#"not a valid string expression: "abc ${{{{", expecting a expression string without "${{{{" or a expression string matching one of {IN_BRACE_PATTERN} or {IN_STRING_PATTERN}"#)
    );
    assert_eq!(
        Expression::new("${{ x }}").unwrap(),
        Expression::in_syntax("${{ x }}").unwrap()
    );
}

#[test]
fn string_only_constructor_of_union() {
    assert!(Expression::string_only("${{ x }}").is_err());
    assert_eq!(Expression::string_only("x").unwrap().as_str(), "x");
}

#[test]
fn marker_search() {
    assert!(contains_marker("a${{"));
    assert!(!contains_marker("a${ {"));
    assert!(!contains_marker("${"));
}
