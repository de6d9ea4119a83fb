//! The shaped-error model: what was rejected, and what was expected instead.

use vstd::prelude::*;
use crate::text::{decimal, push_decimal, push_signed_decimal, signed_decimal};

verus! {

/// The prefix of a general value mismatch.
pub const VALUE_PREFIX: &'static str = "not a valid value";

/// The prefix of a mismatch in the expression grammars.
pub const EXPRESSION_PREFIX: &'static str = "not a valid string expression";

/// What an [`ExpectationError`] holds.
pub ghost struct ExpectationView {
    pub prefix: Seq<char>,
    pub actual: Seq<char>,
    pub expecting: Option<Seq<char>>,
}

/// `<prefix>: "<actual>"`, followed by `, expecting <expected>` when an
/// expectation is present.
pub open spec fn expectation_text(v: ExpectationView) -> Seq<char> {
    match v.expecting {
        Some(e) => v.prefix + ": \""@ + v.actual + "\", expecting "@ + e,
        None => v.prefix + ": \""@ + v.actual + "\""@,
    }
}

/// A value did not match a required description.
#[derive(Debug, Clone, PartialEq, Eq)]
pub struct ExpectationError {
    prefix: String,
    actual: String,
    expecting: Option<String>,
}

impl View for ExpectationError {
    type V = ExpectationView;

    closed spec fn view(&self) -> ExpectationView {
        ExpectationView {
            prefix: self.prefix@,
            actual: self.actual@,
            expecting: match self.expecting {
                Some(e) => Some(e@),
                None => None,
            },
        }
    }
}

impl ExpectationError {
    /// A value error on `actual`, with no expectation.
    pub fn new(actual: &str) -> (r: Self)
        ensures
            r@ == (ExpectationView { prefix: VALUE_PREFIX@, actual: actual@, expecting: None }),
    {
        Self::with_prefix(VALUE_PREFIX, actual, None)
    }

    /// A value error on `actual` that names what was expected.
    pub fn expecting(actual: &str, expecting: &str) -> (r: Self)
        ensures
            r@ == (ExpectationView {
                prefix: VALUE_PREFIX@,
                actual: actual@,
                expecting: Some(expecting@),
            }),
    {
        Self::with_prefix(VALUE_PREFIX, actual, Some(String::from_str(expecting)))
    }

    /// An error with the given prefix, rejected text and expectation.
    pub fn with_prefix(prefix: &str, actual: &str, expecting: Option<String>) -> (r: Self)
        ensures
            r@ == (ExpectationView {
                prefix: prefix@,
                actual: actual@,
                expecting: match expecting {
                    Some(e) => Some(e@),
                    None => None,
                },
            }),
    {
        Self {
            prefix: String::from_str(prefix),
            actual: String::from_str(actual),
            expecting,
        }
    }

    /// The rejected text.
    pub fn actual(&self) -> (r: &str)
        ensures
            r@ == self@.actual,
    {
        self.actual.as_str()
    }

    /// The error as text.
    pub fn to_string(&self) -> (r: String)
        ensures
            r@ == expectation_text(self@),
    {
        let mut out = String::new();
        out.append(self.prefix.as_str());
        out.append(": \"");
        out.append(self.actual.as_str());
        match &self.expecting {
            Some(e) => {
                out.append("\", expecting ");
                out.append(e.as_str());
            },
            None => {
                out.append("\"");
            },
        }
        out
    }
}

/// A text value did not match an expression grammar.
#[derive(Debug, Clone, PartialEq, Eq)]
pub struct ExpressionError {
    expectation: ExpectationError,
}

impl View for ExpressionError {
    type V = ExpectationView;

    closed spec fn view(&self) -> ExpectationView {
        self.expectation@
    }
}

impl ExpressionError {
    /// An expression error on `actual`.
    pub fn new(actual: &str) -> (r: Self)
        ensures
            r@ == (ExpectationView { prefix: EXPRESSION_PREFIX@, actual: actual@, expecting: None }),
    {
        Self { expectation: ExpectationError::with_prefix(EXPRESSION_PREFIX, actual, None) }
    }

    /// An expression error on `actual` that names the grammar expected.
    pub fn expecting(actual: &str, expecting: &str) -> (r: Self)
        ensures
            r@ == (ExpectationView {
                prefix: EXPRESSION_PREFIX@,
                actual: actual@,
                expecting: Some(expecting@),
            }),
    {
        Self {
            expectation: ExpectationError::with_prefix(
                EXPRESSION_PREFIX,
                actual,
                Some(String::from_str(expecting)),
            ),
        }
    }

    /// The error as text.
    pub fn to_string(&self) -> (r: String)
        ensures
            r@ == expectation_text(self@),
    {
        self.expectation.to_string()
    }
}

/// A value of the right type broke a rule on its contents.
#[derive(Debug, Clone, PartialEq, Eq)]
pub struct ValueError {
    value: ExpectationError,
}

impl View for ValueError {
    type V = ExpectationView;

    closed spec fn view(&self) -> ExpectationView {
        self.value@
    }
}

impl ValueError {
    /// A value error on `actual`.
    pub fn new(actual: &str) -> (r: Self)
        ensures
            r@ == (ExpectationView { prefix: VALUE_PREFIX@, actual: actual@, expecting: None }),
    {
        Self { value: ExpectationError::new(actual) }
    }

    /// A value error on `actual` that names what was expected.
    pub fn expecting(actual: &str, expecting: &str) -> (r: Self)
        ensures
            r@ == (ExpectationView {
                prefix: VALUE_PREFIX@,
                actual: actual@,
                expecting: Some(expecting@),
            }),
    {
        Self { value: ExpectationError::expecting(actual, expecting) }
    }

    /// The error as text.
    pub fn to_string(&self) -> (r: String)
        ensures
            r@ == expectation_text(self@),
    {
        self.value.to_string()
    }
}

/// An error raised while building a value from text.
#[derive(Debug, Clone, PartialEq, Eq)]
pub enum Error {
    /// The text did not match an expression grammar.
    Expression(ExpressionError),
    /// The value broke a rule on its contents.
    Value(ValueError),
}

/// The text of an [`Error`].
pub open spec fn error_text(e: Error) -> Seq<char> {
    match e {
        Error::Expression(x) => expectation_text(x@),
        Error::Value(x) => expectation_text(x@),
    }
}

impl Error {
    /// The error as text.
    pub fn to_string(&self) -> (r: String)
        ensures
            r@ == error_text(*self),
    {
        match self {
            Error::Expression(x) => x.to_string(),
            Error::Value(x) => x.to_string(),
        }
    }
}

impl From<ExpressionError> for Error {
    fn from(err: ExpressionError) -> (r: Error)
        ensures
            r == Error::Expression(err),
    {
        Error::Expression(err)
    }
}

impl vstd::std_specs::convert::FromSpecImpl<ExpressionError> for Error {
    open spec fn obeys_from_spec() -> bool {
        true
    }

    open spec fn from_spec(v: ExpressionError) -> Error {
        Error::Expression(v)
    }
}

impl From<ValueError> for Error {
    fn from(err: ValueError) -> (r: Error)
        ensures
            r == Error::Value(err),
    {
        Error::Value(err)
    }
}

impl vstd::std_specs::convert::FromSpecImpl<ValueError> for Error {
    open spec fn obeys_from_spec() -> bool {
        true
    }

    open spec fn from_spec(v: ValueError) -> Error {
        Error::Value(v)
    }
}

/// `e` is an expression error on `actual` that names `expecting`.
pub open spec fn is_expression_error(e: Error, actual: Seq<char>, expecting: Seq<char>) -> bool {
    match e {
        Error::Expression(x) => x@ == (ExpectationView {
            prefix: EXPRESSION_PREFIX@,
            actual: actual,
            expecting: Some(expecting),
        }),
        _ => false,
    }
}

/// `e` is a value error on `actual` with no expectation.
pub open spec fn is_value_error(e: Error, actual: Seq<char>) -> bool {
    match e {
        Error::Value(x) => x@ == (ExpectationView {
            prefix: VALUE_PREFIX@,
            actual: actual,
            expecting: None,
        }),
        _ => false,
    }
}

/// A failure of the document-level encode boundary: a value that must not be
/// written out.
#[derive(Debug, Clone, PartialEq, Eq)]
pub struct EncodeError {
    message: String,
}

impl View for EncodeError {
    type V = Seq<char>;

    closed spec fn view(&self) -> Seq<char> {
        self.message@
    }
}

impl EncodeError {
    /// An encode failure with the given message.
    pub fn custom(message: &str) -> (r: Self)
        ensures
            r@ == message@,
    {
        EncodeError { message: String::from_str(message) }
    }

    /// The error as text.
    pub fn to_string(&self) -> (r: String)
        ensures
            r@ == self@,
    {
        String::from_str(self.message.as_str())
    }
}

/// What a document held where a value was rejected.
#[derive(Debug, Clone, PartialEq, Eq)]
pub enum Unexpected {
    Bool(bool),
    Unsigned(u64),
    Signed(i64),
    /// A floating-point number, as the decimal text that denotes it.
    Float(String),
    Str(String),
    Unit,
    Option,
    Sequence,
    Mapping,
}

/// How a rejected value is named in a diagnostic.
pub open spec fn unexpected_text(u: Unexpected) -> Seq<char> {
    match u {
        Unexpected::Bool(b) => "boolean `"@ + (if b { "true"@ } else { "false"@ }) + "`"@,
        Unexpected::Unsigned(n) => "integer `"@ + decimal(n as nat) + "`"@,
        Unexpected::Signed(n) => "integer `"@ + signed_decimal(n as int) + "`"@,
        Unexpected::Float(f) => "floating point `"@ + f@ + "`"@,
        Unexpected::Str(s) => "string \""@ + s@ + "\""@,
        Unexpected::Unit => "unit value"@,
        Unexpected::Option => "Option value"@,
        Unexpected::Sequence => "sequence"@,
        Unexpected::Mapping => "map"@,
    }
}

impl Unexpected {
    /// Appends how this value is named in a diagnostic to `out`.
    pub fn push_text(&self, out: &mut String)
        ensures
            final(out)@ == old(out)@ + unexpected_text(*self),
    {
        match self {
            Unexpected::Bool(b) => {
                out.append("boolean `");
                if *b {
                    out.append("true");
                } else {
                    out.append("false");
                }
                out.append("`");
            },
            Unexpected::Unsigned(n) => {
                out.append("integer `");
                push_decimal(out, *n);
                out.append("`");
            },
            Unexpected::Signed(n) => {
                out.append("integer `");
                push_signed_decimal(out, *n);
                out.append("`");
            },
            Unexpected::Float(f) => {
                out.append("floating point `");
                out.append(f.as_str());
                out.append("`");
            },
            Unexpected::Str(s) => {
                out.append("string \"");
                out.append(s.as_str());
                out.append("\"");
            },
            Unexpected::Unit => out.append("unit value"),
            Unexpected::Option => out.append("Option value"),
            Unexpected::Sequence => out.append("sequence"),
            Unexpected::Mapping => out.append("map"),
        }
        assert(out@ =~= old(out)@ + unexpected_text(*self));
    }
}

/// A failure of the document-level decode boundary.
#[derive(Debug, Clone, PartialEq, Eq)]
pub enum DecodeError {
    /// A value of a kind that the target does not accept.
    InvalidType { unexpected: Unexpected, expected: String },
    /// A value of an accepted kind whose contents were rejected.
    InvalidValue { unexpected: Unexpected, expected: String },
    /// A required field was absent.
    MissingField(String),
    /// A field that the target does not know, with the fields it knows
    /// already listed (`` `a` or `b` ``).
    UnknownField { field: String, expected: String },
    /// A failure described by its message alone.
    Custom(String),
}

/// The text of a [`DecodeError`].
pub open spec fn decode_error_text(e: DecodeError) -> Seq<char> {
    match e {
        DecodeError::InvalidType { unexpected, expected } =>
            "invalid type: "@ + unexpected_text(unexpected) + ", expected "@ + expected@,
        DecodeError::InvalidValue { unexpected, expected } =>
            "invalid value: "@ + unexpected_text(unexpected) + ", expected "@ + expected@,
        DecodeError::MissingField(f) => "missing field `"@ + f@ + "`"@,
        DecodeError::UnknownField { field, expected } =>
            "unknown field `"@ + field@ + "`, expected "@ + expected@,
        DecodeError::Custom(m) => m@,
    }
}

impl DecodeError {
    /// The error as text.
    pub fn to_string(&self) -> (r: String)
        ensures
            r@ == decode_error_text(*self),
    {
        let mut out = String::new();
        match self {
            DecodeError::InvalidType { unexpected, expected } => {
                out.append("invalid type: ");
                unexpected.push_text(&mut out);
                out.append(", expected ");
                out.append(expected.as_str());
            },
            DecodeError::InvalidValue { unexpected, expected } => {
                out.append("invalid value: ");
                unexpected.push_text(&mut out);
                out.append(", expected ");
                out.append(expected.as_str());
            },
            DecodeError::MissingField(f) => {
                out.append("missing field `");
                out.append(f.as_str());
                out.append("`");
            },
            DecodeError::UnknownField { field, expected } => {
                out.append("unknown field `");
                out.append(field.as_str());
                out.append("`, expected ");
                out.append(expected.as_str());
            },
            DecodeError::Custom(m) => {
                out.append(m.as_str());
            },
        }
        assert(out@ =~= decode_error_text(*self));
        out
    }
}

} // verus!
