//! The three pattern classifiers and their tagged union.

use vstd::prelude::*;
use crate::codec::{CodecSpec, Implementations, Route};
use crate::error::{
    DecodeError, EncodeError, Error, ExpressionError, Unexpected, decode_error_text,
    is_expression_error,
};
use crate::grammar::{
    contains_marker, has_marker, is_embedded, is_full_wrap, lemma_full_wrap_has_marker,
    matches_embedded, matches_full_wrap, IN_BRACE_PATTERN, IN_STRING_PATTERN,
};
use crate::node::{names, Node};

verus! {

/// What [`StringOnly::new`] says it expected.
pub const STRING_ONLY_RULE: &'static str = "a string without `${{`";

/// What a document decoder says it expected of a [`StringOnly`].
pub const STRING_ONLY_EXPECTING: &'static str = "a string without \"${{\"";

/// What [`InSyntax`] expects, in its errors.
pub open spec fn in_syntax_expecting() -> Seq<char> {
    "a string matching "@ + IN_BRACE_PATTERN@
}

/// What [`InString`] expects, in its errors.
pub open spec fn in_string_expecting() -> Seq<char> {
    "a string matching "@ + IN_STRING_PATTERN@
}

/// What [`Expression`] expects, in its errors.
pub open spec fn expression_expecting() -> Seq<char> {
    "a expression string without \"${{\" or a expression string matching one of "@
        + IN_BRACE_PATTERN@ + " or "@ + IN_STRING_PATTERN@
}

fn matching_text(pattern: &str) -> (r: String)
    ensures
        r@ == "a string matching "@ + pattern@,
{
    let mut r = String::from_str("a string matching ");
    r.append(pattern);
    r
}

/// The text of [`expression_expecting`].
pub fn expression_expecting_text() -> (r: String)
    ensures
        r@ == expression_expecting(),
{
    let mut r = String::from_str(
        "a expression string without \"${{\" or a expression string matching one of ",
    );
    r.append(IN_BRACE_PATTERN);
    r.append(" or ");
    r.append(IN_STRING_PATTERN);
    r
}

/// `r` is the decoder's rejection of the text `s` under `expecting`.
pub open spec fn rejects_text(r: DecodeError, s: Seq<char>, expecting: Seq<char>) -> bool {
    match r {
        DecodeError::InvalidValue { unexpected: Unexpected::Str(t), expected } =>
            t@ == s && expected@ == expecting,
        _ => false,
    }
}

/// `r` is the decoder's rejection of a node of a shape not accepted.
pub open spec fn rejects_shape(r: DecodeError, n: Node, expecting: Seq<char>) -> bool {
    match r {
        DecodeError::InvalidType { unexpected, expected } =>
            names(unexpected, n) && expected@ == expecting,
        _ => false,
    }
}

fn reject_text(s: &str, expecting: &str) -> (r: DecodeError)
    ensures
        rejects_text(r, s@, expecting@),
{
    DecodeError::InvalidValue {
        unexpected: Unexpected::Str(String::from_str(s)),
        expected: String::from_str(expecting),
    }
}

fn text_only_codec(expecting: &str) -> (r: CodecSpec)
    ensures
        r.impls() == (Implementations {
            str_: true,
            bool_: false,
            f64_: false,
            i64_: false,
            u64_: false,
            number: false,
            map: false,
        }),
        r.expecting() == expecting@,
{
    let mut impls = Implementations::none();
    impls.str_ = true;
    CodecSpec::with_shapes(impls, expecting)
}

/// Text that does not contain the expression marker `${{`.
#[derive(Debug, PartialEq, Eq)]
pub struct StringOnly(String);

impl View for StringOnly {
    type V = Seq<char>;

    closed spec fn view(&self) -> Seq<char> {
        self.0@
    }
}

impl StringOnly {
    #[verifier::type_invariant]
    spec fn inv(self) -> bool {
        !has_marker(self.0@)
    }

    /// The text.
    pub fn as_str(&self) -> (r: &str)
        ensures
            r@ == self@,
            !has_marker(r@),
    {
        proof {
            use_type_invariant(self);
        }
        self.0.as_str()
    }

    /// Accepts `s` when it does not contain the marker.
    pub fn new(s: &str) -> (r: Result<Self, Error>)
        ensures
            match r {
                Ok(v) => !has_marker(s@) && v@ == s@,
                Err(e) => has_marker(s@) && is_expression_error(e, s@, STRING_ONLY_RULE@),
            },
    {
        if contains_marker(s) {
            Err(Error::Expression(ExpressionError::expecting(s, STRING_ONLY_RULE)))
        } else {
            Ok(StringOnly(String::from_str(s)))
        }
    }

    /// Accepts `s`, which must not contain the marker.
    pub fn must_new(s: &str) -> (r: Self)
        requires
            !has_marker(s@),
        ensures
            r@ == s@,
    {
        match Self::new(s) {
            Ok(v) => v,
            Err(_) => {
                assert(false);
                StringOnly(String::new())
            },
        }
    }

    /// Decodes a document node: text without the marker.
    pub fn decode(n: &Node) -> (r: Result<Self, DecodeError>)
        ensures
            match *n {
                Node::Str(s) => match r {
                    Ok(v) => !has_marker(s@) && v@ == s@,
                    Err(e) => has_marker(s@) && rejects_text(e, s@, STRING_ONLY_EXPECTING@),
                },
                _ => match r {
                    Ok(_) => false,
                    Err(e) => rejects_shape(e, *n, STRING_ONLY_EXPECTING@),
                },
            },
    {
        let codec = text_only_codec(STRING_ONLY_EXPECTING);
        match n {
            Node::Str(s) => match Self::new(s.as_str()) {
                Ok(v) => Ok(v),
                Err(_) => Err(reject_text(s.as_str(), STRING_ONLY_EXPECTING)),
            },
            _ => Err(codec.invalid_type(n)),
        }
    }

    /// The text to write out, checked once more against the grammar.
    pub fn encode(&self) -> (r: Result<String, EncodeError>)
        ensures
            r is Ok,
            r->Ok_0@ == self@,
    {
        proof {
            use_type_invariant(self);
        }
        if contains_marker(self.0.as_str()) {
            Err(EncodeError::custom(STRING_ONLY_EXPECTING))
        } else {
            Ok(String::from_str(self.0.as_str()))
        }
    }
}

/// An expression that spans the whole text: `${{ ... }}`.
#[derive(Debug, PartialEq, Eq)]
pub struct InSyntax(String);

impl View for InSyntax {
    type V = Seq<char>;

    closed spec fn view(&self) -> Seq<char> {
        self.0@
    }
}

impl InSyntax {
    #[verifier::type_invariant]
    spec fn inv(self) -> bool {
        is_full_wrap(self.0@)
    }

    /// The text.
    pub fn as_str(&self) -> (r: &str)
        ensures
            r@ == self@,
            is_full_wrap(r@),
    {
        proof {
            use_type_invariant(self);
        }
        self.0.as_str()
    }

    /// Accepts `s` when it is a fully wrapped expression.
    pub fn new(s: &str) -> (r: Result<Self, Error>)
        ensures
            match r {
                Ok(v) => is_full_wrap(s@) && v@ == s@,
                Err(e) => !is_full_wrap(s@) && is_expression_error(e, s@, in_syntax_expecting()),
            },
    {
        if !matches_full_wrap(s) {
            let expecting = matching_text(IN_BRACE_PATTERN);
            Err(Error::Expression(ExpressionError::expecting(s, expecting.as_str())))
        } else {
            Ok(InSyntax(String::from_str(s)))
        }
    }

    /// Accepts `s`, which must be a fully wrapped expression.
    pub fn must_new(s: &str) -> (r: Self)
        requires
            is_full_wrap(s@),
        ensures
            r@ == s@,
    {
        match Self::new(s) {
            Ok(v) => v,
            Err(_) => {
                assert(false);
                InSyntax(String::new())
            },
        }
    }

    /// Decodes a document node: a fully wrapped expression.
    pub fn decode(n: &Node) -> (r: Result<Self, DecodeError>)
        ensures
            match *n {
                Node::Str(s) => match r {
                    Ok(v) => is_full_wrap(s@) && v@ == s@,
                    Err(e) => !is_full_wrap(s@) && rejects_text(e, s@, in_syntax_expecting()),
                },
                _ => match r {
                    Ok(_) => false,
                    Err(e) => rejects_shape(e, *n, in_syntax_expecting()),
                },
            },
    {
        let expecting = matching_text(IN_BRACE_PATTERN);
        let codec = text_only_codec(expecting.as_str());
        match n {
            Node::Str(s) => match Self::new(s.as_str()) {
                Ok(v) => Ok(v),
                Err(_) => Err(reject_text(s.as_str(), expecting.as_str())),
            },
            _ => Err(codec.invalid_type(n)),
        }
    }

    /// The text to write out, checked once more against the grammar.
    pub fn encode(&self) -> (r: Result<String, EncodeError>)
        ensures
            r is Ok,
            r->Ok_0@ == self@,
    {
        proof {
            use_type_invariant(self);
        }
        if !matches_full_wrap(self.0.as_str()) {
            let expecting = matching_text(IN_BRACE_PATTERN);
            Err(EncodeError::custom(expecting.as_str()))
        } else {
            Ok(String::from_str(self.0.as_str()))
        }
    }
}

/// Text with an expression somewhere inside it: `... ${{ ... }} ...`.
#[derive(Debug, PartialEq, Eq)]
pub struct InString(String);

impl View for InString {
    type V = Seq<char>;

    closed spec fn view(&self) -> Seq<char> {
        self.0@
    }
}

impl InString {
    #[verifier::type_invariant]
    spec fn inv(self) -> bool {
        is_embedded(self.0@)
    }

    /// The text.
    pub fn as_str(&self) -> (r: &str)
        ensures
            r@ == self@,
            is_embedded(r@),
    {
        proof {
            use_type_invariant(self);
        }
        self.0.as_str()
    }

    /// Accepts `s` when it holds an embedded expression.
    pub fn new(s: &str) -> (r: Result<Self, Error>)
        ensures
            match r {
                Ok(v) => is_embedded(s@) && v@ == s@,
                Err(e) => !is_embedded(s@) && is_expression_error(e, s@, in_string_expecting()),
            },
    {
        if !matches_embedded(s) {
            let expecting = matching_text(IN_STRING_PATTERN);
            Err(Error::Expression(ExpressionError::expecting(s, expecting.as_str())))
        } else {
            Ok(InString(String::from_str(s)))
        }
    }

    /// Accepts `s`, which must hold an embedded expression.
    pub fn must_new(s: &str) -> (r: Self)
        requires
            is_embedded(s@),
        ensures
            r@ == s@,
    {
        match Self::new(s) {
            Ok(v) => v,
            Err(_) => {
                assert(false);
                InString(String::new())
            },
        }
    }

    /// Decodes a document node: text holding an embedded expression.
    pub fn decode(n: &Node) -> (r: Result<Self, DecodeError>)
        ensures
            match *n {
                Node::Str(s) => match r {
                    Ok(v) => is_embedded(s@) && v@ == s@,
                    Err(e) => !is_embedded(s@) && rejects_text(e, s@, in_string_expecting()),
                },
                _ => match r {
                    Ok(_) => false,
                    Err(e) => rejects_shape(e, *n, in_string_expecting()),
                },
            },
    {
        let expecting = matching_text(IN_STRING_PATTERN);
        let codec = text_only_codec(expecting.as_str());
        match n {
            Node::Str(s) => match Self::new(s.as_str()) {
                Ok(v) => Ok(v),
                Err(_) => Err(reject_text(s.as_str(), expecting.as_str())),
            },
            _ => Err(codec.invalid_type(n)),
        }
    }

    /// The text to write out, checked once more against the grammar.
    pub fn encode(&self) -> (r: Result<String, EncodeError>)
        ensures
            r is Ok,
            r->Ok_0@ == self@,
    {
        proof {
            use_type_invariant(self);
        }
        if !matches_embedded(self.0.as_str()) {
            let expecting = matching_text(IN_STRING_PATTERN);
            Err(EncodeError::custom(expecting.as_str()))
        } else {
            Ok(String::from_str(self.0.as_str()))
        }
    }
}

/// Which grammar a text value belongs to, with the text.
pub ghost enum ExpressionView {
    StringOnly(Seq<char>),
    InSyntax(Seq<char>),
    InString(Seq<char>),
}

impl ExpressionView {
    /// The text of the value.
    pub open spec fn text(self) -> Seq<char> {
        match self {
            ExpressionView::StringOnly(s) => s,
            ExpressionView::InSyntax(s) => s,
            ExpressionView::InString(s) => s,
        }
    }
}

/// The grammar that `s` is tagged with, trying plain text first, then a full
/// wrap, then an embedded expression; `None` when no grammar matches.
pub open spec fn classify_spec(s: Seq<char>) -> Option<ExpressionView> {
    if !has_marker(s) {
        Some(ExpressionView::StringOnly(s))
    } else if is_full_wrap(s) {
        Some(ExpressionView::InSyntax(s))
    } else if is_embedded(s) {
        Some(ExpressionView::InString(s))
    } else {
        None
    }
}

/// A text value in one of the three grammars.
#[derive(Debug, PartialEq, Eq)]
pub enum Expression {
    /// Text without `${{`.
    StringOnly(StringOnly),
    /// Text that matches [`IN_BRACE_PATTERN`].
    InSyntax(InSyntax),
    /// Text that matches [`IN_STRING_PATTERN`].
    InString(InString),
}

impl View for Expression {
    type V = ExpressionView;

    open spec fn view(&self) -> ExpressionView {
        match self {
            Expression::StringOnly(v) => ExpressionView::StringOnly(v@),
            Expression::InSyntax(v) => ExpressionView::InSyntax(v@),
            Expression::InString(v) => ExpressionView::InString(v@),
        }
    }
}

/// What [`Expression::classify`] returns for the text `s`.
pub open spec fn classify_post(s: Seq<char>, r: Result<Expression, DecodeError>) -> bool {
    match r {
        Ok(v) => classify_spec(s) == Some(v@),
        Err(e) => classify_spec(s) is None && rejects_text(e, s, expression_expecting()),
    }
}

/// The outcome of a classification, with an error taken as its text.
pub open spec fn outcome_view(r: Result<Expression, DecodeError>) -> Result<ExpressionView, Seq<char>> {
    match r {
        Ok(v) => Ok(v@),
        Err(e) => Err(decode_error_text(e)),
    }
}

/// Text without the marker is tagged as plain text, and that value is written
/// out as the same text.
pub proof fn law_plain_text(s: Seq<char>)
    requires
        !has_marker(s),
    ensures
        classify_spec(s) == Some(ExpressionView::StringOnly(s)),
        ExpressionView::StringOnly(s).text() == s,
{
}

/// A value that classification produced, written out as its text and
/// classified again, comes back as the same value.
pub proof fn law_round_trip(s: Seq<char>, v: ExpressionView)
    requires
        classify_spec(s) == Some(v),
    ensures
        v.text() == s,
        classify_spec(v.text()) == Some(v),
{
}

/// Classifying the same text twice gives equal outcomes: the value, or the
/// same error text.
pub proof fn law_classify_deterministic(
    s: Seq<char>,
    r1: Result<Expression, DecodeError>,
    r2: Result<Expression, DecodeError>,
)
    requires
        classify_post(s, r1),
        classify_post(s, r2),
    ensures
        outcome_view(r1) == outcome_view(r2),
{
}

impl Expression {
    /// The text of the value.
    pub fn as_str(&self) -> (r: &str)
        ensures
            r@ == self@.text(),
    {
        match self {
            Expression::StringOnly(s) => s.as_str(),
            Expression::InSyntax(s) => s.as_str(),
            Expression::InString(s) => s.as_str(),
        }
    }

    /// Plain text, tagged as such.
    pub fn string_only(s: &str) -> (r: Result<Self, Error>)
        ensures
            match r {
                Ok(v) => !has_marker(s@) && v@ == ExpressionView::StringOnly(s@),
                Err(e) => has_marker(s@) && is_expression_error(e, s@, STRING_ONLY_RULE@),
            },
    {
        match StringOnly::new(s) {
            Ok(v) => Ok(Expression::StringOnly(v)),
            Err(e) => Err(e),
        }
    }

    /// A fully wrapped expression, tagged as such.
    pub fn in_syntax(s: &str) -> (r: Result<Self, Error>)
        ensures
            match r {
                Ok(v) => is_full_wrap(s@) && v@ == ExpressionView::InSyntax(s@),
                Err(e) => !is_full_wrap(s@) && is_expression_error(e, s@, in_syntax_expecting()),
            },
    {
        match InSyntax::new(s) {
            Ok(v) => Ok(Expression::InSyntax(v)),
            Err(e) => Err(e),
        }
    }

    /// Text with an embedded expression, tagged as such.
    pub fn in_string(s: &str) -> (r: Result<Self, Error>)
        ensures
            match r {
                Ok(v) => is_embedded(s@) && v@ == ExpressionView::InString(s@),
                Err(e) => !is_embedded(s@) && is_expression_error(e, s@, in_string_expecting()),
            },
    {
        match InString::new(s) {
            Ok(v) => Ok(Expression::InString(v)),
            Err(e) => Err(e),
        }
    }

    /// Tags `s` with the first grammar that accepts it, in the order plain
    /// text, full wrap, embedded expression.
    pub fn classify(s: &str) -> (r: Result<Self, DecodeError>)
        ensures
            classify_post(s@, r),
            !has_marker(s@) ==> (r matches Ok(Expression::StringOnly(v)) && v@ == s@),
            is_full_wrap(s@) ==> (r matches Ok(Expression::InSyntax(v)) && v@ == s@),
            has_marker(s@) && !is_full_wrap(s@) && is_embedded(s@)
                ==> (r matches Ok(Expression::InString(v)) && v@ == s@),
    {
        proof {
            if is_full_wrap(s@) {
                lemma_full_wrap_has_marker(s@);
            }
        }
        match StringOnly::new(s) {
            Ok(v) => {
                return Ok(Expression::StringOnly(v));
            },
            Err(_) => {},
        }
        match InSyntax::new(s) {
            Ok(v) => {
                return Ok(Expression::InSyntax(v));
            },
            Err(_) => {},
        }
        match InString::new(s) {
            Ok(v) => Ok(Expression::InString(v)),
            Err(_) => {
                let expecting = expression_expecting_text();
                Err(reject_text(s, expecting.as_str()))
            },
        }
    }

    /// Builds the value for `s` as [`Expression::classify`] does, failing with
    /// an expression error that names the three grammars.
    pub fn new(s: &str) -> (r: Result<Self, Error>)
        ensures
            match r {
                Ok(v) => classify_spec(s@) == Some(v@),
                Err(e) => classify_spec(s@) is None
                    && is_expression_error(e, s@, expression_expecting()),
            },
    {
        match Self::classify(s) {
            Ok(v) => Ok(v),
            Err(_) => {
                let expecting = expression_expecting_text();
                Err(Error::Expression(ExpressionError::expecting(s, expecting.as_str())))
            },
        }
    }

    /// Decodes a document node: text in any of the three grammars.
    pub fn decode(n: &Node) -> (r: Result<Self, DecodeError>)
        ensures
            match *n {
                Node::Str(s) => classify_post(s@, r),
                _ => match r {
                    Ok(_) => false,
                    Err(e) => rejects_shape(e, *n, expression_expecting()),
                },
            },
    {
        let expecting = expression_expecting_text();
        let codec = text_only_codec(expecting.as_str());
        match codec.route(n) {
            Route::Str => match n {
                Node::Str(s) => Self::classify(s.as_str()),
                _ => {
                    assert(false);
                    Err(codec.invalid_type(n))
                },
            },
            _ => Err(codec.invalid_type(n)),
        }
    }

    /// The text to write out, checked once more by the active grammar.
    pub fn encode(&self) -> (r: Result<String, EncodeError>)
        ensures
            r is Ok,
            r->Ok_0@ == self@.text(),
    {
        match self {
            Expression::StringOnly(s) => s.encode(),
            Expression::InSyntax(s) => s.encode(),
            Expression::InString(s) => s.encode(),
        }
    }
}

impl std::str::FromStr for StringOnly {
    type Err = Error;

    fn from_str(s: &str) -> Result<Self, Self::Err> {
        StringOnly::new(s)
    }
}

impl std::str::FromStr for InSyntax {
    type Err = Error;

    fn from_str(s: &str) -> Result<Self, Self::Err> {
        InSyntax::new(s)
    }
}

impl std::str::FromStr for InString {
    type Err = Error;

    fn from_str(s: &str) -> Result<Self, Self::Err> {
        InString::new(s)
    }
}

impl std::str::FromStr for Expression {
    type Err = Error;

    fn from_str(s: &str) -> Result<Self, Self::Err> {
        Expression::new(s)
    }
}

} // verus!
