//! Scalars of any kind, and the conversion traits of the codecs.

use vstd::prelude::*;
use crate::codec::{CodecSpec, Implementations};
use crate::error::{DecodeError, Error, Unexpected, ValueError};
use crate::expression::rejects_shape;
use crate::node::Node;
use crate::text::push_decimal;

verus! {

/// A type that can be built from a boolean scalar.
pub trait FromBool: Sized {
    fn from_bool(v: bool) -> Result<Self, Error>;
}

/// A type that can be built from a signed integer scalar.
pub trait FromI64: Sized {
    fn from_i64(v: i64) -> Result<Self, Error>;
}

/// A type that can be built from an unsigned integer scalar.
pub trait FromU64: Sized {
    fn from_u64(v: u64) -> Result<Self, Error>;
}

/// What a [`StrNumBool`] holds.
pub ghost enum ScalarView {
    Bool(bool),
    Int(int),
    Float(Seq<char>),
    String(Seq<char>),
}

/// A boolean, integer, floating-point or text scalar.
#[derive(Debug, PartialEq)]
pub enum StrNumBool {
    Bool(bool),
    Int(i64),
    /// A floating-point number, as the decimal text that denotes it.
    Float(String),
    String(String),
}

impl View for StrNumBool {
    type V = ScalarView;

    open spec fn view(&self) -> ScalarView {
        match self {
            StrNumBool::Bool(b) => ScalarView::Bool(*b),
            StrNumBool::Int(i) => ScalarView::Int(*i as int),
            StrNumBool::Float(f) => ScalarView::Float(f@),
            StrNumBool::String(s) => ScalarView::String(s@),
        }
    }
}

/// What the scalar decoder says it expected.
pub const SCALAR_EXPECTING: &'static str = "expected one of string, number or boolean";

/// The scalar that a node decodes to; `None` when it is rejected.
pub open spec fn scalar_of(n: Node) -> Option<ScalarView> {
    match n {
        Node::Bool(b) => Some(ScalarView::Bool(b)),
        Node::Signed(x) => Some(ScalarView::Int(x as int)),
        Node::Unsigned(x) => if x <= i64::MAX {
            Some(ScalarView::Int(x as int))
        } else {
            None
        },
        Node::Float(f) => Some(ScalarView::Float(f@)),
        Node::Str(s) => Some(ScalarView::String(s@)),
        _ => None,
    }
}

/// `e` is the scalar decoder's rejection of `n`: an integer out of range is
/// an invalid value, any other node an invalid type.
pub open spec fn rejects_scalar(e: DecodeError, n: Node) -> bool {
    match n {
        Node::Unsigned(x) => match e {
            DecodeError::InvalidValue { unexpected, expected } =>
                unexpected == Unexpected::Unsigned(x) && expected@ == SCALAR_EXPECTING@,
            _ => false,
        },
        _ => rejects_shape(e, n, SCALAR_EXPECTING@),
    }
}

/// The node that a scalar is written out as.
pub open spec fn scalar_node(v: ScalarView, n: Node) -> bool {
    match v {
        ScalarView::Bool(b) => n == Node::Bool(b),
        ScalarView::Int(i) => n == Node::Signed(i as i64),
        ScalarView::Float(f) => match n {
            Node::Float(g) => g@ == f,
            _ => false,
        },
        ScalarView::String(s) => match n {
            Node::Str(t) => t@ == s,
            _ => false,
        },
    }
}

impl StrNumBool {
    /// Text, taken as it is.
    pub fn from_str(s: &str) -> (r: Self)
        ensures
            r@ == ScalarView::String(s@),
    {
        StrNumBool::String(String::from_str(s))
    }

    /// A floating-point number, given as its decimal text.
    pub fn from_f64_text(s: &str) -> (r: Self)
        ensures
            r@ == ScalarView::Float(s@),
    {
        StrNumBool::Float(String::from_str(s))
    }

    /// Decodes a scalar node of any kind.
    pub fn decode(n: &Node) -> (r: Result<Self, DecodeError>)
        ensures
            match r {
                Ok(v) => scalar_of(*n) == Some(v@),
                Err(e) => scalar_of(*n) is None && rejects_scalar(e, *n),
            },
    {
        let codec = CodecSpec::with_shapes(
            Implementations {
                str_: true,
                bool_: true,
                f64_: false,
                i64_: false,
                u64_: false,
                number: true,
                map: false,
            },
            SCALAR_EXPECTING,
        );
        match n {
            Node::Bool(b) => Ok(StrNumBool::Bool(*b)),
            Node::Signed(x) => Ok(StrNumBool::Int(*x)),
            Node::Unsigned(x) => if *x <= i64::MAX as u64 {
                Ok(StrNumBool::Int(*x as i64))
            } else {
                Err(codec.invalid_value(n))
            },
            Node::Float(f) => Ok(StrNumBool::from_f64_text(f.as_str())),
            Node::Str(s) => Ok(StrNumBool::from_str(s.as_str())),
            _ => Err(codec.invalid_type(n)),
        }
    }

    /// The node this scalar is written out as.
    pub fn encode(&self) -> (r: Node)
        ensures
            scalar_node(self@, r),
            scalar_of(r) == Some(self@),
    {
        match self {
            StrNumBool::Bool(b) => Node::Bool(*b),
            StrNumBool::Int(i) => Node::Signed(*i),
            StrNumBool::Float(f) => Node::Float(String::from_str(f.as_str())),
            StrNumBool::String(s) => Node::Str(String::from_str(s.as_str())),
        }
    }
}

impl FromBool for StrNumBool {
    fn from_bool(v: bool) -> Result<Self, Error> {
        Ok(StrNumBool::Bool(v))
    }
}

impl FromI64 for StrNumBool {
    fn from_i64(v: i64) -> Result<Self, Error> {
        Ok(StrNumBool::Int(v))
    }
}

impl FromU64 for StrNumBool {
    fn from_u64(v: u64) -> Result<Self, Error> {
        if v <= i64::MAX as u64 {
            Ok(StrNumBool::Int(v as i64))
        } else {
            let mut actual = String::new();
            push_decimal(&mut actual, v);
            Err(Error::Value(ValueError::expecting(actual.as_str(), "an integer in the range of i64")))
        }
    }
}

} // verus!
