//! A field that holds either text with an embedded expression or a table of
//! named scalars.

use vstd::prelude::*;
use crate::codec::{CodecSpec, Implementations, Route};
use crate::error::{DecodeError, EncodeError};
use crate::expression::{InString, rejects_shape, rejects_text};
use crate::grammar::{is_embedded, IN_STRING_PATTERN};
use crate::node::Node;
use crate::scalar::{ScalarView, StrNumBool, rejects_scalar, scalar_of};
use crate::table::{Table, keys_of, lemma_map_of_push, map_of};

verus! {

/// What an [`Env`] holds.
pub ghost enum EnvView {
    InStringExpression(Seq<char>),
    Mapping(Map<Seq<char>, ScalarView>),
}

/// Environment variables: one text with an embedded expression, or a table of
/// names and scalar values.
#[derive(Debug, PartialEq)]
pub enum Env {
    InStringExpression(InString),
    Mapping(Table<StrNumBool>),
}

impl View for Env {
    type V = EnvView;

    open spec fn view(&self) -> EnvView {
        match self {
            Env::InStringExpression(s) => EnvView::InStringExpression(s@),
            Env::Mapping(t) => EnvView::Mapping(t@),
        }
    }
}

/// What the decoder says it expected of an [`Env`].
pub open spec fn env_expecting() -> Seq<char> {
    "a string matching "@ + IN_STRING_PATTERN@ + " or map..."@
}

/// The table that the entries of a mapping collect into, each value decoded
/// as a scalar and a later key replacing an earlier one; `None` when some
/// value is rejected.
pub open spec fn scalars_of(es: Seq<(String, Node)>) -> Option<Map<Seq<char>, ScalarView>>
    decreases es.len(),
{
    if es.len() == 0 {
        Some(Map::empty())
    } else {
        match (scalars_of(es.drop_last()), scalar_of(es.last().1)) {
            (Some(m), Some(v)) => Some(m.insert(es.last().0@, v)),
            _ => None,
        }
    }
}

proof fn lemma_scalars_rejected(es: Seq<(String, Node)>, i: int)
    requires
        0 <= i < es.len(),
        scalar_of(es[i].1) is None,
    ensures
        scalars_of(es) is None,
    decreases es.len(),
{
    if i < es.len() - 1 {
        lemma_scalars_rejected(es.drop_last(), i);
    }
}

proof fn lemma_scalars_accepted(es: Seq<(String, Node)>, j: int)
    requires
        scalars_of(es) is Some,
        0 <= j < es.len(),
    ensures
        scalar_of(es[j].1) is Some,
    decreases es.len(),
{
    if j < es.len() - 1 {
        lemma_scalars_accepted(es.drop_last(), j);
    }
}

fn env_text() -> (r: String)
    ensures
        r@ == env_expecting(),
{
    let mut r = String::from_str("a string matching ");
    r.append(IN_STRING_PATTERN);
    r.append(" or map...");
    r
}

impl Env {
    /// Decodes a document node: text goes to [`InString`], a mapping has each
    /// value decoded as a scalar.
    pub fn decode(n: &Node) -> (r: Result<Self, DecodeError>)
        ensures
            match *n {
                Node::Str(s) => match r {
                    Ok(e) => is_embedded(s@) && e@ == EnvView::InStringExpression(s@),
                    Err(x) => !is_embedded(s@) && rejects_text(x, s@, env_expecting()),
                },
                Node::Mapping(es) => match r {
                    Ok(e) => scalars_of(es@) == Some(e@->Mapping_0) && e@ is Mapping,
                    Err(x) => scalars_of(es@) is None && exists|i: int|
                        0 <= i < es@.len() && scalar_of(#[trigger] es@[i].1) is None
                            && rejects_scalar(x, es@[i].1)
                            && forall|j: int| 0 <= j < i ==> scalar_of(#[trigger] es@[j].1) is Some,
                },
                _ => match r {
                    Ok(_) => false,
                    Err(x) => rejects_shape(x, *n, env_expecting()),
                },
            },
    {
        let expecting = env_text();
        let codec = CodecSpec::with_shapes(
            Implementations {
                str_: true,
                bool_: false,
                f64_: false,
                i64_: false,
                u64_: false,
                number: false,
                map: true,
            },
            expecting.as_str(),
        );
        match codec.route(n) {
            Route::Str => match n {
                Node::Str(s) => match InString::new(s.as_str()) {
                    Ok(v) => Ok(Env::InStringExpression(v)),
                    Err(_) => Err(DecodeError::InvalidValue {
                        unexpected: n.unexpected(),
                        expected: expecting,
                    }),
                },
                _ => Err(codec.invalid_type(n)),
            },
            Route::Mapping => match n {
                Node::Mapping(es) => {
                    let mut table: Table<StrNumBool> = Table::new();
                    let mut i: usize = 0;
                    while i < es.len()
                        invariant
                            i <= es@.len(),
                            match *n {
                                Node::Mapping(m) => m == *es,
                                _ => false,
                            },
                            scalars_of(es@.subrange(0, i as int)) == Some(table@),
                        decreases es.len() - i,
                    {
                        let ghost prefix = es@.subrange(0, i as int);
                        assert(es@.subrange(0, i + 1).drop_last() =~= prefix);
                        match StrNumBool::decode(&es[i].1) {
                            Ok(v) => {
                                table.insert(String::from_str(es[i].0.as_str()), v);
                            },
                            Err(x) => {
                                proof {
                                    lemma_scalars_rejected(es@, i as int);
                                    assert(scalar_of(es@[i as int].1) is None);
                                    assert(rejects_scalar(x, es@[i as int].1));
                                    assert forall|j: int| 0 <= j < i implies scalar_of(
                                        #[trigger] es@[j].1,
                                    ) is Some by {
                                        lemma_scalars_accepted(prefix, j);
                                        assert(prefix[j] == es@[j]);
                                    }
                                }
                                return Err(x);
                            },
                        }
                        i += 1;
                    }
                    assert(es@.subrange(0, es@.len() as int) =~= es@);
                    Ok(Env::Mapping(table))
                },
                _ => Err(codec.invalid_type(n)),
            },
            _ => Err(codec.invalid_type(n)),
        }
    }

    /// The node to write out: the text, checked once more, or the table as a
    /// mapping whose entries decode back to the same table.
    pub fn encode(&self) -> (r: Result<Node, EncodeError>)
        ensures
            match self@ {
                EnvView::InStringExpression(s) => r matches Ok(Node::Str(t)) && t@ == s,
                EnvView::Mapping(m) => r matches Ok(Node::Mapping(es)) && scalars_of(es@)
                    == Some(m),
            },
    {
        match self {
            Env::InStringExpression(s) => match s.encode() {
                Ok(t) => Ok(Node::Str(t)),
                Err(x) => Err(x),
            },
            Env::Mapping(t) => {
                let entries = t.entries();
                let ghost s = entries@;
                let mut out: Vec<(String, Node)> = Vec::new();
                let mut j: usize = 0;
                while j < entries.len()
                    invariant
                        j <= s.len(),
                        s == entries@,
                        keys_of(s).no_duplicates(),
                        out@.len() == j,
                        scalars_of(out@) == Some(map_of(s.subrange(0, j as int))),
                    decreases entries.len() - j,
                {
                    let node = entries[j].1.encode();
                    let ghost before = out@;
                    out.push((String::from_str(entries[j].0.as_str()), node));
                    proof {
                        assert(out@.drop_last() =~= before);
                        assert(out@.last().0@ == s[j as int].0@);
                        let sub = s.subrange(0, j as int);
                        assert(s.subrange(0, j + 1) =~= sub.push(s[j as int]));
                        assert(keys_of(s.subrange(0, j + 1)) =~= keys_of(s).subrange(0, j + 1));
                        lemma_map_of_push(sub, s[j as int]);
                    }
                    j += 1;
                }
                assert(s.subrange(0, s.len() as int) =~= s);
                Ok(Node::Mapping(out))
            },
        }
    }
}

} // verus!
