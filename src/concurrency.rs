//! The concurrency field: a group name, or a record with a group name and a
//! cancel flag.

use vstd::prelude::*;
use crate::codec::{CodecSpec, Implementations, Route};
use crate::error::{DecodeError, EncodeError, decode_error_text};
use crate::node::{Node, lemma_names_text, node_text};
use crate::text::str_eq;

verus! {

/// A concurrency group with a cancel flag.
#[derive(Debug, PartialEq, Eq)]
pub struct ConcurrencyWithCancel {
    /// The group name; it must not be empty.
    pub group: String,
    /// Whether running work of the same group is cancelled.
    pub cancel_in_progress: bool,
}

/// Only one run of a concurrency group at a time.
#[derive(Debug, PartialEq, Eq)]
pub enum Concurrency {
    /// The group name, plain or holding an expression; it must not be empty.
    String(String),
    ConcurrencyWithCancel(ConcurrencyWithCancel),
}

/// What the decoder says it expected of a [`Concurrency`].
pub const CONCURRENCY_EXPECTING: &'static str = "a string or a map with group and cancel-in-progress";

/// The message of an empty group.
pub const EMPTY_GROUP: &'static str = "group cannot be empty";

/// The fields read so far from a record mapping, or the text of the first
/// failure.
pub type RecordState = Result<(Option<Seq<char>>, Option<bool>), Seq<char>>;

/// Reads the entries of a record mapping in document order: `group` takes
/// text, `cancel-in-progress` takes a boolean, a field seen twice fails, and
/// other keys are skipped.
pub open spec fn read_record(es: Seq<(String, Node)>) -> RecordState
    decreases es.len(),
{
    if es.len() == 0 {
        Ok((None, None))
    } else {
        let (k, v) = es.last();
        match read_record(es.drop_last()) {
            Err(m) => Err(m),
            Ok((group, cancel)) => if k@ == "group"@ {
                if group is Some {
                    Err("duplicate field `group`"@)
                } else {
                    match v {
                        Node::Str(s) => Ok((Some(s@), cancel)),
                        _ => Err("invalid type: "@ + node_text(v) + ", expected "@ + "a string"@),
                    }
                }
            } else if k@ == "cancel-in-progress"@ {
                if cancel is Some {
                    Err("duplicate field `cancel-in-progress`"@)
                } else {
                    match v {
                        Node::Bool(b) => Ok((group, Some(b))),
                        _ => Err("invalid type: "@ + node_text(v) + ", expected "@ + "a boolean"@),
                    }
                }
            } else {
                Ok((group, cancel))
            },
        }
    }
}

/// The record that a mapping decodes to, as its group and flag, or the text
/// of the failure.
pub open spec fn record_of(es: Seq<(String, Node)>) -> Result<(Seq<char>, bool), Seq<char>> {
    match read_record(es) {
        Err(m) => Err(m),
        Ok((None, _)) => Err("missing field `"@ + "group"@ + "`"@),
        Ok((Some(g), cancel)) => if g.len() == 0 {
            Err(EMPTY_GROUP@)
        } else {
            Ok((g, match cancel {
                Some(b) => b,
                None => false,
            }))
        },
    }
}

proof fn lemma_record_failure_stays(es: Seq<(String, Node)>, i: int)
    requires
        0 <= i <= es.len(),
        read_record(es.subrange(0, i)) is Err,
    ensures
        read_record(es) == read_record(es.subrange(0, i)),
    decreases es.len() - i,
{
    if i < es.len() {
        assert(es.subrange(0, i + 1).drop_last() =~= es.subrange(0, i));
        lemma_record_failure_stays(es, i + 1);
    } else {
        assert(es.subrange(0, i) =~= es);
    }
}

fn mismatch(v: &Node, expected: &str) -> (r: DecodeError)
    ensures
        decode_error_text(r) == "invalid type: "@ + node_text(*v) + ", expected "@ + expected@,
{
    let u = v.unexpected();
    proof {
        lemma_names_text(u, *v);
    }
    DecodeError::InvalidType { unexpected: u, expected: String::from_str(expected) }
}

impl ConcurrencyWithCancel {
    /// Reads a record from the entries of a mapping.
    pub fn from_entries(es: &Vec<(String, Node)>) -> (r: Result<Self, DecodeError>)
        ensures
            match r {
                Ok(c) => record_of(es@) == Ok::<(Seq<char>, bool), Seq<char>>((c.group@, c.cancel_in_progress)),
                Err(e) => record_of(es@) == Err::<(Seq<char>, bool), Seq<char>>(decode_error_text(e)),
            },
    {
        let mut group: Option<String> = None;
        let mut cancel: Option<bool> = None;
        let mut i: usize = 0;
        while i < es.len()
            invariant
                i <= es@.len(),
                read_record(es@.subrange(0, i as int)) == Ok::<(Option<Seq<char>>, Option<bool>), Seq<char>>((
                    match group {
                        Some(g) => Some(g@),
                        None => None,
                    },
                    cancel,
                )),
            decreases es.len() - i,
        {
            let ghost prefix = es@.subrange(0, i as int);
            assert(es@.subrange(0, i + 1).drop_last() =~= prefix);
            assert(es@.subrange(0, i + 1).last() == es@[i as int]);
            let key = es[i].0.as_str();
            let value = &es[i].1;
            proof {
                reveal_strlit("group");
                reveal_strlit("cancel-in-progress");
            }
            if str_eq(key, "group") {
                if group.is_some() {
                    proof {
                        lemma_record_failure_stays(es@, i + 1);
                    }
                    return Err(DecodeError::Custom(String::from_str("duplicate field `group`")));
                }
                match value {
                    Node::Str(s) => {
                        group = Some(String::from_str(s.as_str()));
                    },
                    _ => {
                        proof {
                            lemma_record_failure_stays(es@, i + 1);
                        }
                        return Err(mismatch(value, "a string"));
                    },
                }
            } else if str_eq(key, "cancel-in-progress") {
                if cancel.is_some() {
                    proof {
                        lemma_record_failure_stays(es@, i + 1);
                    }
                    return Err(
                        DecodeError::Custom(String::from_str("duplicate field `cancel-in-progress`")),
                    );
                }
                match value {
                    Node::Bool(b) => {
                        cancel = Some(*b);
                    },
                    _ => {
                        proof {
                            lemma_record_failure_stays(es@, i + 1);
                        }
                        return Err(mismatch(value, "a boolean"));
                    },
                }
            }
            i += 1;
        }
        assert(es@.subrange(0, es@.len() as int) =~= es@);
        match group {
            None => Err(DecodeError::MissingField(String::from_str("group"))),
            Some(g) => {
                if g.unicode_len() == 0 {
                    Err(DecodeError::Custom(String::from_str(EMPTY_GROUP)))
                } else {
                    let flag = match cancel {
                        Some(b) => b,
                        None => false,
                    };
                    Ok(ConcurrencyWithCancel { group: g, cancel_in_progress: flag })
                }
            },
        }
    }
}

impl Concurrency {
    /// Decodes a document node: non-empty text is the group, a mapping is a
    /// record.
    pub fn decode(n: &Node) -> (r: Result<Self, DecodeError>)
        ensures
            match *n {
                Node::Str(s) => match r {
                    Ok(c) => s@.len() > 0 && c == Concurrency::String(c->String_0) && c->String_0@ == s@,
                    Err(e) => s@.len() == 0 && decode_error_text(e) == "invalid value: "@ + node_text(*n)
                        + ", expected "@ + CONCURRENCY_EXPECTING@,
                },
                Node::Mapping(es) => match r {
                    Ok(c) => c is ConcurrencyWithCancel && record_of(es@) == Ok::<(Seq<char>, bool), Seq<char>>((
                        c->ConcurrencyWithCancel_0.group@,
                        c->ConcurrencyWithCancel_0.cancel_in_progress,
                    )),
                    Err(e) => record_of(es@) == Err::<(Seq<char>, bool), Seq<char>>(decode_error_text(e)),
                },
                _ => match r {
                    Ok(_) => false,
                    Err(e) => decode_error_text(e) == "invalid type: "@ + node_text(*n) + ", expected "@
                        + CONCURRENCY_EXPECTING@,
                },
            },
    {
        let codec = CodecSpec::with_shapes(
            Implementations {
                str_: true,
                bool_: false,
                f64_: false,
                i64_: false,
                u64_: false,
                number: false,
                map: true,
            },
            CONCURRENCY_EXPECTING,
        );
        match codec.route(n) {
            Route::Str => match n {
                Node::Str(s) => if s.as_str().unicode_len() > 0 {
                    Ok(Concurrency::String(String::from_str(s.as_str())))
                } else {
                    let e = codec.invalid_value(n);
                    proof {
                        lemma_names_text(e->InvalidValue_unexpected, *n);
                    }
                    Err(e)
                },
                _ => Err(codec.invalid_type(n)),
            },
            Route::Mapping => match n {
                Node::Mapping(es) => match ConcurrencyWithCancel::from_entries(es) {
                    Ok(c) => Ok(Concurrency::ConcurrencyWithCancel(c)),
                    Err(e) => Err(e),
                },
                _ => Err(codec.invalid_type(n)),
            },
            _ => {
                let e = codec.invalid_type(n);
                proof {
                    lemma_names_text(e->InvalidType_unexpected, *n);
                }
                Err(e)
            },
        }
    }

    /// The node to write out; an empty group fails, however the value was
    /// built.
    pub fn encode(&self) -> (r: Result<Node, EncodeError>)
        ensures
            match self {
                Concurrency::String(s) => match r {
                    Ok(n) => s@.len() > 0 && n == Node::Str(n->Str_0) && n->Str_0@ == s@,
                    Err(e) => s@.len() == 0 && e@ == EMPTY_GROUP@,
                },
                Concurrency::ConcurrencyWithCancel(c) => match r {
                    Ok(n) => c.group@.len() > 0 && n is Mapping && n->Mapping_0@.len() == 2
                        && n->Mapping_0@[0].0@ == "group"@
                        && n->Mapping_0@[0].1 == Node::Str(n->Mapping_0@[0].1->Str_0)
                        && n->Mapping_0@[0].1->Str_0@ == c.group@
                        && n->Mapping_0@[1].0@ == "cancel-in-progress"@
                        && n->Mapping_0@[1].1 == Node::Bool(c.cancel_in_progress),
                    Err(e) => c.group@.len() == 0 && e@ == EMPTY_GROUP@,
                },
            },
    {
        match self {
            Concurrency::String(s) => if s.as_str().unicode_len() == 0 {
                Err(EncodeError::custom(EMPTY_GROUP))
            } else {
                Ok(Node::Str(String::from_str(s.as_str())))
            },
            Concurrency::ConcurrencyWithCancel(c) => if c.group.as_str().unicode_len() == 0 {
                Err(EncodeError::custom(EMPTY_GROUP))
            } else {
                let mut fields: Vec<(String, Node)> = Vec::new();
                fields.push((String::from_str("group"), Node::Str(String::from_str(c.group.as_str()))));
                fields.push((String::from_str("cancel-in-progress"), Node::Bool(c.cancel_in_progress)));
                Ok(Node::Mapping(fields))
            },
        }
    }
}

} // verus!
