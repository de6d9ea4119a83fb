//! Default settings for the run steps of every job.

use vstd::prelude::*;
use crate::codec::{CodecSpec, Implementations, Route};
use crate::error::{DecodeError, decode_error_text};
use crate::node::{Node, lemma_names_text, node_text};
use crate::text::{decimal, push_decimal, str_eq};

verus! {

/// The shell and working directory of run steps.
#[derive(Debug, PartialEq, Eq)]
pub struct Run {
    /// Where the steps run.
    pub working_directory: Option<String>,
    /// The shell that runs the steps.
    pub shell: Option<String>,
}

/// What the decoder says it expected of a [`Run`].
pub const RUN_EXPECTING: &'static str = "a map with at least `shell` or `working-directory` key";

/// The fields that a [`Run`] knows, as a diagnostic lists them.
pub const RUN_FIELDS: &'static str = "`working-directory` or `shell`";

/// What the decoder says it expected of a [`Defaults`].
pub const DEFAULTS_EXPECTING: &'static str = "a map with a `run` key";

/// The message of a `run` with neither field.
pub const RUN_REQUIRED: &'static str = "at least one of `shell` or `working-directory` must be specified";

/// The fields of a [`Run`] as views.
pub type RunView = (Option<Seq<char>>, Option<Seq<char>>);

/// The view of an optional text.
pub open spec fn opt_view(o: Option<String>) -> Option<Seq<char>> {
    match o {
        Some(s) => Some(s@),
        None => None,
    }
}

/// The value of an optional text field: a null is absent.
pub open spec fn optional_text(v: Node) -> Result<Option<Seq<char>>, Seq<char>> {
    match v {
        Node::Unit => Ok(None),
        Node::Str(s) => Ok(Some(s@)),
        _ => Err("invalid type: "@ + node_text(v) + ", expected "@ + "a string"@),
    }
}

/// Reads the entries of a `run` mapping in document order; a field seen twice
/// or a field that is not known fails.
pub open spec fn read_run(es: Seq<(String, Node)>) -> Result<(RunView, Seq<Seq<char>>), Seq<char>>
    decreases es.len(),
{
    if es.len() == 0 {
        Ok(((None, None), seq![]))
    } else {
        let (k, v) = es.last();
        match read_run(es.drop_last()) {
            Err(m) => Err(m),
            Ok(((wd, sh), seen)) => if seen.contains(k@) {
                Err("duplicate field `"@ + k@ + "`"@)
            } else if k@ == "working-directory"@ {
                match optional_text(v) {
                    Ok(t) => Ok(((t, sh), seen.push(k@))),
                    Err(m) => Err(m),
                }
            } else if k@ == "shell"@ {
                match optional_text(v) {
                    Ok(t) => Ok(((wd, t), seen.push(k@))),
                    Err(m) => Err(m),
                }
            } else {
                Err("unknown field `"@ + k@ + "`, expected "@ + RUN_FIELDS@)
            },
        }
    }
}

/// What a node decodes to as a [`Run`], or the text of the failure.
pub open spec fn run_of(n: Node) -> Result<RunView, Seq<char>> {
    match n {
        Node::Mapping(es) => match read_run(es@) {
            Ok((r, _)) => Ok(r),
            Err(m) => Err(m),
        },
        _ => Err("invalid type: "@ + node_text(n) + ", expected "@ + RUN_EXPECTING@),
    }
}

proof fn lemma_run_failure_stays(es: Seq<(String, Node)>, i: int)
    requires
        0 <= i <= es.len(),
        read_run(es.subrange(0, i)) is Err,
    ensures
        read_run(es) == read_run(es.subrange(0, i)),
    decreases es.len() - i,
{
    if i < es.len() {
        assert(es.subrange(0, i + 1).drop_last() =~= es.subrange(0, i));
        lemma_run_failure_stays(es, i + 1);
    } else {
        assert(es.subrange(0, i) =~= es);
    }
}

fn read_optional_text(v: &Node) -> (r: Result<Option<String>, DecodeError>)
    ensures
        match r {
            Ok(t) => optional_text(*v) == Ok::<Option<Seq<char>>, Seq<char>>(opt_view(t)),
            Err(e) => optional_text(*v) == Err::<Option<Seq<char>>, Seq<char>>(decode_error_text(e)),
        },
{
    match v {
        Node::Unit => Ok(None),
        Node::Str(s) => Ok(Some(String::from_str(s.as_str()))),
        _ => {
            let u = v.unexpected();
            proof {
                lemma_names_text(u, *v);
            }
            Err(DecodeError::InvalidType { unexpected: u, expected: String::from_str("a string") })
        },
    }
}

fn seen_contains(seen: &Vec<String>, k: &str) -> (r: bool)
    ensures
        r == seen@.map_values(|s: String| s@).contains(k@),
{
    let mut i: usize = 0;
    while i < seen.len()
        invariant
            i <= seen@.len(),
            forall|j: int| 0 <= j < i ==> seen@[j]@ != k@,
        decreases seen.len() - i,
    {
        if str_eq(seen[i].as_str(), k) {
            assert(seen@.map_values(|s: String| s@)[i as int] == k@);
            return true;
        }
        i += 1;
    }
    false
}

impl Run {
    /// Decodes a document node: a mapping with the optional fields
    /// `working-directory` and `shell`, and no other.
    pub fn decode(n: &Node) -> (r: Result<Self, DecodeError>)
        ensures
            match r {
                Ok(run) => run_of(*n) == Ok::<RunView, Seq<char>>((opt_view(run.working_directory), opt_view(run.shell))),
                Err(e) => run_of(*n) == Err::<RunView, Seq<char>>(decode_error_text(e)),
            },
    {
        let codec = CodecSpec::with_shapes(
            Implementations {
                str_: false,
                bool_: false,
                f64_: false,
                i64_: false,
                u64_: false,
                number: false,
                map: true,
            },
            RUN_EXPECTING,
        );
        let es = match n {
            Node::Mapping(es) => es,
            _ => {
                let e = codec.invalid_type(n);
                proof {
                    lemma_names_text(e->InvalidType_unexpected, *n);
                }
                return Err(e);
            },
        };
        let mut working_directory: Option<String> = None;
        let mut shell: Option<String> = None;
        let mut seen: Vec<String> = Vec::new();
        let mut i: usize = 0;
        assert(seen@.map_values(|s: String| s@) =~= Seq::<Seq<char>>::empty());
        while i < es.len()
            invariant
                i <= es@.len(),
                match *n {
                    Node::Mapping(m) => m == *es,
                    _ => false,
                },
                read_run(es@.subrange(0, i as int)) == Ok::<(RunView, Seq<Seq<char>>), Seq<char>>((
                    (opt_view(working_directory), opt_view(shell)),
                    seen@.map_values(|s: String| s@),
                )),
            decreases es.len() - i,
        {
            let ghost prefix = es@.subrange(0, i as int);
            assert(es@.subrange(0, i + 1).drop_last() =~= prefix);
            assert(es@.subrange(0, i + 1).last() == es@[i as int]);
            let key = es[i].0.as_str();
            if seen_contains(&seen, key) {
                proof {
                    lemma_run_failure_stays(es@, i + 1);
                }
                let mut m = String::from_str("duplicate field `");
                m.append(key);
                m.append("`");
                return Err(DecodeError::Custom(m));
            }
            let is_wd = str_eq(key, "working-directory");
            let is_shell = str_eq(key, "shell");
            if !is_wd && !is_shell {
                proof {
                    lemma_run_failure_stays(es@, i + 1);
                }
                return Err(DecodeError::UnknownField {
                    field: String::from_str(key),
                    expected: String::from_str(RUN_FIELDS),
                });
            }
            let value = match read_optional_text(&es[i].1) {
                Ok(t) => t,
                Err(e) => {
                    proof {
                        lemma_run_failure_stays(es@, i + 1);
                    }
                    return Err(e);
                },
            };
            if is_wd {
                working_directory = value;
            } else {
                shell = value;
            }
            let ghost old_seen = seen@;
            seen.push(String::from_str(key));
            assert(seen@.map_values(|s: String| s@) =~= old_seen.map_values(|s: String| s@).push(key@));
            i += 1;
        }
        assert(es@.subrange(0, es@.len() as int) =~= es@);
        Ok(Run { working_directory, shell })
    }

    /// The mapping to write out, with the fields that are present, in the
    /// order `working-directory`, `shell`.
    pub fn encode(&self) -> (r: Node)
        ensures
            r is Mapping,
            r->Mapping_0@.len() == self.properties(),
            self.working_directory is Some ==> r->Mapping_0@[0].0@ == "working-directory"@
                && r->Mapping_0@[0].1 == Node::Str(r->Mapping_0@[0].1->Str_0)
                && r->Mapping_0@[0].1->Str_0@ == self.working_directory->Some_0@,
            self.shell is Some ==> r->Mapping_0@.last().0@ == "shell"@
                && r->Mapping_0@.last().1 == Node::Str(r->Mapping_0@.last().1->Str_0)
                && r->Mapping_0@.last().1->Str_0@ == self.shell->Some_0@,
    {
        let mut fields: Vec<(String, Node)> = Vec::new();
        match &self.working_directory {
            Some(wd) => {
                fields.push((String::from_str("working-directory"), Node::Str(String::from_str(wd.as_str()))));
            },
            None => {},
        }
        match &self.shell {
            Some(sh) => {
                fields.push((String::from_str("shell"), Node::Str(String::from_str(sh.as_str()))));
            },
            None => {},
        }
        Node::Mapping(fields)
    }

    /// How many of the two fields are present.
    pub open spec fn properties(&self) -> nat {
        (if self.working_directory is Some { 1nat } else { 0nat }) + (if self.shell is Some { 1nat } else { 0nat })
    }

    /// Checks that at least `min` of the two fields are present.
    pub fn validate_min_properties(&self, min: usize) -> (r: Result<(), String>)
        ensures
            match r {
                Ok(()) => self.properties() >= min,
                Err(m) => self.properties() < min && m@ == "The size of the properties must be `>= "@
                    + decimal(min as nat) + "`."@,
            },
    {
        let count: usize = (if self.working_directory.is_some() { 1 } else { 0 }) + (if self.shell.is_some() { 1 } else { 0 });
        if count >= min {
            Ok(())
        } else {
            let mut m = String::from_str("The size of the properties must be `>= ");
            push_decimal(&mut m, min as u64);
            m.append("`.");
            Err(m)
        }
    }
}

/// Default settings that apply to every job of a workflow.
#[derive(Debug, PartialEq, Eq)]
pub struct Defaults {
    /// The defaults of run steps.
    pub run: Run,
}

/// What a node decodes to as [`Defaults`], or the text of the failure: only
/// the first key of the mapping is read, and it must be `run`, with at least
/// one of its fields present.
pub open spec fn defaults_of(n: Node) -> Result<RunView, Seq<char>> {
    match n {
        Node::Mapping(es) => if es@.len() == 0 {
            Err("missing field `"@ + "run"@ + "`"@)
        } else if es@[0].0@ != "run"@ {
            Err("unknown field `"@ + es@[0].0@ + "`, expected "@ + "`run`"@)
        } else {
            match run_of(es@[0].1) {
                Err(m) => Err(m),
                Ok((wd, sh)) => if wd is None && sh is None {
                    Err(RUN_REQUIRED@)
                } else {
                    Ok((wd, sh))
                },
            }
        },
        _ => Err("invalid type: "@ + node_text(n) + ", expected "@ + DEFAULTS_EXPECTING@),
    }
}

impl Defaults {
    /// Decodes a document node: a mapping whose first key is `run`.
    pub fn decode(n: &Node) -> (r: Result<Self, DecodeError>)
        ensures
            match r {
                Ok(d) => defaults_of(*n) == Ok::<RunView, Seq<char>>((opt_view(d.run.working_directory), opt_view(d.run.shell))),
                Err(e) => defaults_of(*n) == Err::<RunView, Seq<char>>(decode_error_text(e)),
            },
    {
        let codec = CodecSpec::with_shapes(
            Implementations {
                str_: false,
                bool_: false,
                f64_: false,
                i64_: false,
                u64_: false,
                number: false,
                map: true,
            },
            DEFAULTS_EXPECTING,
        );
        match codec.route(n) {
            Route::Mapping => match n {
                Node::Mapping(es) => {
                    if es.len() == 0 {
                        return Err(DecodeError::MissingField(String::from_str("run")));
                    }
                    let key = es[0].0.as_str();
                    if !str_eq(key, "run") {
                        return Err(DecodeError::UnknownField {
                            field: String::from_str(key),
                            expected: String::from_str("`run`"),
                        });
                    }
                    let run = match Run::decode(&es[0].1) {
                        Ok(run) => run,
                        Err(e) => {
                            return Err(e);
                        },
                    };
                    if run.working_directory.is_none() && run.shell.is_none() {
                        return Err(DecodeError::Custom(String::from_str(RUN_REQUIRED)));
                    }
                    Ok(Defaults { run })
                },
                _ => Err(codec.invalid_type(n)),
            },
            _ => {
                let e = codec.invalid_type(n);
                proof {
                    lemma_names_text(e->InvalidType_unexpected, *n);
                }
                Err(e)
            },
        }
    }
}

} // verus!
