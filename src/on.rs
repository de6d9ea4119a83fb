//! The events that trigger a workflow.

use vstd::prelude::*;
use crate::error::{DecodeError, Error, ValueError, is_value_error};
use crate::expression::{rejects_shape, rejects_text};
use crate::node::Node;
use crate::text::str_eq;

verus! {

/// The names of the events that can trigger a workflow.
pub open spec fn event_names() -> Seq<Seq<char>> {
    seq![
        "branch_protection_rule"@,
        "check_run"@,
        "check_suite"@,
        "create"@,
        "delete"@,
        "deployment"@,
        "deployment_status"@,
        "discussion"@,
        "discussion_comment"@,
        "fork"@,
        "gollum"@,
        "issue_comment"@,
        "issues"@,
        "label"@,
        "member"@,
        "milestone"@,
        "page_build"@,
        "project"@,
        "project_card"@,
        "project_column"@,
        "public"@,
        "pull_request"@,
        "pull_request_review"@,
        "pull_request_review_comment"@,
        "pull_request_target"@,
        "push"@,
        "registry_package"@,
        "release"@,
        "repository_dispatch"@,
        "status"@,
        "watch"@,
        "workflow_call"@,
        "workflow_dispatch"@,
        "workflow_run"@,
    ]
}

/// `s` names an event that can trigger a workflow.
pub open spec fn is_event(s: Seq<char>) -> bool {
    event_names().contains(s)
}

fn known_events() -> (r: Vec<&'static str>)
    ensures
        r@.map_values(|e: &str| e@) == event_names(),
{
    let r = vec![
        "branch_protection_rule",
        "check_run",
        "check_suite",
        "create",
        "delete",
        "deployment",
        "deployment_status",
        "discussion",
        "discussion_comment",
        "fork",
        "gollum",
        "issue_comment",
        "issues",
        "label",
        "member",
        "milestone",
        "page_build",
        "project",
        "project_card",
        "project_column",
        "public",
        "pull_request",
        "pull_request_review",
        "pull_request_review_comment",
        "pull_request_target",
        "push",
        "registry_package",
        "release",
        "repository_dispatch",
        "status",
        "watch",
        "workflow_call",
        "workflow_dispatch",
        "workflow_run",
    ];
    assert(r@.map_values(|e: &str| e@) =~= event_names());
    r
}

/// Whether `s` names an event that can trigger a workflow.
pub fn is_known_event(s: &str) -> (r: bool)
    ensures
        r == is_event(s@),
{
    let names = known_events();
    let mut i: usize = 0;
    while i < names.len()
        invariant
            i <= names@.len(),
            names@.map_values(|e: &str| e@) == event_names(),
            forall|j: int| 0 <= j < i ==> event_names()[j] != s@,
        decreases names.len() - i,
    {
        if str_eq(names[i], s) {
            assert(event_names()[i as int] == names@[i as int]@);
            return true;
        }
        assert(event_names()[i as int] == names@[i as int]@);
        i += 1;
    }
    false
}

/// What the decoder says it expected of an [`Event`].
pub const EVENT_EXPECTING: &'static str = "a event string <https://docs.github.com/en/actions/using-workflows/events-that-trigger-workflows>";

/// The message of an empty list of events.
pub const NO_EVENT: &'static str = "required at least one event";

/// An event that triggers a workflow.
#[derive(Debug, PartialEq, Eq)]
pub struct Event(String);

impl View for Event {
    type V = Seq<char>;

    closed spec fn view(&self) -> Seq<char> {
        self.0@
    }
}

impl Event {
    #[verifier::type_invariant]
    spec fn inv(self) -> bool {
        is_event(self.0@)
    }

    /// Accepts `s` when it names a known event.
    pub fn new(s: &str) -> (r: Result<Self, Error>)
        ensures
            match r {
                Ok(e) => is_event(s@) && e@ == s@,
                Err(e) => !is_event(s@) && is_value_error(e, s@),
            },
    {
        if !is_known_event(s) {
            Err(Error::from(ValueError::new(s)))
        } else {
            Ok(Event(String::from_str(s)))
        }
    }

    /// The event name.
    pub fn as_str(&self) -> (r: &str)
        ensures
            r@ == self@,
            is_event(r@),
    {
        proof {
            use_type_invariant(self);
        }
        self.0.as_str()
    }

    /// Decodes a document node: the name of a known event.
    pub fn decode(n: &Node) -> (r: Result<Self, DecodeError>)
        ensures
            match *n {
                Node::Str(s) => match r {
                    Ok(e) => is_event(s@) && e@ == s@,
                    Err(x) => !is_event(s@) && rejects_text(x, s@, EVENT_EXPECTING@),
                },
                _ => match r {
                    Ok(_) => false,
                    Err(x) => rejects_shape(x, *n, EVENT_EXPECTING@),
                },
            },
    {
        match n {
            Node::Str(s) => match Event::new(s.as_str()) {
                Ok(e) => Ok(e),
                Err(_) => Err(DecodeError::InvalidValue {
                    unexpected: n.unexpected(),
                    expected: String::from_str(EVENT_EXPECTING),
                }),
            },
            _ => Err(DecodeError::InvalidType {
                unexpected: n.unexpected(),
                expected: String::from_str(EVENT_EXPECTING),
            }),
        }
    }

    /// The event name to write out.
    pub fn encode(&self) -> (r: String)
        ensures
            r@ == self@,
    {
        String::from_str(self.0.as_str())
    }
}

/// The events that trigger a workflow: one, or several.
#[derive(Debug, PartialEq, Eq)]
pub enum On {
    Event(Event),
    Events(Vec<Event>),
}

impl On {
    /// One event stands alone, several stay a list; none is an error.
    pub fn from_events(events: Vec<Event>) -> (r: Result<Self, Error>)
        ensures
            events@.len() == 0 ==> (r matches Err(e) && is_value_error(e, NO_EVENT@)),
            events@.len() == 1 ==> r == Ok::<On, Error>(On::Event(events@[0])),
            events@.len() > 1 ==> r == Ok::<On, Error>(On::Events(events)),
    {
        if events.len() == 0 {
            Err(Error::from(ValueError::new(NO_EVENT)))
        } else if events.len() == 1 {
            let mut events = events;
            let e = events.remove(0);
            Ok(On::Event(e))
        } else {
            Ok(On::Events(events))
        }
    }

    /// A single event, by name.
    pub fn from_str(s: &str) -> (r: Result<Self, Error>)
        ensures
            match r {
                Ok(on) => is_event(s@) && on is Event && on->Event_0@ == s@,
                Err(e) => !is_event(s@) && is_value_error(e, s@),
            },
    {
        match Event::new(s) {
            Ok(e) => Ok(On::Event(e)),
            Err(e) => Err(e),
        }
    }
}

impl std::str::FromStr for Event {
    type Err = Error;

    fn from_str(s: &str) -> Result<Self, Self::Err> {
        Event::new(s)
    }
}

} // verus!
