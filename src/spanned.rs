//! The steps of reading a value together with its location: a start offset,
//! the value, then its length.

use vstd::prelude::*;

verus! {

/// Where a spanned read stands.
#[derive(Debug, Clone, Copy, PartialEq, Eq, Structural)]
pub enum SpannedMapAccessState {
    StartKey,
    DeserializeStart,
    ValueKey,
    DeserializeValue,
    LengthKey,
    DeserializeLength,
    Done,
}

/// The part of a spanned value that a key or a value step reads.
#[derive(Debug, Clone, Copy, PartialEq, Eq, Structural)]
pub enum SpannedField {
    Start,
    Value,
    Length,
}

/// What a key step does in each state: the field whose key is handed out and
/// the next state; `Ok(None)` once done; `Err(())` where a value step was due.
pub open spec fn key_step(s: SpannedMapAccessState) -> Result<
    Option<(SpannedField, SpannedMapAccessState)>,
    (),
> {
    match s {
        SpannedMapAccessState::StartKey => Ok(
            Some((SpannedField::Start, SpannedMapAccessState::DeserializeStart)),
        ),
        SpannedMapAccessState::ValueKey => Ok(
            Some((SpannedField::Value, SpannedMapAccessState::DeserializeValue)),
        ),
        SpannedMapAccessState::LengthKey => Ok(
            Some((SpannedField::Length, SpannedMapAccessState::DeserializeLength)),
        ),
        SpannedMapAccessState::Done => Ok(None),
        _ => Err(()),
    }
}

/// What a value step does in each state: the field read and the next state;
/// `None` where a key step was due.
pub open spec fn value_step(s: SpannedMapAccessState) -> Option<
    (SpannedField, SpannedMapAccessState),
> {
    match s {
        SpannedMapAccessState::DeserializeStart => Some(
            (SpannedField::Start, SpannedMapAccessState::ValueKey),
        ),
        SpannedMapAccessState::DeserializeValue => Some(
            (SpannedField::Value, SpannedMapAccessState::LengthKey),
        ),
        SpannedMapAccessState::DeserializeLength => Some(
            (SpannedField::Length, SpannedMapAccessState::Done),
        ),
        _ => None,
    }
}

impl SpannedMapAccessState {
    /// The key step from this state.
    pub fn next_key(self) -> (r: Result<Option<(SpannedField, SpannedMapAccessState)>, ()>)
        ensures
            r == key_step(self),
    {
        match self {
            SpannedMapAccessState::StartKey => Ok(
                Some((SpannedField::Start, SpannedMapAccessState::DeserializeStart)),
            ),
            SpannedMapAccessState::ValueKey => Ok(
                Some((SpannedField::Value, SpannedMapAccessState::DeserializeValue)),
            ),
            SpannedMapAccessState::LengthKey => Ok(
                Some((SpannedField::Length, SpannedMapAccessState::DeserializeLength)),
            ),
            SpannedMapAccessState::Done => Ok(None),
            _ => Err(()),
        }
    }

    /// The value step from this state.
    pub fn next_value(self) -> (r: Option<(SpannedField, SpannedMapAccessState)>)
        ensures
            r == value_step(self),
    {
        match self {
            SpannedMapAccessState::DeserializeStart => Some(
                (SpannedField::Start, SpannedMapAccessState::ValueKey),
            ),
            SpannedMapAccessState::DeserializeValue => Some(
                (SpannedField::Value, SpannedMapAccessState::LengthKey),
            ),
            SpannedMapAccessState::DeserializeLength => Some(
                (SpannedField::Length, SpannedMapAccessState::Done),
            ),
            _ => None,
        }
    }
}

} // verus!
