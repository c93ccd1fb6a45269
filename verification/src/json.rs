//! Reading JSON text. The reading itself is left to `serde_json`.

use vstd::prelude::*;

verus! {

/// The model of a [`Reading`].
pub struct ReadingView {
    pub text: Seq<char>,
    pub members: Option<Seq<(Seq<char>, Seq<char>)>>,
}

/// What a JSON text holds, as far as this library looks into it.
#[derive(Debug, PartialEq, Eq)]
pub struct Reading {
    /// The value in compact form.
    pub text: String,
    /// Where the value is an object: its members, each with its name and its
    /// value in compact form.
    pub members: Option<Vec<(String, String)>>,
}

impl View for Reading {
    type V = ReadingView;

    open spec fn view(&self) -> ReadingView {
        ReadingView {
            text: self.text@,
            members: match self.members {
                Some(members) => Some(members.deep_view()),
                None => None,
            },
        }
    }
}

/// The model of an attempt to read a text: the reading, or why there is none.
pub open spec fn attempt_view(attempt: Result<Reading, String>) -> Result<ReadingView, Seq<char>> {
    match attempt {
        Ok(reading) => Ok(reading@),
        Err(why) => Err(why@),
    }
}

/// What `serde_json` makes of a text: the value that the text denotes, or the
/// message of the error with which the text is rejected.
pub uninterp spec fn json_reading(text: Seq<char>) -> Result<ReadingView, Seq<char>>;

/// Reads `text` with `serde_json::from_str`, as a `serde_json::Value`.
///
/// Nothing is proved of this function. Its contract gives the outcome a name,
/// [`json_reading`]: the same text always reads the same. Where the text is
/// JSON, the reading holds the value as `serde_json` displays it, and the
/// members of the value where it is an object; where it is not, the error is
/// handed on as its message.
#[verifier::external_body]
pub(crate) fn read_json(text: &str) -> (attempt: Result<Reading, String>)
    ensures
        attempt_view(attempt) == json_reading(text@),
{
    match serde_json::from_str::<serde_json::Value>(text) {
        Ok(value) => Ok(
            Reading {
                members: value.as_object().map(
                    |object| object.iter().map(|(name, member)| (name.clone(), member.to_string())).collect(),
                ),
                text: value.to_string(),
            },
        ),
        Err(error) => Err(error.to_string()),
    }
}

} // verus!
