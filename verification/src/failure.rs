//! The model of one failure event: an optional source location and a
//! payload that may or may not be textual.

use vstd::prelude::*;

verus! {

/// Source position of a failure: file path, line and column.
#[derive(Clone)]
pub struct Location {
    pub file: String,
    pub line: u32,
    pub column: u32,
}

/// The payload carried by a failure event.  The runtime hands the hook a
/// dynamically typed value; it is resolved once, at the adaptation
/// boundary, into this closed variant.  Anything that is not text is
/// rendered as a fixed placeholder.
#[derive(Clone)]
pub enum Payload {
    /// A text message owned by the failure event.
    OwnedText(String),
    /// A text message with static storage, as produced by a plain
    /// panic-with-literal site.
    StaticText(&'static str),
    /// A payload that is not textual.
    Opaque,
}

/// One failure event, valid only for the duration of a single
/// hook invocation.
#[derive(Clone)]
pub struct FailureInfo {
    pub location: Option<Location>,
    pub payload: Payload,
}

impl Payload {
    /// The text this payload renders as: the message verbatim when it is
    /// textual, the placeholder "No Info" otherwise.
    pub open spec fn spec_text(self) -> Seq<char> {
        match self {
            Payload::OwnedText(s) => s@,
            Payload::StaticText(s) => s@,
            Payload::Opaque => "No Info"@,
        }
    }

    /// Render the payload as text; total, never fails.
    pub fn text(&self) -> (r: String)
        ensures
            r@ == self.spec_text(),
    {
        match self {
            Payload::OwnedText(s) => s.clone(),
            Payload::StaticText(s) => (*s).to_owned(),
            Payload::Opaque => "No Info".to_owned(),
        }
    }
}

} // verus!
