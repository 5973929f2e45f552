//! Task lifecycle states and their wire strings.
//!
//! Known states map to fixed wire strings ("submitted", "input-required", ...).
//! Any other wire string is kept verbatim in `Unknown`, so reading a state and
//! writing it back reproduces the text that was read.

use vstd::prelude::*;

use crate::text::text_eq;

verus! {

/// The lifecycle state of a task.
#[derive(Debug, Clone, PartialEq, Eq, Hash)]
pub enum TaskState {
    /// Accepted, work not started.
    Submitted,
    /// Being processed.
    Working,
    /// Finished successfully (terminal).
    Completed,
    /// Failed with an unrecoverable error (terminal).
    Failed,
    /// Canceled by the caller (terminal).
    Canceled,
    /// Waiting for more input from the caller.
    InputRequired,
    /// Rejected by the agent (terminal).
    Rejected,
    /// Waiting for the caller to authenticate.
    AuthRequired,
    /// A state this version does not know, carrying its wire string unchanged.
    Unknown(String),
}

/// Whether `s` is the wire string of one of the eight known states.
pub open spec fn is_known_state_wire(s: Seq<char>) -> bool {
    ||| s == "submitted"@
    ||| s == "working"@
    ||| s == "completed"@
    ||| s == "failed"@
    ||| s == "canceled"@
    ||| s == "input-required"@
    ||| s == "rejected"@
    ||| s == "auth-required"@
}

impl TaskState {
    /// The wire string of a state: fixed for known states, the stored text for `Unknown`.
    pub open spec fn wire(&self) -> Seq<char> {
        match self {
            TaskState::Submitted => "submitted"@,
            TaskState::Working => "working"@,
            TaskState::Completed => "completed"@,
            TaskState::Failed => "failed"@,
            TaskState::Canceled => "canceled"@,
            TaskState::InputRequired => "input-required"@,
            TaskState::Rejected => "rejected"@,
            TaskState::AuthRequired => "auth-required"@,
            TaskState::Unknown(s) => s@,
        }
    }

    /// Terminal states: the task will not change again.
    pub open spec fn spec_is_terminal(&self) -> bool {
        ||| self is Completed
        ||| self is Failed
        ||| self is Canceled
        ||| self is Rejected
    }

    /// Two states denote the same state: same variant and same wire string.
    pub open spec fn same_state(&self, other: &TaskState) -> bool {
        &&& self.wire() == other.wire()
        &&& (self is Unknown <==> other is Unknown)
    }

    /// Whether this state is terminal (completed, failed, canceled, rejected).
    /// `Unknown` states are never terminal.
    pub fn is_terminal(&self) -> (r: bool)
        ensures
            r == self.spec_is_terminal(),
    {
        match self {
            TaskState::Completed | TaskState::Failed | TaskState::Canceled | TaskState::Rejected => true,
            _ => false,
        }
    }

    /// The wire string of this state.
    pub fn as_str(&self) -> (r: &str)
        ensures
            r@ == self.wire(),
    {
        match self {
            TaskState::Submitted => "submitted",
            TaskState::Working => "working",
            TaskState::Completed => "completed",
            TaskState::Failed => "failed",
            TaskState::Canceled => "canceled",
            TaskState::InputRequired => "input-required",
            TaskState::Rejected => "rejected",
            TaskState::AuthRequired => "auth-required",
            TaskState::Unknown(value) => value.as_str(),
        }
    }

    /// The display text of this state, identical to its wire string.
    pub fn to_string(&self) -> (r: String)
        ensures
            r@ == self.wire(),
    {
        self.as_str().to_owned()
    }

    /// Reads a state from its wire string. Known strings give their variant;
    /// any other string gives `Unknown` holding that exact string.
    pub fn from_wire(raw: &str) -> (r: TaskState)
        ensures
            r.wire() == raw@,
            r is Unknown <==> !is_known_state_wire(raw@),
    {
        if text_eq(raw, "submitted") {
            TaskState::Submitted
        } else if text_eq(raw, "working") {
            TaskState::Working
        } else if text_eq(raw, "completed") {
            TaskState::Completed
        } else if text_eq(raw, "failed") {
            TaskState::Failed
        } else if text_eq(raw, "canceled") {
            TaskState::Canceled
        } else if text_eq(raw, "input-required") {
            TaskState::InputRequired
        } else if text_eq(raw, "rejected") {
            TaskState::Rejected
        } else if text_eq(raw, "auth-required") {
            TaskState::AuthRequired
        } else {
            TaskState::Unknown(raw.to_owned())
        }
    }
}

/// The first character and the length of a known wire string identify its state.
proof fn lemma_known_wire_shape(s: TaskState)
    requires
        !(s is Unknown),
    ensures
        s.wire().len() > 0,
        s is Submitted <==> (s.wire()[0] == 's' && s.wire().len() == 9),
        s is Working <==> (s.wire()[0] == 'w' && s.wire().len() == 7),
        s is Completed <==> (s.wire()[0] == 'c' && s.wire().len() == 9),
        s is Failed <==> (s.wire()[0] == 'f' && s.wire().len() == 6),
        s is Canceled <==> (s.wire()[0] == 'c' && s.wire().len() == 8),
        s is InputRequired <==> (s.wire()[0] == 'i' && s.wire().len() == 14),
        s is Rejected <==> (s.wire()[0] == 'r' && s.wire().len() == 8),
        s is AuthRequired <==> (s.wire()[0] == 'a' && s.wire().len() == 13),
{
    reveal_strlit("submitted");
    reveal_strlit("working");
    reveal_strlit("completed");
    reveal_strlit("failed");
    reveal_strlit("canceled");
    reveal_strlit("input-required");
    reveal_strlit("rejected");
    reveal_strlit("auth-required");
}

/// Round trip: reading back the wire string of a state gives the same state,
/// for every state except an `Unknown` that holds one of the known wire strings.
pub proof fn lemma_wire_round_trip(s: TaskState, read_back: TaskState)
    requires
        !(s is Unknown && is_known_state_wire(s.wire())),
        read_back.wire() == s.wire(),
        read_back is Unknown <==> !is_known_state_wire(s.wire()),
    ensures
        read_back.same_state(&s),
        !(s is Unknown) ==> read_back == s,
{
    if !(s is Unknown) {
        lemma_known_wire_shape(s);
        assert(is_known_state_wire(s.wire()));
        lemma_known_wire_shape(read_back);
    }
}

/// Display and wire form agree: the text shown for a state is the text written
/// on the wire, and a state is terminal exactly when it is one of the four
/// terminal variants (never when unknown).
pub proof fn lemma_unknown_is_never_terminal(s: TaskState)
    ensures
        s is Unknown ==> !s.spec_is_terminal(),
{
}

} // verus!
