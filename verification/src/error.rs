//! The conditions under which an operation fails, each with its message.

use vstd::prelude::*;
use vstd::string::StringExecFns;

verus! {

/// What can go wrong.
#[derive(Debug, Clone)]
pub enum Error {
    /// The filesystem failed; the cause as the system worded it.
    Io(String),
    /// A document could not be read or written as JSON; the cause as the
    /// codec worded it.
    Serialization(String),
    /// Version control failed; the cause as it worded it.
    Git(String),
    /// No pending handoff matches the identifier.
    HandoffNotFound(String),
    /// An action needs a handoff in progress and there is none.
    NoActiveHandoff,
    /// An action needs an identity and none is set.
    AgentNotRegistered(String),
    /// A mode name stands for no mode.
    InvalidMode(String),
    /// A value was refused.
    Validation(String),
}

/// A condition, as mathematical values.
pub enum ErrorView {
    Io(Seq<char>),
    Serialization(Seq<char>),
    Git(Seq<char>),
    HandoffNotFound(Seq<char>),
    NoActiveHandoff,
    AgentNotRegistered(Seq<char>),
    InvalidMode(Seq<char>),
    Validation(Seq<char>),
}

impl View for Error {
    type V = ErrorView;

    open spec fn view(&self) -> ErrorView {
        match self {
            Error::Io(cause) => ErrorView::Io(cause@),
            Error::Serialization(cause) => ErrorView::Serialization(cause@),
            Error::Git(cause) => ErrorView::Git(cause@),
            Error::HandoffNotFound(id) => ErrorView::HandoffNotFound(id@),
            Error::NoActiveHandoff => ErrorView::NoActiveHandoff,
            Error::AgentNotRegistered(detail) => ErrorView::AgentNotRegistered(detail@),
            Error::InvalidMode(name) => ErrorView::InvalidMode(name@),
            Error::Validation(detail) => ErrorView::Validation(detail@),
        }
    }
}

impl ErrorView {
    /// The message of the condition: a fixed wording, followed by the cause
    /// or detail unchanged where there is one.
    pub open spec fn message(self) -> Seq<char> {
        match self {
            ErrorView::Io(cause) => "IO error: "@ + cause,
            ErrorView::Serialization(cause) => "Serialization error: "@ + cause,
            ErrorView::Git(cause) => "Git error: "@ + cause,
            ErrorView::HandoffNotFound(id) => "Handoff not found: "@ + id,
            ErrorView::NoActiveHandoff => "No active handoff in progress. Start one with 'deploy new', 'debug new', or 'plan new'"@,
            ErrorView::AgentNotRegistered(detail) => "Agent not registered: "@ + detail,
            ErrorView::InvalidMode(name) => "Invalid mode: "@ + name,
            ErrorView::Validation(detail) => "Validation error: "@ + detail,
        }
    }

    /// Whether the condition is one of the domain's own: a handoff not
    /// found, no handoff in progress, no identity, no such mode.
    pub open spec fn is_domain(self) -> bool {
        self is HandoffNotFound || self is NoActiveHandoff || self is AgentNotRegistered
            || self is InvalidMode
    }

    /// Whether two conditions are of the same kind, whatever their details.
    pub open spec fn same_kind(self, other: ErrorView) -> bool {
        match self {
            ErrorView::Io(_) => other is Io,
            ErrorView::Serialization(_) => other is Serialization,
            ErrorView::Git(_) => other is Git,
            ErrorView::HandoffNotFound(_) => other is HandoffNotFound,
            ErrorView::NoActiveHandoff => other is NoActiveHandoff,
            ErrorView::AgentNotRegistered(_) => other is AgentNotRegistered,
            ErrorView::InvalidMode(_) => other is InvalidMode,
            ErrorView::Validation(_) => other is Validation,
        }
    }
}

fn prefixed(prefix: &str, detail: &String) -> (r: String)
    ensures
        r@ == prefix@ + detail@,
{
    let mut r = String::new();
    r.append(prefix);
    r.append(detail.as_str());
    assert(r@ =~= prefix@ + detail@);
    r
}

impl Error {
    /// The message of the condition.
    pub fn message(&self) -> (r: String)
        ensures
            r@ == self@.message(),
    {
        match self {
            Error::Io(cause) => prefixed("IO error: ", cause),
            Error::Serialization(cause) => prefixed("Serialization error: ", cause),
            Error::Git(cause) => prefixed("Git error: ", cause),
            Error::HandoffNotFound(id) => prefixed("Handoff not found: ", id),
            Error::NoActiveHandoff => "No active handoff in progress. Start one with 'deploy new', 'debug new', or 'plan new'".to_owned(),
            Error::AgentNotRegistered(detail) => prefixed("Agent not registered: ", detail),
            Error::InvalidMode(name) => prefixed("Invalid mode: ", name),
            Error::Validation(detail) => prefixed("Validation error: ", detail),
        }
    }
}

/// The messages of two domain conditions of different kinds differ,
/// whatever their details: they differ in their first letter.
pub proof fn lemma_domain_messages_distinct(a: ErrorView, b: ErrorView)
    requires
        a.is_domain(),
        b.is_domain(),
        !a.same_kind(b),
    ensures
        a.message() != b.message(),
{
    reveal_strlit("Handoff not found: ");
    reveal_strlit(
        "No active handoff in progress. Start one with 'deploy new', 'debug new', or 'plan new'",
    );
    reveal_strlit("Agent not registered: ");
    reveal_strlit("Invalid mode: ");
    let first_a = a.message()[0];
    let first_b = b.message()[0];
    assert(a is HandoffNotFound ==> first_a == 'H');
    assert(a is NoActiveHandoff ==> first_a == 'N');
    assert(a is AgentNotRegistered ==> first_a == 'A');
    assert(a is InvalidMode ==> first_a == 'I');
    assert(b is HandoffNotFound ==> first_b == 'H');
    assert(b is NoActiveHandoff ==> first_b == 'N');
    assert(b is AgentNotRegistered ==> first_b == 'A');
    assert(b is InvalidMode ==> first_b == 'I');
    assert(first_a != first_b);
}

} // verus!
