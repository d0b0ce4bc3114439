//! The messages that the coordinator and the participants of a two-phase
//! commit round send each other, and how their parts are written on disk.

use vstd::prelude::*;
use crate::text::str_eq;

verus! {

/// A message between the peers of one round.
#[derive(Debug, Clone, PartialEq, Eq)]
pub enum Scabbard2pcMessage {
    /// Coordinator to participant: vote on this value.
    VoteRequest(Vec<u8>),
    /// Participant to coordinator: the vote.
    VoteResponse(bool),
    /// Coordinator to participant: the round is committed.
    Commit,
    /// Coordinator to participant: the round is aborted.
    Abort,
    /// Participant to coordinator: tell the outcome again.
    DecisionRequest,
}

/// A message as contracts see it.
pub enum MessageView {
    VoteRequest(Seq<u8>),
    VoteResponse(bool),
    Commit,
    Abort,
    DecisionRequest,
}

impl View for Scabbard2pcMessage {
    type V = MessageView;

    open spec fn view(&self) -> MessageView {
        match self {
            Scabbard2pcMessage::VoteRequest(value) => MessageView::VoteRequest(value@),
            Scabbard2pcMessage::VoteResponse(vote) => MessageView::VoteResponse(*vote),
            Scabbard2pcMessage::Commit => MessageView::Commit,
            Scabbard2pcMessage::Abort => MessageView::Abort,
            Scabbard2pcMessage::DecisionRequest => MessageView::DecisionRequest,
        }
    }
}

/// Which variant a message is, without its payload.
#[derive(Debug, Clone, Copy, PartialEq, Eq, Structural)]
pub enum MessageKind {
    VoteRequest,
    VoteResponse,
    Commit,
    Abort,
    DecisionRequest,
}

impl MessageView {
    /// The variant of the message.
    pub open spec fn kind(self) -> MessageKind {
        match self {
            MessageView::VoteRequest(_) => MessageKind::VoteRequest,
            MessageView::VoteResponse(_) => MessageKind::VoteResponse,
            MessageView::Commit => MessageKind::Commit,
            MessageView::Abort => MessageKind::Abort,
            MessageView::DecisionRequest => MessageKind::DecisionRequest,
        }
    }
}

/// The discriminator under which a message variant is persisted.
pub open spec fn message_type_text(kind: MessageKind) -> Seq<char> {
    match kind {
        MessageKind::VoteRequest => "VOTE_REQUEST"@,
        MessageKind::VoteResponse => "VOTE_RESPONSE"@,
        MessageKind::Commit => "COMMIT"@,
        MessageKind::Abort => "ABORT"@,
        MessageKind::DecisionRequest => "DECISION_REQUEST"@,
    }
}

/// The variant that a persisted discriminator names, if it names one.
pub open spec fn message_kind_of_text(text: Seq<char>) -> Option<MessageKind> {
    if text == "VOTE_REQUEST"@ {
        Some(MessageKind::VoteRequest)
    } else if text == "VOTE_RESPONSE"@ {
        Some(MessageKind::VoteResponse)
    } else if text == "COMMIT"@ {
        Some(MessageKind::Commit)
    } else if text == "ABORT"@ {
        Some(MessageKind::Abort)
    } else if text == "DECISION_REQUEST"@ {
        Some(MessageKind::DecisionRequest)
    } else {
        None
    }
}

/// How a vote is persisted: the upper-case words, never a number.
pub open spec fn vote_text(vote: bool) -> Seq<char> {
    if vote {
        "TRUE"@
    } else {
        "FALSE"@
    }
}

/// The vote that a persisted word stands for. Only the two upper-case words
/// are votes.
pub open spec fn vote_of_text(text: Seq<char>) -> Option<bool> {
    if text == "TRUE"@ {
        Some(true)
    } else if text == "FALSE"@ {
        Some(false)
    } else {
        None
    }
}

/// The discriminators of the message variants differ from each other.
pub proof fn lemma_message_type_texts_distinct()
    ensures
        forall|kind: MessageKind| #[trigger]
            message_kind_of_text(message_type_text(kind)) == Some(kind),
{
    reveal_strlit("VOTE_REQUEST");
    reveal_strlit("VOTE_RESPONSE");
    reveal_strlit("COMMIT");
    reveal_strlit("ABORT");
    reveal_strlit("DECISION_REQUEST");
    assert("VOTE_REQUEST"@.len() == 12);
    assert("VOTE_RESPONSE"@.len() == 13);
    assert("COMMIT"@.len() == 6);
    assert("ABORT"@.len() == 5);
    assert("DECISION_REQUEST"@.len() == 16);
}

/// Writing a vote and reading it back gives the vote.
pub proof fn lemma_vote_text_round_trip()
    ensures
        forall|vote: bool| #[trigger] vote_of_text(vote_text(vote)) == Some(vote),
{
    reveal_strlit("TRUE");
    reveal_strlit("FALSE");
    assert("TRUE"@.len() == 4);
    assert("FALSE"@.len() == 5);
}

impl MessageKind {
    /// The persisted discriminator of the variant.
    pub fn name(self) -> (name: &'static str)
        ensures
            name@ == message_type_text(self),
    {
        match self {
            MessageKind::VoteRequest => "VOTE_REQUEST",
            MessageKind::VoteResponse => "VOTE_RESPONSE",
            MessageKind::Commit => "COMMIT",
            MessageKind::Abort => "ABORT",
            MessageKind::DecisionRequest => "DECISION_REQUEST",
        }
    }

    /// Reads a persisted discriminator.
    pub fn from_name(name: &str) -> (kind: Option<MessageKind>)
        ensures
            kind == message_kind_of_text(name@),
    {
        if str_eq(name, "VOTE_REQUEST") {
            Some(MessageKind::VoteRequest)
        } else if str_eq(name, "VOTE_RESPONSE") {
            Some(MessageKind::VoteResponse)
        } else if str_eq(name, "COMMIT") {
            Some(MessageKind::Commit)
        } else if str_eq(name, "ABORT") {
            Some(MessageKind::Abort)
        } else if str_eq(name, "DECISION_REQUEST") {
            Some(MessageKind::DecisionRequest)
        } else {
            None
        }
    }
}

impl Scabbard2pcMessage {
    /// The variant of the message.
    pub fn kind(&self) -> (kind: MessageKind)
        ensures
            kind == self@.kind(),
    {
        match self {
            Scabbard2pcMessage::VoteRequest(_) => MessageKind::VoteRequest,
            Scabbard2pcMessage::VoteResponse(_) => MessageKind::VoteResponse,
            Scabbard2pcMessage::Commit => MessageKind::Commit,
            Scabbard2pcMessage::Abort => MessageKind::Abort,
            Scabbard2pcMessage::DecisionRequest => MessageKind::DecisionRequest,
        }
    }

    /// The persisted discriminator of the message.
    pub fn message_type(&self) -> (name: &'static str)
        ensures
            name@ == message_type_text(self@.kind()),
    {
        self.kind().name()
    }
}

/// The persisted word for a vote.
pub fn vote_str(vote: bool) -> (word: &'static str)
    ensures
        word@ == vote_text(vote),
{
    if vote {
        "TRUE"
    } else {
        "FALSE"
    }
}

/// Reads a persisted vote. Anything but `TRUE` and `FALSE` is no vote.
pub fn parse_vote(word: &str) -> (vote: Option<bool>)
    ensures
        vote == vote_of_text(word@),
{
    if str_eq(word, "TRUE") {
        Some(true)
    } else if str_eq(word, "FALSE") {
        Some(false)
    } else {
        None
    }
}

} // verus!
