//! Which identifier the node runs under.

use rand::Rng;
use vstd::prelude::*;
use vstd::string::StrSliceExecFns;
use vstd::string::StringExecFns;
use crate::daemon::error::UserError;
use crate::daemon::error::UserErrorView;
use crate::text::decimal;
use crate::text::decimal_string;
use crate::text::str_eq;

verus! {

/// Where the stored identifier of a node is kept.
#[derive(Debug, Clone, Copy, PartialEq, Eq, Structural)]
pub enum NodeIdOrigin {
    /// In the node's database.
    Database,
    /// In the `node_id` file of the state directory.
    File,
}

/// What to do about the identifier of the node.
#[derive(Debug, Clone, PartialEq, Eq)]
pub enum NodeIdDecision {
    /// Run under the stored identifier.
    Keep(String),
    /// Run under the configured identifier, and store it.
    Save(String),
    /// Nothing is stored and nothing configured: make up an identifier, and
    /// store it.
    Generate,
}

/// A decision as contracts see it.
pub enum DecisionView {
    Keep(Seq<char>),
    Save(Seq<char>),
    Generate,
}

impl View for NodeIdDecision {
    type V = DecisionView;

    open spec fn view(&self) -> DecisionView {
        match self {
            NodeIdDecision::Keep(id) => DecisionView::Keep(id@),
            NodeIdDecision::Save(id) => DecisionView::Save(id@),
            NodeIdDecision::Generate => DecisionView::Generate,
        }
    }
}

/// The word for the place where the stored identifier is kept.
pub open spec fn origin_text(origin: NodeIdOrigin) -> Seq<char> {
    match origin {
        NodeIdOrigin::Database => "database"@,
        NodeIdOrigin::File => "file"@,
    }
}

/// The message of the error for a stored identifier that is not the
/// configured one.
pub open spec fn mismatch_message(
    origin: NodeIdOrigin,
    stored: Seq<char>,
    configured: Seq<char>,
) -> Seq<char> {
    "node_id from "@ + origin_text(origin) + " "@ + stored
        + " does not match node_id from config "@ + configured
}

/// What an optional text holds, as characters.
pub open spec fn id_text(id: Option<&str>) -> Option<Seq<char>> {
    match id {
        Some(text) => Some(text@),
        None => None,
    }
}

/// Reconciles the stored identifier of the node with the configured one.
///
/// A stored identifier stands, and a configured one has to agree with it:
/// if it does not, the node does not start. Without a stored identifier the
/// configured one is taken and stored; without either, one is generated.
pub fn reconcile_node_id(
    origin: NodeIdOrigin,
    stored: Option<&str>,
    configured: Option<&str>,
) -> (decision: Result<NodeIdDecision, UserError>)
    ensures
        match (id_text(stored), id_text(configured)) {
            (Some(db), Some(conf)) => if db == conf {
                decision is Ok && decision->Ok_0@ == DecisionView::Keep(db)
            } else {
                decision is Err && decision->Err_0@ == UserErrorView::InvalidArgument(
                    mismatch_message(origin, db, conf),
                )
            },
            (Some(db), None) => decision is Ok && decision->Ok_0@ == DecisionView::Keep(db),
            (None, Some(conf)) => decision is Ok && decision->Ok_0@ == DecisionView::Save(conf),
            (None, None) => decision is Ok && decision->Ok_0@ == DecisionView::Generate,
        },
{
    match (stored, configured) {
        (Some(db), Some(conf)) => {
            if str_eq(db, conf) {
                Ok(NodeIdDecision::Keep(db.to_owned()))
            } else {
                let mut message = String::from_str("node_id from ");
                match origin {
                    NodeIdOrigin::Database => message.append("database"),
                    NodeIdOrigin::File => message.append("file"),
                }
                message.append(" ");
                message.append(db);
                message.append(" does not match node_id from config ");
                message.append(conf);
                Err(UserError::InvalidArgument(message))
            }
        },
        (Some(db), None) => Ok(NodeIdDecision::Keep(db.to_owned())),
        (None, Some(conf)) => Ok(NodeIdDecision::Save(conf.to_owned())),
        (None, None) => Ok(NodeIdDecision::Generate),
    }
}

/// The identifier that is made up from a number: the letter `n` and the
/// number in decimal.
pub open spec fn numbered_node_id(number: u16) -> Seq<char> {
    "n"@ + decimal(number as nat)
}

/// The identifier that is made up from `number`.
pub fn node_id_from_number(number: u16) -> (node_id: String)
    ensures
        node_id@ == numbered_node_id(number),
{
    let mut node_id = String::from_str("n");
    let digits = decimal_string(number as u64);
    node_id.append(digits.as_str());
    node_id
}

/// `gen::<u16>()` on `rand::thread_rng()`: a number drawn from the thread's
/// generator, which the system seeds. Nothing is promised of it but its
/// type.
#[verifier::external_body]
fn random_number() -> (number: u16) {
    rand::thread_rng().gen::<u16>()
}

/// Makes up an identifier for a node that has none: the letter `n` and a
/// random number.
pub fn generate_node_id() -> (node_id: String)
    ensures
        exists|number: u16| node_id@ == numbered_node_id(number),
{
    node_id_from_number(random_number())
}

/// The identifier that a `node_id` file holds: its contents without the
/// line feed at their end, if there is one.
pub open spec fn file_node_id(contents: Seq<char>) -> Seq<char> {
    if contents.len() > 0 && contents.last() == '\n' {
        contents.drop_last()
    } else {
        contents
    }
}

/// Reads the identifier out of the contents of a `node_id` file.
pub fn node_id_from_file(contents: &str) -> (node_id: String)
    ensures
        node_id@ == file_node_id(contents@),
{
    let n = contents.unicode_len();
    if n > 0 && contents.get_char(n - 1) == '\n' {
        String::from_str(contents.substring_char(0, n - 1))
    } else {
        String::from_str(contents)
    }
}

} // verus!
