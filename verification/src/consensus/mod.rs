//! The event log and context store behind scabbard's two-phase commit.
//!
//! A service takes part in rounds of two-phase commit, one round per epoch,
//! as coordinator or as participant. What drives its state machine in a
//! round (a timer, a vote, a value to agree on, a message to deliver) is
//! recorded as an event, so that after a restart the service finds its place
//! in the protocol again.
//!
//! The store keeps these rules:
//!
//! - A service plays one role in an epoch. The tables would hold two; every
//!   operation that reads a role reads both tables and fails on two.
//! - No event is recorded for a service that has no role in the epoch.
//! - A role records only the events that it can meet: a participant starts
//!   no round, and each role delivers only the messages that it sends.
//! - Within one log, which is the events of one service in one epoch, the
//!   positions count up from one without a gap, in the order of the appends.
//! - An event is a header row and, unless it is an alarm, one detail row.
//!   Both are written or neither is.
//!
//! [`event`] and [`message`] hold the model, [`models`] the rows,
//! [`writer`] what is decided when an event is appended, [`reader`] the way
//! back from rows to events, and [`store`] the tables with their
//! operations. [`state`] says what the operations promise, [`invariants`]
//! why the tables stay well formed, and [`laws`] what follows for every
//! sequence of calls.

pub mod context;
pub mod event;
pub mod invariants;
pub mod laws;
pub mod message;
pub mod models;
pub mod reader;
pub mod service_id;
pub mod state;
pub mod store;
pub mod writer;
