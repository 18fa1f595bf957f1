//! Conventional commit messages: a type token, the message, and an
//! optional ticket reference taken from the message or given alongside it.
pub mod commit_type;
pub mod message;
pub mod ticket;

pub use commit_type::ConventionalCommitType;
pub use message::{format_commit_message, infer_commit_type};
pub use ticket::infer_ticket_name;
