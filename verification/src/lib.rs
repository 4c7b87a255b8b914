//! Command dispatch and completion-call orchestration for a tarot-reading chat bot.
//!
//! The crate holds the decisions of the bot as pure, verified functions: which
//! handler a command name selects, what each handler sends and in which order,
//! how the outcome of the completion call becomes a channel message, and which
//! commands are registered when the gateway reports that it is ready. The
//! caller performs the sends and the network call and reports back what happened.

pub mod gpt3;
pub mod handler;
pub mod interaction;
pub mod router;
pub mod startup;
pub mod traces;
