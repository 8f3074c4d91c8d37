//! Turns chat messages addressed to a bot into argument lists for a
//! command-line grammar, and says where and how the answer goes back.
//!
//! A message runs through these stages, each in a module of its own:
//! the command is extracted from a message that addresses the bot
//! ([`irc_util`]), split into words ([`text`]) and extended by the context
//! of the message ([`context`]); the arguments are parsed by the command's
//! grammar ([`grammar`]), and the outcome says whether the command is to
//! be run or a failure to be reported, and on which stream ([`dispatch`]).

pub mod context;
pub mod dispatch;
pub mod grammar;
pub mod irc_util;
pub mod message;
pub mod text;

pub use crate::context::{IrclapContextMapper, IrclapSimpleContextMapping};
pub use crate::dispatch::{IrclapProcessor, MessageOutcome};
pub use crate::irc_util::{DeliveryMode, IrcResponseStream, OutboundLine};
pub use crate::message::{IncomingMessage, MessageKind};
