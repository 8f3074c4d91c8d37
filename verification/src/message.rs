//! The one protocol event the bot looks at, reduced to what it reads.

use vstd::prelude::*;

verus! {

/// What kind of protocol event a message is.
#[derive(Clone, Copy, Debug, PartialEq, Eq, Structural)]
pub enum MessageKind {
    /// A text message, sent to a channel or to the bot itself.
    Text,
    /// Anything else: joins, notices, server replies and so on.
    Other,
}

/// One incoming message. The transport owns the event; this is the part
/// of it that decides whether and how the bot answers.
#[derive(Debug)]
pub struct IncomingMessage {
    pub kind: MessageKind,
    /// The text of a text message. Not read for any other kind.
    pub body: String,
    /// The nickname of whoever sent the message, where it has one.
    pub sender: Option<String>,
    /// Where an answer has to go: the channel the message was sent to, or
    /// else its sender. Absent where neither can be told.
    pub reply_target: Option<String>,
}

/// An incoming message as plain values.
pub ghost struct MessageView {
    pub is_text: bool,
    pub body: Seq<char>,
    pub sender: Option<Seq<char>>,
    pub reply_target: Option<Seq<char>>,
}

impl View for IncomingMessage {
    type V = MessageView;

    open spec fn view(&self) -> MessageView {
        MessageView {
            is_text: self.kind == MessageKind::Text,
            body: self.body@,
            sender: self.sender.deep_view(),
            reply_target: self.reply_target.deep_view(),
        }
    }
}

impl IncomingMessage {
    /// The nickname of the sender, if the message has one.
    pub fn source_nickname(&self) -> (nick: Option<&str>)
        ensures
            nick.deep_view() == self@.sender,
    {
        match &self.sender {
            Some(nick) => Some(nick.as_str()),
            None => None,
        }
    }

    /// Where an answer to this message goes, if anywhere.
    pub fn response_target(&self) -> (target: Option<&str>)
        ensures
            target.deep_view() == self@.reply_target,
    {
        match &self.reply_target {
            Some(target) => Some(target.as_str()),
            None => None,
        }
    }
}

} // verus!
