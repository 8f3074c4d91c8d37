//! Deciding whether a message addresses the bot, what command it holds,
//! and how an answer reaches the place the message came from.

use crate::message::{IncomingMessage, MessageKind, MessageView};
use crate::text::{
    strip_prefix, trim_matches, trim_start_matches, trimmed, trimmed_start, CharClass,
};
use irc::proto::ChannelExt;
use vstd::prelude::*;

verus! {

/// Whether a target names a channel rather than a single user: channel
/// names start with `#`, `&`, `+` or `!`.
pub open spec fn is_group_target(target: Seq<char>) -> bool {
    target.len() > 0 && (target[0] == '#' || target[0] == '&' || target[0] == '+' || target[0]
        == '!')
}

/// Calls `ChannelExt::is_channel_name` of the `irc` crate on a string
/// slice. Trusted: that it looks at the first character only and accepts
/// exactly the four channel prefixes.
#[verifier::external_body]
fn is_channel_name(target: &str) -> (group: bool)
    ensures
        group == is_group_target(target@),
{
    target.is_channel_name()
}

/// How a line is delivered.
#[derive(Clone, Copy, Debug, PartialEq, Eq, Structural)]
pub enum DeliveryMode {
    /// As a notice, the way to speak in a channel without addressing
    /// anybody in it.
    Notice,
    /// As a private message, the direct reply to one user.
    Privmsg,
}

/// The delivery mode that a target calls for.
pub open spec fn delivery_mode_for(target: Seq<char>) -> DeliveryMode {
    if is_group_target(target) {
        DeliveryMode::Notice
    } else {
        DeliveryMode::Privmsg
    }
}

/// One line on its way out: what to send, where, and how.
#[derive(Debug, PartialEq, Eq)]
pub struct OutboundLine {
    pub mode: DeliveryMode,
    pub target: String,
    pub text: String,
}

/// The way back to wherever a message came from. It is bound to one
/// target when it is made and never answers anywhere else.
#[derive(Clone, Copy, Debug)]
pub struct IrcResponseStream<'c> {
    response_target: &'c str,
}

impl<'c> IrcResponseStream<'c> {
    /// The target that every line of this stream goes to.
    pub closed spec fn target(&self) -> Seq<char> {
        self.response_target@
    }

    pub fn new(rt: &'c str) -> (stream: IrcResponseStream<'c>)
        ensures
            stream.target() == rt@,
    {
        IrcResponseStream { response_target: rt }
    }

    /// The target that every line of this stream goes to.
    pub fn response_target(&self) -> (rt: &'c str)
        ensures
            rt@ == self.target(),
    {
        self.response_target
    }

    /// Notice for a channel, private message for anybody else.
    pub fn delivery_mode(&self) -> (mode: DeliveryMode)
        ensures
            mode == delivery_mode_for(self.target()),
    {
        if is_channel_name(self.response_target) {
            DeliveryMode::Notice
        } else {
            DeliveryMode::Privmsg
        }
    }

    /// The one line that answers with `msg`: addressed to this stream's
    /// target, in the mode that the target calls for, with the text as
    /// given.
    pub fn outbound_line(&self, msg: &str) -> (line: OutboundLine)
        ensures
            line.mode == delivery_mode_for(self.target()),
            line.target@ == self.target(),
            line.text@ == msg@,
    {
        OutboundLine {
            mode: self.delivery_mode(),
            target: self.response_target.to_owned(),
            text: msg.to_owned(),
        }
    }
}

/// The command in the text that follows the bot's name. The separator
/// that stands right behind the name is taken off the front: colons, then
/// commas. Then whitespace is trimmed off both ends. Punctuation at the
/// end belongs to the command and stays.
pub open spec fn command_text(rest: Seq<char>) -> Seq<char> {
    trimmed(
        trimmed_start(trimmed_start(rest, CharClass::Exactly(':')), CharClass::Exactly(',')),
        CharClass::Whitespace,
    )
}

/// The command in a text that starts with the bot's name, character for
/// character; nothing for any other text.
pub open spec fn stripped(botname: Seq<char>, body: Seq<char>) -> Option<Seq<char>> {
    if botname.is_prefix_of(body) {
        Some(command_text(body.skip(botname.len() as int)))
    } else {
        None
    }
}

impl MessageView {
    /// Whether an answer to the message goes to a channel.
    pub open spec fn is_group(self) -> bool {
        self.reply_target matches Some(target) && is_group_target(target)
    }
}

/// The command that a message holds for the bot, if any. In a channel the
/// bot has to be called by name. Spoken to directly, it need not be: the
/// name is taken off where it leads, and the whole text is the command
/// where it does not. Only text messages hold commands.
pub open spec fn extracted(botname: Seq<char>, msg: MessageView) -> Option<Seq<char>> {
    if !msg.is_text {
        None
    } else if msg.is_group() {
        stripped(botname, msg.body)
    } else {
        match stripped(botname, msg.body) {
            Some(command) => Some(command),
            None => Some(msg.body),
        }
    }
}

/// Takes the bot's name off the front of `msg` and trims what follows.
pub fn strip_botname<'m>(botname: &str, msg: &'m str) -> (command: Option<&'m str>)
    ensures
        command.deep_view() == stripped(botname@, msg@),
{
    match strip_prefix(msg, botname) {
        Some(rest) => {
            let rest = trim_start_matches(rest, CharClass::Exactly(':'));
            let rest = trim_start_matches(rest, CharClass::Exactly(','));
            Some(trim_matches(rest, CharClass::Whitespace))
        },
        None => None,
    }
}

/// The command that `msg` holds for the bot called `botname`, as a slice
/// of the message's text.
pub fn extract_command<'m>(botname: &str, msg: &'m IncomingMessage) -> (command: Option<&'m str>)
    ensures
        command.deep_view() == extracted(botname@, msg@),
{
    let is_channel = match msg.response_target() {
        Some(rt) => is_channel_name(rt),
        None => false,
    };
    match msg.kind {
        MessageKind::Text => {
            let stripped = strip_botname(botname, msg.body.as_str());
            if is_channel {
                stripped
            } else {
                match stripped {
                    Some(command) => Some(command),
                    None => Some(msg.body.as_str()),
                }
            }
        },
        MessageKind::Other => None,
    }
}

/// In a channel, a message that does not start with the bot's name holds
/// no command.
pub proof fn lemma_group_message_needs_name(botname: Seq<char>, msg: MessageView)
    requires
        msg.is_group(),
        !botname.is_prefix_of(msg.body),
    ensures
        extracted(botname, msg) is None,
{
}

/// A text message sent to the bot directly always holds a command: what
/// follows the bot's name where the text starts with it, the whole text
/// where it does not.
pub proof fn lemma_direct_message_is_command(botname: Seq<char>, msg: MessageView)
    requires
        msg.is_text,
        !msg.is_group(),
    ensures
        extracted(botname, msg) is Some,
        !botname.is_prefix_of(msg.body) ==> extracted(botname, msg) == Some(msg.body),
        botname.is_prefix_of(msg.body) ==> extracted(botname, msg) == Some(
            command_text(msg.body.skip(botname.len() as int)),
        ),
{
}

/// Every target gets exactly one of the two delivery modes, and its first
/// character decides which: notice for a channel, private message for
/// anything else.
pub proof fn lemma_delivery_mode_by_target(target: Seq<char>)
    ensures
        is_group_target(target) <==> delivery_mode_for(target) == DeliveryMode::Notice,
        !is_group_target(target) <==> delivery_mode_for(target) == DeliveryMode::Privmsg,
{
}

} // verus!
