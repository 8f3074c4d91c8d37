//! Handling one message from end to end: extract the command, split it
//! into words, add the context, parse, and say what has to happen next.

use crate::context::IrclapContextMapper;
use crate::grammar::{
    describe_failure, failure_description, grammar_is_sound, parse_arguments,
    without_binary_name,
};
use crate::irc_util::{
    delivery_mode_for, extract_command, extracted, IrcResponseStream, OutboundLine,
};
use crate::message::{IncomingMessage, MessageView};
use crate::text::{split_whitespace, tokens};
use std::borrow::Cow;
use vstd::prelude::*;
use vstd::string::*;

verus! {

/// What a bot is made of besides its grammar: the mapper that adds
/// context to a command's words, and the processor that runs the command.
pub struct IrclapProcessor<CM, CP> {
    pub mapper: CM,
    pub processor: CP,
}

impl<CM, CP> IrclapProcessor<CM, CP> {
    pub fn new(mapper: CM, processor: CP) -> (context: IrclapProcessor<CM, CP>)
        ensures
            context.mapper == mapper,
            context.processor == processor,
    {
        IrclapProcessor { mapper: mapper, processor: processor }
    }
}

/// What handling a message comes to.
pub enum MessageOutcome<'a, 'm> {
    /// The message has no reply target. It is dropped before anything
    /// else is looked at.
    Unanswerable,
    /// The message holds no command for the bot. It is dropped silently.
    NotAddressed,
    /// The command parsed. The processor is to be run on the matches, with
    /// the stream to answer on.
    Dispatch { matches: clap::ArgMatches<'a>, responder: IrcResponseStream<'m> },
    /// The command did not parse. The processor is not run; this one line,
    /// which describes the failure, is sent instead.
    Report { line: OutboundLine },
}

/// What every line that reports a failed parse starts with.
pub open spec fn argument_error_prefix() -> Seq<char> {
    "Argument error: "@
}

/// Whether `text` reports a failed parse: the fixed prefix, and behind it
/// the description of some failure of the parser.
pub open spec fn is_failure_report(text: Seq<char>) -> bool {
    exists|error: clap::Error|
        text == argument_error_prefix() + #[trigger] failure_description(error)
}

impl<'a, 'm> MessageOutcome<'a, 'm> {
    /// Whether whatever the outcome sends goes to `target` and nowhere
    /// else: the stream of a dispatch is that of `target`, and the line of
    /// a report is addressed to it, in the mode that it calls for, and
    /// reports a failure of the parser. An outcome that sends nothing is
    /// bound to any target.
    pub open spec fn answers_only(self, target: Seq<char>) -> bool {
        match self {
            MessageOutcome::Dispatch { responder, .. } => responder.target() == target,
            MessageOutcome::Report { line } => {
                &&& line.mode == delivery_mode_for(target)
                &&& line.target@ == target
                &&& is_failure_report(line.text@)
            },
            _ => true,
        }
    }
}

/// The words of the command that a message holds for the bot; nothing
/// where it holds no command.
pub open spec fn command_tokens(botname: Seq<char>, msg: MessageView) -> Option<Seq<Seq<char>>> {
    match extracted(botname, msg) {
        Some(command) => Some(tokens(command)),
        None => None,
    }
}

/// Extracts the command from `msg` and splits it into words.
pub fn command_words<'m>(botname: &str, msg: &'m IncomingMessage) -> (words: Option<Vec<&'m str>>)
    ensures
        words.deep_view() == command_tokens(botname@, msg@),
{
    match extract_command(botname, msg) {
        Some(command) => Some(split_whitespace(command)),
        None => None,
    }
}

/// The arguments that the grammar gets to parse for `msg`: what `mapper`
/// makes of the words of its command and of the message itself. There are
/// arguments exactly where the message holds a command.
pub fn command_arguments<'m, CM: IrclapContextMapper>(
    mapper: &'m CM,
    botname: &str,
    msg: &'m IncomingMessage,
) -> (args: Option<Vec<Cow<'m, str>>>)
    ensures
        args is Some <==> extracted(botname@, msg@) is Some,
        args matches Some(full) ==> mapper.maps(
            command_tokens(botname@, msg@)->0,
            msg@,
            full.deep_view(),
        ),
{
    match command_words(botname, msg) {
        Some(words) => Some(mapper.prepare_command_args(words, msg)),
        None => None,
    }
}

/// The line that reports a failed parse, described by `description`, on
/// `responder`.
pub fn failure_line(responder: &IrcResponseStream, description: &str) -> (line: OutboundLine)
    ensures
        line.mode == delivery_mode_for(responder.target()),
        line.target@ == responder.target(),
        line.text@ == argument_error_prefix() + description@,
{
    let text = String::from_str("Argument error: ").concat(description);
    responder.outbound_line(text.as_str())
}

/// Decides what follows a parse. Matches go to the processor, together
/// with the stream to answer on. A failure is reported with exactly one
/// line on that stream, which holds the fixed prefix and the description
/// of the failure, and the processor is not run.
pub fn route_parsed<'a, 'm>(
    parsed: Result<clap::ArgMatches<'a>, clap::Error>,
    responder: IrcResponseStream<'m>,
) -> (outcome: MessageOutcome<'a, 'm>)
    ensures
        match parsed {
            Ok(matches) => outcome == (MessageOutcome::Dispatch { matches, responder }),
            Err(error) => {
                &&& outcome matches MessageOutcome::Report { line }
                &&& line.mode == delivery_mode_for(responder.target())
                &&& line.target@ == responder.target()
                &&& line.text@ == argument_error_prefix() + failure_description(error)
            },
        },
        outcome.answers_only(responder.target()),
{
    match parsed {
        Ok(matches) => MessageOutcome::Dispatch { matches, responder },
        Err(error) => {
            let description = describe_failure(&error);
            let line = failure_line(&responder, description.as_str());
            MessageOutcome::Report { line }
        },
    }
}

/// Handles one message that has a reply target.
///
/// A message that holds no command for the bot is dropped. Otherwise its
/// arguments are parsed by `app`, with every word taken as an argument,
/// and the outcome is either the matches to run the processor on or the
/// line that reports the failure. Both are bound to the reply target of
/// this message.
///
/// `app` has to be a sound grammar, one by which clap can parse whatever
/// the arguments are: its arguments and groups refer to declared names
/// only, its positional arguments are numbered and placed as clap asks,
/// and its validators return. Whoever declared it answers for that. The
/// grammar need not take every argument yet: that setting is made here.
pub fn process_single_message<'a, 'm, CM: IrclapContextMapper, CP>(
    app: clap::App<'a, 'a>,
    context: &'m IrclapProcessor<CM, CP>,
    botname: &str,
    msg: &'m IncomingMessage,
) -> (outcome: MessageOutcome<'a, 'm>)
    requires
        grammar_is_sound(app),
        msg@.reply_target is Some,
    ensures
        extracted(botname@, msg@) is None <==> outcome is NotAddressed,
        extracted(botname@, msg@) is Some <==> outcome is Dispatch || outcome is Report,
        outcome.answers_only(msg@.reply_target->0),
{
    match command_arguments(&context.mapper, botname, msg) {
        Some(args) => {
            let out_stream = IrcResponseStream::new(msg.response_target().unwrap());
            let parsed = parse_arguments(without_binary_name(app), &args);
            route_parsed(parsed, out_stream)
        },
        None => MessageOutcome::NotAddressed,
    }
}

/// Whether a message from the stream is handled at all: only one with a
/// reply target is.
pub fn has_response_target(msg: &IncomingMessage) -> (answerable: bool)
    ensures
        answerable == (msg@.reply_target is Some),
{
    msg.response_target().is_some()
}

/// Handles one message as it comes from the stream: one without a reply
/// target is dropped unseen, any other handled by
/// `process_single_message`. `app` has to be a sound grammar, as there.
pub fn process_stream_message<'a, 'm, CM: IrclapContextMapper, CP>(
    app: clap::App<'a, 'a>,
    context: &'m IrclapProcessor<CM, CP>,
    botname: &str,
    msg: &'m IncomingMessage,
) -> (outcome: MessageOutcome<'a, 'm>)
    requires
        grammar_is_sound(app),
    ensures
        msg@.reply_target is None <==> outcome is Unanswerable,
        msg@.reply_target is Some && extracted(botname@, msg@) is None <==> outcome
            is NotAddressed,
        msg@.reply_target is Some && extracted(botname@, msg@) is Some <==> outcome is Dispatch
            || outcome is Report,
        msg@.reply_target matches Some(target) ==> outcome.answers_only(target),
{
    if has_response_target(msg) {
        process_single_message(app, context, botname, msg)
    } else {
        MessageOutcome::Unanswerable
    }
}

} // verus!
