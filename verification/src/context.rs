//! Context mapping: which message metadata is appended to the command's
//! arguments before they are parsed.

use crate::message::{IncomingMessage, MessageView};
use std::borrow::Cow;
use vstd::prelude::*;

verus! {

/// Turns the words of a command and the message they came in into the
/// full argument list that the command's grammar is to parse.
///
/// This is where a bot adds what it knows beyond the text: who wrote,
/// where, with what rights. What an implementation adds or changes is its
/// own business. It says so in `maps`, and whoever calls it learns that
/// much of the result; the mapping that this crate provides gives exactly
/// one argument list for each input.
pub trait IrclapContextMapper {
    /// Whether `full` is an argument list that this mapper may give for
    /// the words `args` of the message `msg`. A mapper that says nothing
    /// of itself may give any.
    open spec fn maps(
        &self,
        args: Seq<Seq<char>>,
        msg: MessageView,
        full: Seq<Seq<char>>,
    ) -> bool {
        true
    }

    /// `args` holds the command's words: the message's text without the
    /// bot's name, split at whitespace. The result is what gets parsed.
    fn prepare_command_args<'a>(&'a self, args: Vec<&'a str>, msg: &'a IncomingMessage) -> (full:
        Vec<Cow<'a, str>>)
        ensures
            self.maps(args.deep_view(), msg@, full.deep_view()),
    ;
}

/// Names the arguments under which the reply target and the sender of a
/// message are handed to the command. `None` leaves that value out.
pub struct IrclapSimpleContextMapping {
    pub channel: Option<String>,
    pub username: Option<String>,
}

/// The arguments that one piece of context adds: the argument's name and
/// the value, where the name is configured and the message has the value;
/// nothing otherwise.
pub open spec fn context_pair(arg: Option<Seq<char>>, value: Option<Seq<char>>) -> Seq<Seq<char>> {
    match (arg, value) {
        (Some(a), Some(v)) => seq![a, v],
        _ => Seq::empty(),
    }
}

impl IrclapSimpleContextMapping {
    /// A mapping that passes no context along.
    pub fn none() -> (mapping: IrclapSimpleContextMapping)
        ensures
            mapping.channel is None,
            mapping.username is None,
    {
        IrclapSimpleContextMapping { channel: None, username: None }
    }

    /// The full argument list for the words `args` of the message `msg`:
    /// the words as they came, then the reply target's pair, then the
    /// sender's pair.
    pub open spec fn mapped(&self, args: Seq<Seq<char>>, msg: MessageView) -> Seq<Seq<char>> {
        args + context_pair(self.channel.deep_view(), msg.reply_target) + context_pair(
            self.username.deep_view(),
            msg.sender,
        )
    }

    /// A mapping that hands the sender's nickname to the argument
    /// `username`, and nothing else.
    pub fn user_only(username: String) -> (mapping: IrclapSimpleContextMapping)
        ensures
            mapping.channel is None,
            mapping.username == Some(username),
    {
        IrclapSimpleContextMapping { channel: None, username: Some(username) }
    }
}

/// The name and the value as a pair, where both are there.
pub fn arg_tuple_opt<'a>(arg: &'a Option<String>, value: Option<&'a str>) -> (pair: Option<
    (&'a str, &'a str),
>)
    ensures
        match pair {
            Some((a, v)) => arg.deep_view() == Some(a@) && value.deep_view() == Some(v@),
            None => arg is None || value is None,
        },
{
    match arg {
        Some(a) => match value {
            Some(v) => Some((a.as_str(), v)),
            None => None,
        },
        None => None,
    }
}

/// Appends the name and then the value to `args`, or nothing where either
/// is missing.
pub fn push_arg_tuple<'a>(args: &mut Vec<&'a str>, arg: &'a Option<String>, value: Option<&'a str>)
    ensures
        final(args).deep_view() == old(args).deep_view() + context_pair(
            arg.deep_view(),
            value.deep_view(),
        ),
{
    match arg_tuple_opt(arg, value) {
        Some((a, v)) => {
            args.push(a);
            args.push(v);
            assert(args.deep_view() =~= old(args).deep_view() + seq![a@, v@]);
        },
        None => {
            assert(args.deep_view() =~= old(args).deep_view() + Seq::<Seq<char>>::empty());
        },
    }
}

impl IrclapContextMapper for IrclapSimpleContextMapping {
    /// This mapping gives one argument list and no other.
    open spec fn maps(
        &self,
        args: Seq<Seq<char>>,
        msg: MessageView,
        full: Seq<Seq<char>>,
    ) -> bool {
        full == self.mapped(args, msg)
    }

    /// Appends the reply target and the sender of `msg` to `args`, each
    /// behind the name configured for it.
    fn prepare_command_args<'a>(&'a self, args: Vec<&'a str>, msg: &'a IncomingMessage) -> (full:
        Vec<Cow<'a, str>>) {
        let mut args = args;
        push_arg_tuple(&mut args, &self.channel, msg.response_target());
        push_arg_tuple(&mut args, &self.username, msg.source_nickname());
        let mut full: Vec<Cow<'a, str>> = Vec::new();
        let mut i: usize = 0;
        while i < args.len()
            invariant
                i <= args.len(),
                full.len() == i,
                full.deep_view() == args.deep_view().take(i as int),
            decreases args.len() - i,
        {
            let word: &'a str = args[i];
            let ghost before = full.deep_view();
            full.push(Cow::Borrowed(word));
            assert(full@[i as int].deep_view() == word@);
            assert(full.deep_view() =~= before.push(word@));
            assert(args.deep_view().take(i + 1) =~= args.deep_view().take(i as int).push(word@));
            i = i + 1;
        }
        assert(args.deep_view().take(args.len() as int) =~= args.deep_view());
        full
    }
}

/// A mapping that names no argument hands the words on as they are.
pub proof fn lemma_no_context_is_identity(
    mapping: IrclapSimpleContextMapping,
    args: Seq<Seq<char>>,
    msg: MessageView,
)
    requires
        mapping.channel is None,
        mapping.username is None,
    ensures
        mapping.mapped(args, msg) == args,
{
    assert(mapping.mapped(args, msg) =~= args);
}

/// Context that the message does not have adds nothing: neither the
/// argument's name alone nor a placeholder for the value. The other piece
/// of context is not affected.
pub proof fn lemma_absent_context_adds_nothing(
    mapping: IrclapSimpleContextMapping,
    args: Seq<Seq<char>>,
    msg: MessageView,
)
    ensures
        msg.reply_target is None ==> mapping.mapped(args, msg) == args + context_pair(
            mapping.username.deep_view(),
            msg.sender,
        ),
        msg.sender is None ==> mapping.mapped(args, msg) == args + context_pair(
            mapping.channel.deep_view(),
            msg.reply_target,
        ),
        msg.reply_target is None && msg.sender is None ==> mapping.mapped(args, msg) == args,
{
    assert(context_pair(mapping.channel.deep_view(), None) =~= Seq::empty());
    assert(context_pair(mapping.username.deep_view(), None) =~= Seq::empty());
    if msg.reply_target is None {
        assert(mapping.mapped(args, msg) =~= args + context_pair(
            mapping.username.deep_view(),
            msg.sender,
        ));
    }
    if msg.sender is None {
        assert(mapping.mapped(args, msg) =~= args + context_pair(
            mapping.channel.deep_view(),
            msg.reply_target,
        ));
    }
    if msg.reply_target is None && msg.sender is None {
        assert(mapping.mapped(args, msg) =~= args);
    }
}

/// The words keep their place and their order at the front of the
/// argument list, and what follows them is none, one or two pairs.
pub proof fn lemma_context_is_appended(
    mapping: IrclapSimpleContextMapping,
    args: Seq<Seq<char>>,
    msg: MessageView,
)
    ensures
        args.is_prefix_of(mapping.mapped(args, msg)),
        mapping.mapped(args, msg).len() == args.len() + (if mapping.channel is Some
            && msg.reply_target is Some {
            2nat
        } else {
            0nat
        }) + (if mapping.username is Some && msg.sender is Some {
            2nat
        } else {
            0nat
        }),
        mapping.channel is Some && msg.reply_target is Some ==> {
            &&& mapping.mapped(args, msg)[args.len() as int] == mapping.channel.deep_view()->0
            &&& mapping.mapped(args, msg)[args.len() as int + 1] == msg.reply_target->0
        },
        mapping.username is Some && msg.sender is Some ==> {
            let n = mapping.mapped(args, msg).len();
            &&& mapping.mapped(args, msg)[n - 2] == mapping.username.deep_view()->0
            &&& mapping.mapped(args, msg)[n - 1] == msg.sender->0
        },
{
}

} // verus!
