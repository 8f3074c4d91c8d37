//! The argument parser that commands are declared with: `clap`.
//!
//! A grammar is a `clap::App`, built by whoever runs the bot. Nothing in
//! this crate looks inside one, inside the matches that parsing yields, or
//! inside the error that it fails with: they are handed through.

use std::borrow::Cow;
use vstd::prelude::*;

verus! {

/// `clap::App`, the declaration of a command's arguments. Opaque.
#[verifier::external_type_specification]
#[verifier::external_body]
pub struct ExApp<'a, 'b>(clap::App<'a, 'b>) where 'a: 'b;

/// `clap::ArgMatches`, what a successful parse yields. Opaque.
#[verifier::external_type_specification]
#[verifier::external_body]
pub struct ExArgMatches<'a>(clap::ArgMatches<'a>);

/// `clap::Error`, what a failed parse yields. Opaque.
#[verifier::external_type_specification]
#[verifier::external_body]
pub struct ExError(clap::Error);

/// Whether clap can parse by the grammar: whether
/// `App::get_matches_from_safe` returns for it, with matches or with an
/// error, whatever the arguments are. clap takes a grammar on trust and
/// panics where the grammar lets it down, some of it only where debug
/// assertions are on, some of it always. A sound grammar, with each of
/// its subcommands, is at the least one in which
///
/// - the positional arguments are numbered without a gap, and one that
///   takes several values or is required stands where clap can tell the
///   positional arguments apart;
/// - every name that an argument or a group refers to is declared: the
///   arguments that it requires, conflicts with or overrides, those that
///   it is required unless, and those that a group lists;
/// - every validator returns.
///
/// No call of clap tells whether a grammar is sound. Whoever declares one
/// answers for it.
pub uninterp spec fn grammar_is_sound(app: clap::App<'_, '_>) -> bool;

/// Whether the grammar has the setting `NoBinaryName`: whether clap parses
/// the first of the arguments like the others, and does not skip it as
/// the name of a program.
pub uninterp spec fn takes_every_argument(app: clap::App<'_, '_>) -> bool;

/// The text that the `Debug` implementation of `clap::Error` gives for an
/// error: its message, its kind and the arguments concerned.
pub uninterp spec fn failure_description(error: clap::Error) -> Seq<char>;

/// Calls `clap::App::setting` with `AppSettings::NoBinaryName`. Trusted:
/// that the grammar has the setting afterwards, and is as sound as it was.
/// clap reads the setting at one place only, where it decides whether to
/// skip the first argument.
#[verifier::external_body]
pub(crate) fn without_binary_name<'a>(app: clap::App<'a, 'a>) -> (named: clap::App<'a, 'a>)
    ensures
        takes_every_argument(named),
        grammar_is_sound(named) == grammar_is_sound(app),
{
    app.setting(clap::AppSettings::NoBinaryName)
}

/// Calls `clap::App::get_matches_from_safe`, which parses `args` by the
/// grammar and hands back a failure as a value; a request for help or for
/// the version counts as one. Nothing is claimed of the result: it depends
/// on the grammar, and the text of an error on the terminal it is made
/// for.
///
/// The grammar has to be sound, or clap may panic. It has to take every
/// argument too: the arguments handed over here are a command's words and
/// hold no program's name.
#[verifier::external_body]
pub(crate) fn parse_arguments<'a>(app: clap::App<'a, 'a>, args: &Vec<Cow<'_, str>>) -> Result<
    clap::ArgMatches<'a>,
    clap::Error,
>
    requires
        grammar_is_sound(app),
        takes_every_argument(app),
{
    app.get_matches_from_safe(args.iter().map(|arg| -> &str { arg.as_ref() }))
}

/// Formats a `clap::Error` with its `Debug` implementation. Trusted: that
/// the text depends on the error alone, which `failure_description` gives
/// a name to.
#[verifier::external_body]
pub(crate) fn describe_failure(error: &clap::Error) -> (text: String)
    ensures
        text@ == failure_description(*error),
{
    format!("{:?}", error)
}

} // verus!
