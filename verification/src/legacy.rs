//! Commands written into chat messages (`+deny <url>`, `+allow <url>`,
//! `+denied <url>`), read through `twilight_command_parser`.

use vstd::prelude::*;

use crate::codec::time_bytes;
use crate::commands::{
    ALLOWED_NOW_REPLY, ALREADY_DENIED_REPLY, DENIED_NOW_REPLY, NOT_DENIED_REPLY, NO_URL_REPLY,
};
use crate::errors::SafeError;
use crate::links::{first_link, links_in};
use crate::safe::Safe;
use crate::store::{millis, Time};
use crate::clock::{now_timestamp, LAST_SECOND};
use crate::urls::{is_valid_url, url_key, url_valid};

verus! {

/// What the command parser makes of a message: the name of the registered
/// command it starts with (after one of the prefixes) and its arguments, or
/// `None` when it is not such a command.
pub uninterp spec fn parsed_command(
    prefixes: Seq<Seq<char>>,
    commands: Seq<Seq<char>>,
    case_sensitive: bool,
    content: Seq<char>,
) -> Option<(Seq<char>, Seq<Seq<char>>)>;

/// A command read from a message.
#[derive(Debug)]
pub struct ParsedCommand {
    /// The registered name of the command.
    pub name: String,
    /// Its arguments, in order.
    pub arguments: Vec<String>,
}

/// A `twilight_command_parser::Parser` built from a `CommandParserConfig`
/// holding `prefixes` (`add_prefix`) and `commands` (`add_command` with
/// `case_sensitive`), then `Parser::parse(content)`, with the command's name
/// and its `Arguments` taken as strings. The result is named.
#[verifier::external_body]
#[allow(deprecated)]
fn parse_command(
    prefixes: &Vec<String>,
    commands: &Vec<String>,
    case_sensitive: bool,
    content: &str,
) -> (r: Option<ParsedCommand>)
    ensures
        r is None <==> parsed_command(
            prefixes@.map_values(|p: String| p@),
            commands@.map_values(|c: String| c@),
            case_sensitive,
            content@,
        ) is None,
        r matches Some(c) ==> parsed_command(
            prefixes@.map_values(|p: String| p@),
            commands@.map_values(|c: String| c@),
            case_sensitive,
            content@,
        ) == Some((c.name@, c.arguments@.map_values(|a: String| a@))),
{
    let mut config = twilight_command_parser::CommandParserConfig::new();
    for prefix in prefixes {
        config.add_prefix(prefix.clone());
    }
    for command in commands {
        config.add_command(command.clone(), case_sensitive);
    }
    let parser = twilight_command_parser::Parser::new(config);
    parser.parse(content).map(
        |c| ParsedCommand { name: c.name.to_string(), arguments: c.arguments.map(String::from).collect() },
    )
}

/// The configuration of the message command parser.
pub struct LegacyParser {
    pub prefixes: Vec<String>,
    pub commands: Vec<String>,
}

impl View for LegacyParser {
    type V = (Seq<Seq<char>>, Seq<Seq<char>>);

    open spec fn view(&self) -> (Seq<Seq<char>>, Seq<Seq<char>>) {
        (self.prefixes@.map_values(|p: String| p@), self.commands@.map_values(|c: String| c@))
    }
}

/// What the bot does with a message, as far as its commands go.
#[derive(Debug, PartialEq, Eq)]
pub enum LegacyAction {
    /// Stop here; the flag says whether the message goes on to the link
    /// check.
    Finish(bool),
    /// Deny the link, if one was given.
    Deny(Option<String>),
    /// Allow the link, if one was given.
    Allow(Option<String>),
    /// Tell whether the link is denied, if one was given.
    Denied(Option<String>),
}

/// Whether `link` is the first of `links` (or `None` when there is none).
pub open spec fn is_first_link(link: Option<String>, links: Seq<Seq<char>>) -> bool {
    match link {
        Some(l) => links.len() > 0 && l@ == links[0],
        None => links.len() == 0,
    }
}

impl LegacyParser {
    /// The bot's configuration: prefix `+`, commands `deny`, `allow` and
    /// `denied`, in any letter case.
    pub fn new() -> (r: LegacyParser)
        ensures
            r@.0 == seq!["+"@],
            r@.1 == seq!["deny"@, "allow"@, "denied"@],
    {
        let prefixes = vec![String::from_str("+")];
        let commands = vec![
            String::from_str("deny"),
            String::from_str("allow"),
            String::from_str("denied"),
        ];
        let r = LegacyParser { prefixes, commands };
        assert(r@.0 =~= seq!["+"@]);
        assert(r@.1 =~= seq!["deny"@, "allow"@, "denied"@]);
        r
    }

    /// Reads a message as a command.
    pub fn parse(&self, content: &str) -> (r: Option<ParsedCommand>)
        ensures
            r is None <==> parsed_command(self@.0, self@.1, false, content@) is None,
            r matches Some(c) ==> parsed_command(self@.0, self@.1, false, content@) == Some(
                (c.name@, c.arguments@.map_values(|a: String| a@)),
            ),
    {
        parse_command(&self.prefixes, &self.commands, false, content)
    }

    /// What the bot does with a message: messages of bots stop here and are
    /// not checked further; messages of members who cannot manage messages
    /// go on to the link check; a `deny`, `allow` or `denied` command with an
    /// argument acts on the first link in its first argument; any other
    /// message goes on to the link check.
    pub fn action(&self, author_bot: bool, can_manage: bool, content: &str) -> (r: LegacyAction)
        ensures
            author_bot ==> r == LegacyAction::Finish(false),
            !author_bot && !can_manage ==> r == LegacyAction::Finish(true),
            !author_bot && can_manage ==> match parsed_command(
                self@.0,
                self@.1,
                false,
                content@,
            ) {
                Some((name, args)) => if args.len() == 0 || (name != "deny"@ && name != "allow"@
                    && name != "denied"@) {
                    r == LegacyAction::Finish(true)
                } else {
                    let links = links_in(args[0]);
                    &&& name == "deny"@ ==> (r matches LegacyAction::Deny(l) && is_first_link(
                        l,
                        links,
                    ))
                    &&& name == "allow"@ ==> (r matches LegacyAction::Allow(l) && is_first_link(
                        l,
                        links,
                    ))
                    &&& name == "denied"@ ==> (r matches LegacyAction::Denied(l)
                        && is_first_link(l, links))
                },
                None => r == LegacyAction::Finish(true),
            },
    {
        if author_bot {
            return LegacyAction::Finish(false);
        }
        if !can_manage {
            return LegacyAction::Finish(true);
        }
        match self.parse(content) {
            Some(command) => {
                let ghost args = command.arguments@.map_values(|a: String| a@);
                if command.arguments.len() == 0 {
                    return LegacyAction::Finish(true);
                }
                proof {
                    assert(args[0] == command.arguments@[0]@);
                }
                let name = command.name;
                proof {
                    reveal_strlit("deny");
                    reveal_strlit("allow");
                    reveal_strlit("denied");
                    assert("deny"@.len() == 4 && "denied"@.len() == 6 && "allow"@.len() == 5);
                    assert("deny"@ != "denied"@ && "allow"@ != "denied"@ && "allow"@ != "deny"@);
                }
                if name == String::from_str("deny") {
                    LegacyAction::Deny(first_link(command.arguments[0].as_str()))
                } else if name == String::from_str("allow") {
                    LegacyAction::Allow(first_link(command.arguments[0].as_str()))
                } else if name == String::from_str("denied") {
                    LegacyAction::Denied(first_link(command.arguments[0].as_str()))
                } else {
                    LegacyAction::Finish(true)
                }
            },
            None => LegacyAction::Finish(true),
        }
    }
}

/// Why a message command could not be carried out.
#[derive(Debug)]
pub enum CommandError {
    /// The deny list failed.
    Safe(SafeError),
    /// The link does not parse as a URL, so it has no key.
    UnparsableUrl,
}

/// `+deny` as of the clock reading `seconds`: denies the link unless it is
/// denied already, and gives the reply.
pub fn legacy_deny_at(safe: &mut Safe, link: Option<&str>, seconds: Time) -> (r: Result<
    &'static str,
    CommandError,
>)
    requires
        0 <= seconds <= LAST_SECOND,
    ensures
        final(safe).safebrowsing@ == old(safe).safebrowsing@,
        final(safe).sled.opened_path() == old(safe).sled.opened_path(),
        r matches Err(CommandError::Safe(e)) ==> e is Storage,
        link is None ==> (r matches Ok(reply) && reply@ == NO_URL_REPLY@ && final(safe).sled@
            == old(safe).sled@),
        link matches Some(l) ==> {
            &&& (r matches Err(CommandError::UnparsableUrl) <==> !url_valid(l@))
            &&& !url_valid(l@) ==> final(safe).sled@ == old(safe).sled@
            &&& url_valid(l@) && old(safe).sled@.contains_key(url_key(l@)) ==> (r is Ok ==> r->Ok_0@
                == ALREADY_DENIED_REPLY@) && final(safe).sled@ == old(safe).sled@
            &&& url_valid(l@) && !old(safe).sled@.contains_key(url_key(l@)) ==> (r is Ok
                ==> r->Ok_0@ == DENIED_NOW_REPLY@ && final(safe).sled@ == old(safe).sled@.insert(
                url_key(l@),
                time_bytes(millis(seconds)),
            ))
        },
{
    match link {
        Some(url) => {
            if !is_valid_url(url) {
                return Err(CommandError::UnparsableUrl);
            }
            match safe.is_denied(url) {
                Ok(true) => Ok(ALREADY_DENIED_REPLY),
                Ok(false) => match safe.deny_at_seconds(url, seconds) {
                    Ok(()) => Ok(DENIED_NOW_REPLY),
                    Err(e) => Err(CommandError::Safe(e)),
                },
                Err(e) => Err(CommandError::Safe(e)),
            }
        },
        None => Ok(NO_URL_REPLY),
    }
}

/// `+deny`: denies the link unless it is denied already, and gives the
/// reply.
pub fn legacy_deny(safe: &mut Safe, link: Option<&str>) -> (r: Result<&'static str, CommandError>)
    ensures
        final(safe).safebrowsing@ == old(safe).safebrowsing@,
        final(safe).sled.opened_path() == old(safe).sled.opened_path(),
        r matches Err(CommandError::Safe(e)) ==> e is Storage,
        link is None ==> (r matches Ok(reply) && reply@ == NO_URL_REPLY@ && final(safe).sled@
            == old(safe).sled@),
        link matches Some(l) ==> {
            &&& (r matches Err(CommandError::UnparsableUrl) <==> !url_valid(l@))
            &&& !url_valid(l@) ==> final(safe).sled@ == old(safe).sled@
            &&& url_valid(l@) && old(safe).sled@.contains_key(url_key(l@)) ==> (r is Ok ==> r->Ok_0@
                == ALREADY_DENIED_REPLY@) && final(safe).sled@ == old(safe).sled@
            &&& url_valid(l@) && !old(safe).sled@.contains_key(url_key(l@)) ==> (r is Ok
                ==> r->Ok_0@ == DENIED_NOW_REPLY@ && exists|seconds: Time|
                0 <= seconds <= LAST_SECOND && final(safe).sled@ == old(safe).sled@.insert(
                    url_key(l@),
                    time_bytes(#[trigger] millis(seconds)),
                ))
        },
{
    let seconds = now_timestamp();
    legacy_deny_at(safe, link, seconds)
}

/// `+allow`: takes the link off the deny list if it is on it, and gives the
/// reply.
pub fn legacy_allow(safe: &mut Safe, link: Option<&str>) -> (r: Result<&'static str, CommandError>)
    ensures
        final(safe).safebrowsing@ == old(safe).safebrowsing@,
        final(safe).sled.opened_path() == old(safe).sled.opened_path(),
        r matches Err(CommandError::Safe(e)) ==> e is Storage,
        link is None ==> (r matches Ok(reply) && reply@ == NO_URL_REPLY@ && final(safe).sled@
            == old(safe).sled@),
        link matches Some(l) ==> {
            &&& (r matches Err(CommandError::UnparsableUrl) <==> !url_valid(l@))
            &&& !url_valid(l@) ==> final(safe).sled@ == old(safe).sled@
            &&& url_valid(l@) && old(safe).sled@.contains_key(url_key(l@)) ==> (r is Ok ==> r->Ok_0@
                == ALLOWED_NOW_REPLY@ && final(safe).sled@ == old(safe).sled@.remove(
                url_key(l@),
            ))
            &&& url_valid(l@) && !old(safe).sled@.contains_key(url_key(l@)) ==> (r is Ok
                ==> r->Ok_0@ == NOT_DENIED_REPLY@) && final(safe).sled@ == old(safe).sled@
        },
{
    match link {
        Some(url) => {
            if !is_valid_url(url) {
                return Err(CommandError::UnparsableUrl);
            }
            match safe.is_denied(url) {
                Ok(true) => match safe.allow(url) {
                    Ok(()) => Ok(ALLOWED_NOW_REPLY),
                    Err(e) => Err(CommandError::Safe(e)),
                },
                Ok(false) => Ok(NOT_DENIED_REPLY),
                Err(e) => Err(CommandError::Safe(e)),
            }
        },
        None => Ok(NO_URL_REPLY),
    }
}

} // verus!
