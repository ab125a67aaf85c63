//! The slash commands `deny`, `allow` and `denied`, and the replies the bot
//! gives to its commands.

use vstd::prelude::*;

use crate::clock::{
    date_renderable, format_date, now_timestamp, shown_seconds, utc_date_text, LAST_SECOND,
};
use crate::codec::time_bytes;
use crate::errors::SafeError;
use crate::safe::{Safe, SafeData};
use crate::store::{millis, Time};
use crate::urls::{parse_url, url_key, url_valid};

verus! {

/// The reply to a URL that does not parse.
pub const INVALID_URL_REPLY: &'static str = "Invalid URL. Example: `https://example.com`";

/// The reply when a URL was put on the deny list.
pub const DENIED_NOW_REPLY: &'static str = "URL has been denied";

/// The reply when a URL was on the deny list already.
pub const ALREADY_DENIED_REPLY: &'static str = "URL is already denied";

/// The reply when a URL was taken off the deny list.
pub const ALLOWED_NOW_REPLY: &'static str = "URL has been allowed";

/// The reply of the `allow` slash command when the URL was not denied.
pub const ALREADY_ALLOWED_REPLY: &'static str = "URL is already allowed";

/// The reply when a URL is not denied.
pub const NOT_DENIED_REPLY: &'static str = "URL is not denied";

/// The reply to a command that names no URL.
pub const NO_URL_REPLY: &'static str = "No URL provided";

/// The start of the reply when a URL is denied; the date follows.
pub const DENIED_AT_PREFIX: &'static str = "URL is denied at ";

/// The slash commands the bot registers.
#[derive(Debug, Clone, Copy, PartialEq, Eq)]
pub enum CommandKind {
    Denied,
    Deny,
    Allow,
}

/// Which slash command an interaction names, if it is one of the bot's.
pub fn command_kind(name: &str) -> (r: Option<CommandKind>)
    ensures
        name@ == "denied"@ <==> r matches Some(CommandKind::Denied),
        name@ == "deny"@ <==> r matches Some(CommandKind::Deny),
        name@ == "allow"@ <==> r matches Some(CommandKind::Allow),
{
    proof {
        reveal_strlit("denied");
        reveal_strlit("deny");
        reveal_strlit("allow");
        assert("deny"@.len() == 4 && "denied"@.len() == 6 && "allow"@.len() == 5);
        assert("deny"@ != "denied"@ && "allow"@ != "denied"@ && "allow"@ != "deny"@);
    }
    let given = String::from_str(name);
    if given == String::from_str("denied") {
        Some(CommandKind::Denied)
    } else if given == String::from_str("deny") {
        Some(CommandKind::Deny)
    } else if given == String::from_str("allow") {
        Some(CommandKind::Allow)
    } else {
        None
    }
}

/// The reply to a `denied` check: whether the URL is denied and since when,
/// shown in UTC+1.
pub fn denied_reply(data: &SafeData) -> (r: String)
    requires
        !data.safe ==> date_renderable(data.time),
    ensures
        data.safe ==> r@ == NOT_DENIED_REPLY@,
        !data.safe ==> r@ == DENIED_AT_PREFIX@ + utc_date_text(shown_seconds(data.time) as i64),
{
    if data.is_safe() {
        String::from_str(NOT_DENIED_REPLY)
    } else {
        let mut reply = String::from_str(DENIED_AT_PREFIX);
        let date = format_date(data.get_time());
        reply.append(date.as_str());
        reply
    }
}

/// The `deny` slash command: the URL to deny.
pub struct DenyCommand {
    pub url: String,
}

/// The `allow` slash command: the URL to allow.
pub struct AllowCommand {
    pub url: String,
}

/// The `denied` slash command: the URL to check.
pub struct DeniedCommand {
    pub url: String,
}

impl DenyCommand {
    /// Denies the command's URL as of the clock reading `seconds` unless it is
    /// denied already, and gives the reply. A URL that does not parse is
    /// answered with `INVALID_URL_REPLY`.
    pub fn deny_at(&self, safe: &mut Safe, seconds: Time) -> (r: Result<&'static str, SafeError>)
        requires
            0 <= seconds <= LAST_SECOND,
        ensures
            final(safe).safebrowsing@ == old(safe).safebrowsing@,
            final(safe).sled.opened_path() == old(safe).sled.opened_path(),
            r matches Err(e) ==> e is Storage,
            !url_valid(self.url@) ==> (r matches Ok(reply) && reply@ == INVALID_URL_REPLY@
                && final(safe).sled@ == old(safe).sled@),
            url_valid(self.url@) && old(safe).sled@.contains_key(url_key(self.url@)) ==> (r
                is Ok ==> r->Ok_0@ == ALREADY_DENIED_REPLY@) && final(safe).sled@ == old(
                safe,
            ).sled@,
            url_valid(self.url@) && !old(safe).sled@.contains_key(url_key(self.url@)) ==> (r
                is Ok ==> r->Ok_0@ == DENIED_NOW_REPLY@ && final(safe).sled@ == old(
                safe,
            ).sled@.insert(url_key(self.url@), time_bytes(millis(seconds)))),
    {
        match parse_url(self.url.as_str()) {
            Some(url) => {
                if safe.is_denied(url.serialization.as_str())? {
                    Ok(ALREADY_DENIED_REPLY)
                } else {
                    safe.deny_at_seconds(url.serialization.as_str(), seconds)?;
                    Ok(DENIED_NOW_REPLY)
                }
            },
            None => Ok(INVALID_URL_REPLY),
        }
    }

    /// Denies the command's URL unless it is denied already, and gives the
    /// reply. A URL that does not parse is answered with
    /// `INVALID_URL_REPLY`.
    pub fn deny(&self, safe: &mut Safe) -> (r: Result<&'static str, SafeError>)
        ensures
            final(safe).safebrowsing@ == old(safe).safebrowsing@,
            final(safe).sled.opened_path() == old(safe).sled.opened_path(),
            r matches Err(e) ==> e is Storage,
            !url_valid(self.url@) ==> (r matches Ok(reply) && reply@ == INVALID_URL_REPLY@
                && final(safe).sled@ == old(safe).sled@),
            url_valid(self.url@) && old(safe).sled@.contains_key(url_key(self.url@)) ==> (r
                is Ok ==> r->Ok_0@ == ALREADY_DENIED_REPLY@) && final(safe).sled@ == old(
                safe,
            ).sled@,
            url_valid(self.url@) && !old(safe).sled@.contains_key(url_key(self.url@)) ==> (r
                is Ok ==> r->Ok_0@ == DENIED_NOW_REPLY@ && exists|seconds: Time|
                0 <= seconds <= LAST_SECOND && final(safe).sled@ == old(safe).sled@.insert(
                    url_key(self.url@),
                    time_bytes(#[trigger] millis(seconds)),
                )),
    {
        let seconds = now_timestamp();
        self.deny_at(safe, seconds)
    }
}

impl AllowCommand {
    /// Takes the command's URL off the deny list if it is on it, and gives
    /// the reply. A URL that does not parse is answered with
    /// `INVALID_URL_REPLY`.
    pub fn allow(&self, safe: &mut Safe) -> (r: Result<&'static str, SafeError>)
        ensures
            final(safe).safebrowsing@ == old(safe).safebrowsing@,
            final(safe).sled.opened_path() == old(safe).sled.opened_path(),
            r matches Err(e) ==> e is Storage,
            !url_valid(self.url@) ==> (r matches Ok(reply) && reply@ == INVALID_URL_REPLY@
                && final(safe).sled@ == old(safe).sled@),
            url_valid(self.url@) && old(safe).sled@.contains_key(url_key(self.url@)) ==> (r
                is Ok ==> r->Ok_0@ == ALLOWED_NOW_REPLY@ && final(safe).sled@ == old(
                safe,
            ).sled@.remove(url_key(self.url@))),
            url_valid(self.url@) && !old(safe).sled@.contains_key(url_key(self.url@)) ==> (r
                is Ok ==> r->Ok_0@ == ALREADY_ALLOWED_REPLY@) && final(safe).sled@ == old(
                safe,
            ).sled@,
    {
        match parse_url(self.url.as_str()) {
            Some(url) => {
                if safe.is_denied(url.serialization.as_str())? {
                    safe.allow(url.serialization.as_str())?;
                    Ok(ALLOWED_NOW_REPLY)
                } else {
                    Ok(ALREADY_ALLOWED_REPLY)
                }
            },
            None => Ok(INVALID_URL_REPLY),
        }
    }
}

} // verus!
