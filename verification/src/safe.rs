//! Whether a URL is safe: the deny list and the transparency-report cache,
//! both keyed by the URL's origin.

use vstd::prelude::*;

use crate::codec::time_bytes;
use crate::errors::SafeError;
use crate::json::json_accepts;
use crate::safebrowsing::{
    body_cuttable, report_document, report_readable, report_time, Safebrowsing,
};
use crate::clock::LAST_SECOND;
use crate::store::{entry_time, millis, time_readable, Sled, Time};
use crate::urls::{parse_url, to_ascii_lowercase, url_key, url_valid};

verus! {

/// Whether a URL is safe, and the time from which it is unsafe (`-1` for
/// a safe URL).
#[derive(Debug, Clone, Copy, PartialEq, Eq)]
pub struct SafeData {
    pub safe: bool,
    pub time: Time,
}

/// The verdict that says "safe".
pub open spec fn safe_verdict() -> SafeData {
    SafeData { safe: true, time: -1i64 }
}

/// The deny list's verdict on `key`.
pub open spec fn sled_verdict(entries: Map<Seq<char>, Seq<u8>>, key: Seq<char>) -> SafeData {
    if entries.contains_key(key) {
        SafeData { safe: false, time: entry_time(entries, key) }
    } else {
        safe_verdict()
    }
}

/// The verdict of a report time: flagged since `time` unless it is `-1`.
pub open spec fn report_verdict(time: Time) -> SafeData {
    if time != -1 {
        SafeData { safe: false, time }
    } else {
        safe_verdict()
    }
}

/// The two verdicts together: unsafe when either says so; the report's time
/// wins when both do.
pub open spec fn combined_verdict(sled: SafeData, report: SafeData) -> SafeData {
    if !report.safe {
        SafeData { safe: false, time: report.time }
    } else if !sled.safe {
        SafeData { safe: false, time: sled.time }
    } else {
        safe_verdict()
    }
}

impl SafeData {
    /// The verdict that says "safe".
    pub fn new() -> (r: SafeData)
        ensures
            r == safe_verdict(),
    {
        SafeData { safe: true, time: -1 }
    }

    /// Whether the URL is safe.
    pub fn is_safe(&self) -> (r: bool)
        ensures
            r == self.safe,
    {
        self.safe
    }

    /// Since when the URL is not safe, `-1` when it is.
    pub fn get_time(&self) -> (r: Time)
        ensures
            r == self.time,
    {
        self.time
    }

    /// The verdict of a report time.
    pub fn from_report(time: Time) -> (r: SafeData)
        ensures
            r == report_verdict(time),
    {
        if time != -1 {
            SafeData { safe: false, time }
        } else {
            SafeData::new()
        }
    }

    /// The two verdicts together (unsafe when either says so).
    pub fn combine(sled: &SafeData, report: &SafeData) -> (r: SafeData)
        ensures
            r == combined_verdict(*sled, *report),
    {
        let mut state = SafeData::new();
        if !sled.is_safe() {
            state.safe = false;
            state.time = sled.get_time();
        }
        if !report.is_safe() {
            state.safe = false;
            state.time = report.get_time();
        }
        state
    }
}

/// A check of a URL whose report is not cached yet.
#[derive(Debug)]
pub struct PendingCheck {
    /// The URL's key; the report is asked for it.
    pub input: String,
    /// The deny list's verdict on the key.
    pub sled: SafeData,
}

/// Where a check of a URL stands after the local lookups.
#[derive(Debug)]
pub enum SafetyCheck {
    /// The verdict, from the deny list and a cached report.
    Decided(SafeData),
    /// The report must be fetched (see `Safebrowsing::request_url`).
    Pending(PendingCheck),
}

/// The deny list and the report cache.
pub struct Safe {
    pub safebrowsing: Safebrowsing,
    pub sled: Sled,
}

impl Safe {
    /// Opens the deny list stored at `database`, with an empty report cache.
    pub fn new(database: &str) -> (r: Result<Safe, SafeError>)
        ensures
            r matches Ok(s) ==> s.safebrowsing@ == Map::<Seq<char>, Time>::empty()
                && s.sled.opened_path() == database@,
            r matches Err(e) ==> e is Storage,
    {
        let sled = Sled::new(database)?;
        Ok(Safe { safebrowsing: Safebrowsing::new(), sled })
    }

    /// The key of `url`: the part of its serialization before the path,
    /// lower-cased.
    pub fn form_url(&self, url: &str) -> (r: String)
        requires
            url_valid(url@),
        ensures
            r@ == url_key(url@),
    {
        match parse_url(url) {
            Some(u) => to_ascii_lowercase(u.before_path.as_str()),
            None => String::new(),
        }
    }

    /// Denies the origin of `url` as of now.
    pub fn deny(&mut self, url: &str) -> (r: Result<(), SafeError>)
        requires
            url_valid(url@),
        ensures
            final(self).sled.opened_path() == old(self).sled.opened_path(),
            final(self).safebrowsing@ == old(self).safebrowsing@,
            r is Ok ==> exists|seconds: Time|
                0 <= seconds <= LAST_SECOND && final(self).sled@ == old(self).sled@.insert(
                    url_key(url@),
                    time_bytes(#[trigger] millis(seconds)),
                ),
            r matches Err(e) ==> e is Storage,
    {
        let url = self.form_url(url);
        self.sled.deny(url.as_str())
    }

    /// Denies the origin of `url` as of the clock reading `seconds`: the
    /// reading in milliseconds is stored under its key.
    pub fn deny_at_seconds(&mut self, url: &str, seconds: Time) -> (r: Result<(), SafeError>)
        requires
            url_valid(url@),
            0 <= seconds <= LAST_SECOND,
        ensures
            final(self).sled.opened_path() == old(self).sled.opened_path(),
            final(self).safebrowsing@ == old(self).safebrowsing@,
            r is Ok ==> final(self).sled@ == old(self).sled@.insert(
                url_key(url@),
                time_bytes(millis(seconds)),
            ),
            r matches Err(e) ==> e is Storage,
    {
        let url = self.form_url(url);
        self.sled.deny_at_seconds(url.as_str(), seconds)
    }

    /// Takes the origin of `url` off the deny list.
    pub fn allow(&mut self, url: &str) -> (r: Result<(), SafeError>)
        requires
            url_valid(url@),
        ensures
            final(self).sled.opened_path() == old(self).sled.opened_path(),
            final(self).safebrowsing@ == old(self).safebrowsing@,
            r is Ok ==> final(self).sled@ == old(self).sled@.remove(url_key(url@)),
            r matches Err(e) ==> e is Storage,
    {
        let url = self.form_url(url);
        self.sled.allow(url.as_str())
    }

    /// Whether the origin of `url` is on the deny list.
    pub fn is_denied(&mut self, url: &str) -> (r: Result<bool, SafeError>)
        requires
            url_valid(url@),
        ensures
            final(self).sled.opened_path() == old(self).sled.opened_path(),
            final(self).safebrowsing@ == old(self).safebrowsing@,
            final(self).sled@ == old(self).sled@,
            r matches Ok(b) ==> b == old(self).sled@.contains_key(url_key(url@)),
            r matches Err(e) ==> e is Storage,
    {
        let url = self.form_url(url);
        self.sled.is_denied(url.as_str())
    }

    /// The deny list's verdict on the key `input`.
    pub fn is_sled_safe(&mut self, input: &str) -> (r: Result<SafeData, SafeError>)
        requires
            time_readable(old(self).sled@, input@),
        ensures
            final(self).sled.opened_path() == old(self).sled.opened_path(),
            final(self).safebrowsing@ == old(self).safebrowsing@,
            final(self).sled@ == old(self).sled@,
            r matches Ok(d) ==> d == sled_verdict(old(self).sled@, input@),
            r matches Err(e) ==> e is Storage,
    {
        let (sled_safe, sled_time) = self.sled.is_safe(input)?;
        if !sled_safe {
            Ok(SafeData { safe: false, time: sled_time })
        } else {
            Ok(SafeData::new())
        }
    }

    /// Starts a check of `url`: the deny list's verdict on its key, combined
    /// with the cached report when there is one.
    pub fn begin_check(&mut self, url: &str) -> (r: Result<SafetyCheck, SafeError>)
        requires
            url_valid(url@),
            time_readable(old(self).sled@, url_key(url@)),
        ensures
            final(self).sled.opened_path() == old(self).sled.opened_path(),
            final(self).safebrowsing@ == old(self).safebrowsing@,
            final(self).sled@ == old(self).sled@,
            r matches Err(e) ==> e is Storage,
            r matches Ok(c) ==> {
                let key = url_key(url@);
                let sled = sled_verdict(old(self).sled@, key);
                if old(self).safebrowsing@.contains_key(key) {
                    c == SafetyCheck::Decided(
                        combined_verdict(sled, report_verdict(old(self).safebrowsing@[key])),
                    )
                } else {
                    c matches SafetyCheck::Pending(p) && p.input@ == key && p.sled == sled
                }
            },
    {
        let input = self.form_url(url);
        let sled = self.is_sled_safe(input.as_str())?;
        match self.safebrowsing.cached(input.as_str()) {
            Some(time) => {
                let report = SafeData::from_report(time);
                Ok(SafetyCheck::Decided(SafeData::combine(&sled, &report)))
            },
            None => Ok(SafetyCheck::Pending(PendingCheck { input, sled })),
        }
    }

    /// Starts a check of `url` where it can be started: `Ok(None)` when `url`
    /// does not parse, or when the time the deny list holds for its key
    /// cannot be read.
    pub fn try_begin_check(&mut self, url: &str) -> (r: Result<Option<SafetyCheck>, SafeError>)
        ensures
            final(self).sled.opened_path() == old(self).sled.opened_path(),
            final(self).safebrowsing@ == old(self).safebrowsing@,
            final(self).sled@ == old(self).sled@,
            r matches Err(e) ==> e is Storage,
            r matches Ok(None) ==> !url_valid(url@) || !time_readable(
                old(self).sled@,
                url_key(url@),
            ),
            r matches Ok(Some(c)) ==> url_valid(url@) && time_readable(
                old(self).sled@,
                url_key(url@),
            ) && {
                let key = url_key(url@);
                let sled = sled_verdict(old(self).sled@, key);
                if old(self).safebrowsing@.contains_key(key) {
                    c == SafetyCheck::Decided(
                        combined_verdict(sled, report_verdict(old(self).safebrowsing@[key])),
                    )
                } else {
                    c matches SafetyCheck::Pending(p) && p.input@ == key && p.sled == sled
                }
            },
    {
        match parse_url(url) {
            None => Ok(None),
            Some(u) => {
                let key = to_ascii_lowercase(u.before_path.as_str());
                if self.sled.time_is_readable(key.as_str())? {
                    let check = self.begin_check(url)?;
                    Ok(Some(check))
                } else {
                    Ok(None)
                }
            },
        }
    }

    /// Completes a pending check with the response to the report request: a
    /// body, or why it could not be fetched. The report's verdict is cached
    /// and combined with the deny list's.
    pub fn finish_check(&mut self, pending: PendingCheck, response: Result<String, String>) -> (r:
        Result<SafeData, SafeError>)
        requires
            response matches Ok(body) ==> body_cuttable(body@) && report_readable(
                report_document(body@),
            ),
        ensures
            final(self).sled.opened_path() == old(self).sled.opened_path(),
            final(self).sled@ == old(self).sled@,
            match response {
                Err(msg) => r == Err::<SafeData, SafeError>(SafeError::Fetch(msg))
                    && final(self).safebrowsing@ == old(self).safebrowsing@,
                Ok(body) => {
                    let doc = report_document(body@);
                    &&& (r is Err <==> !json_accepts(doc))
                    &&& (r matches Err(e) ==> e is Json && final(self).safebrowsing@ == old(
                        self,
                    ).safebrowsing@)
                    &&& (r matches Ok(d) ==> report_time(doc) matches Some(t) && d
                        == combined_verdict(pending.sled, report_verdict(t))
                        && final(self).safebrowsing@ == old(self).safebrowsing@.insert(
                        pending.input@,
                        t,
                    ))
                },
            },
    {
        let time = self.safebrowsing.complete_check(pending.input.as_str(), response)?;
        let report = SafeData::from_report(time);
        Ok(SafeData::combine(&pending.sled, &report))
    }

    /// Completes a pending check where the report can be read: `Ok(None)`,
    /// with nothing cached, when the body is JSON without a state at `/1`, or
    /// with a flagged state but no time at `/7`, so that it gives no verdict.
    pub fn try_finish_check(&mut self, pending: PendingCheck, response: Result<String, String>) -> (r:
        Result<Option<SafeData>, SafeError>)
        requires
            response matches Ok(body) ==> body_cuttable(body@),
        ensures
            final(self).sled.opened_path() == old(self).sled.opened_path(),
            final(self).sled@ == old(self).sled@,
            match response {
                Err(msg) => r == Err::<Option<SafeData>, SafeError>(SafeError::Fetch(msg))
                    && final(self).safebrowsing@ == old(self).safebrowsing@,
                Ok(body) => {
                    let doc = report_document(body@);
                    &&& (r matches Ok(None) <==> !report_readable(doc))
                    &&& (r matches Ok(None) ==> final(self).safebrowsing@ == old(
                        self,
                    ).safebrowsing@)
                    &&& (r is Err <==> !json_accepts(doc))
                    &&& (r matches Err(e) ==> e is Json && final(self).safebrowsing@ == old(
                        self,
                    ).safebrowsing@)
                    &&& (r matches Ok(Some(d)) ==> report_time(doc) matches Some(t) && d
                        == combined_verdict(pending.sled, report_verdict(t))
                        && final(self).safebrowsing@ == old(self).safebrowsing@.insert(
                        pending.input@,
                        t,
                    ))
                },
            },
    {
        if let Ok(body) = &response {
            let document = Safebrowsing::document(body.as_str());
            if !Safebrowsing::report_is_readable(document) {
                return Ok(None);
            }
        }
        let verdict = self.finish_check(pending, response)?;
        Ok(Some(verdict))
    }
}

/// After the origin of a URL is denied at the clock reading `seconds`, the
/// deny list's verdict on every URL with the same key is "unsafe since the
/// reading, in milliseconds".
pub proof fn lemma_deny_then_denied(
    entries: Map<Seq<char>, Seq<u8>>,
    url: Seq<char>,
    other: Seq<char>,
    seconds: Time,
)
    requires
        url_key(other) == url_key(url),
        0 <= seconds <= LAST_SECOND,
    ensures
        entries.insert(url_key(url), time_bytes(millis(seconds))).contains_key(url_key(other)),
        sled_verdict(entries.insert(url_key(url), time_bytes(millis(seconds))), url_key(other))
            == (SafeData { safe: false, time: millis(seconds) }),
        millis(seconds) == seconds * 1000,
{
    crate::store::lemma_deny_at_seconds_then_time(entries, url_key(url), seconds);
}

/// After the origin of a URL is allowed, the deny list reports it safe.
pub proof fn lemma_allow_then_safe(entries: Map<Seq<char>, Seq<u8>>, url: Seq<char>)
    ensures
        !entries.remove(url_key(url)).contains_key(url_key(url)),
        sled_verdict(entries.remove(url_key(url)), url_key(url)) == safe_verdict(),
{
}

/// A URL is unsafe exactly when the deny list or the report says so, and the
/// verdict is "safe" with time `-1` otherwise.
pub proof fn lemma_verdict_unsafe_iff_either(sled: SafeData, report: SafeData)
    ensures
        combined_verdict(sled, report).safe <==> sled.safe && report.safe,
        combined_verdict(sled, report).safe ==> combined_verdict(sled, report).time == -1,
        !report.safe ==> combined_verdict(sled, report).time == report.time,
        report.safe && !sled.safe ==> combined_verdict(sled, report).time == sled.time,
{
}

/// Whether a URL is safe depends on its key alone: two URLs with the same
/// key get the same deny-list verdict, and the same cached report or none,
/// so the same answer from a check.
pub proof fn lemma_same_key_same_verdict(
    entries: Map<Seq<char>, Seq<u8>>,
    cache: Map<Seq<char>, Time>,
    a: Seq<char>,
    b: Seq<char>,
)
    requires
        url_key(a) == url_key(b),
    ensures
        sled_verdict(entries, url_key(a)) == sled_verdict(entries, url_key(b)),
        cache.contains_key(url_key(a)) == cache.contains_key(url_key(b)),
        cache.contains_key(url_key(a)) ==> combined_verdict(
            sled_verdict(entries, url_key(a)),
            report_verdict(cache[url_key(a)]),
        ) == combined_verdict(sled_verdict(entries, url_key(b)), report_verdict(cache[url_key(b)])),
{
}

/// Once a check of a key has finished with the report time `t`, a later
/// check of any URL with that key is decided from the cache, whatever the
/// service would answer now: its verdict is the deny list's combined with
/// `t`.
pub proof fn lemma_finished_check_answers_later_checks(
    entries: Map<Seq<char>, Seq<u8>>,
    cache: Map<Seq<char>, Time>,
    key: Seq<char>,
    url: Seq<char>,
    t: Time,
)
    requires
        url_key(url) == key,
    ensures
        cache.insert(key, t).contains_key(url_key(url)),
        combined_verdict(
            sled_verdict(entries, url_key(url)),
            report_verdict(cache.insert(key, t)[url_key(url)]),
        ) == combined_verdict(sled_verdict(entries, key), report_verdict(t)),
{
}

} // verus!
