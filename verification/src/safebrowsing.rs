//! The cache of transparency-report verdicts, and the reading of a report.

use vstd::prelude::*;
use vstd::hash_map::StringHashMap;
use vstd::string::StringSliceAdditionalSpecFns;
use vstd::utf8::{
    decode_utf8, encode_utf8, encode_utf8_decode_utf8, encode_utf8_valid_utf8, is_char_boundary,
    is_char_boundary_iff_not_is_continuation_byte, is_char_boundary_start_end_of_seq,
    valid_utf8_split,
};

use crate::errors::SafeError;
use crate::json::{json_accepts, json_i64_at, json_number_at, json_u64_at};
use crate::store::Time;

verus! {

/// Where the transparency report of a site is asked for; the site follows.
pub const SAFEBROWSING_ENDPOINT: &'static str =
    "https://transparencyreport.google.com/transparencyreport/api/v3/safebrowsing/status?site=";

/// The report states that count as a verdict against the site.
pub enum SafeState {
    NoAvailableData,
    SomePagesUnsafe,
    HarmfulPage,
}

impl SafeState {
    /// The number the report uses for the state.
    pub fn code(&self) -> (r: u64)
        ensures
            r == match self {
                SafeState::NoAvailableData => 6u64,
                SafeState::SomePagesUnsafe => 3u64,
                SafeState::HarmfulPage => 2u64,
            },
    {
        match self {
            SafeState::NoAvailableData => 6,
            SafeState::SomePagesUnsafe => 3,
            SafeState::HarmfulPage => 2,
        }
    }
}

/// Whether a report state is one of `SafeState`'s.
pub open spec fn flagged_state(state: u64) -> bool {
    state == 6 || state == 3 || state == 2
}

/// Whether a report body can be cut: it has at least eight bytes, and the
/// 7th byte and the last byte start characters.
pub open spec fn body_cuttable(body: Seq<char>) -> bool {
    let b = encode_utf8(body);
    &&& b.len() >= 8
    &&& is_char_boundary(b, 7)
    &&& is_char_boundary(b, b.len() - 1)
}

/// The JSON document inside a report body: the body without its first seven
/// bytes and its last byte.
pub open spec fn report_document(body: Seq<char>) -> Seq<char> {
    let b = encode_utf8(body);
    decode_utf8(b.subrange(7, b.len() - 1))
}

/// The time a report gives: the time at `/7` when the state at `/1` is
/// flagged, `-1` when it is not, and `None` when the document lacks what is
/// read.
pub open spec fn report_time(document: Seq<char>) -> Option<Time> {
    match json_u64_at(document, "/1"@) {
        Some(state) => if flagged_state(state) {
            json_i64_at(document, "/7"@)
        } else {
            Some(-1i64)
        },
        None => None,
    }
}

/// Whether a report document gives a time where it is JSON: a state at `/1`,
/// and a time at `/7` when the state is flagged.
pub open spec fn report_readable(document: Seq<char>) -> bool {
    json_accepts(document) ==> report_time(document) is Some
}

/// The verdicts already obtained, by site key.
pub struct Safebrowsing {
    deny: StringHashMap<Time>,
}

impl View for Safebrowsing {
    type V = Map<Seq<char>, Time>;

    closed spec fn view(&self) -> Map<Seq<char>, Time> {
        self.deny@
    }
}

impl Safebrowsing {
    /// An empty cache.
    pub fn new() -> (r: Safebrowsing)
        ensures
            r@ == Map::<Seq<char>, Time>::empty(),
    {
        Safebrowsing { deny: StringHashMap::new() }
    }

    /// The verdict already obtained for `input`, if any.
    pub fn cached(&self, input: &str) -> (r: Option<Time>)
        ensures
            r is Some <==> self@.contains_key(input@),
            r matches Some(t) ==> t == self@[input@],
    {
        match self.deny.get(input) {
            Some(t) => Some(*t),
            None => None,
        }
    }

    /// The address at which the report for `input` is asked for.
    pub fn request_url(input: &str) -> (r: String)
        ensures
            r@ == SAFEBROWSING_ENDPOINT@ + input@,
    {
        let mut r = String::from_str(SAFEBROWSING_ENDPOINT);
        r.append(input);
        r
    }

    /// Whether a report body can be cut into its document (see
    /// `body_cuttable`).
    pub fn body_is_cuttable(body: &str) -> (r: bool)
        ensures
            r == body_cuttable(body@),
    {
        let len = body.as_bytes().len();
        len >= 8 && body.is_char_boundary(7) && body.is_char_boundary(len - 1)
    }

    /// The JSON document inside a report body.
    pub fn document(body: &str) -> (r: &str)
        requires
            body_cuttable(body@),
        ensures
            r@ == report_document(body@),
    {
        let len = body.as_bytes().len();
        let ghost b = body.spec_bytes();
        let (front, _) = body.split_at(len - 1);
        proof {
            encode_utf8_valid_utf8(body@);
            valid_utf8_split(b, len - 1);
            let f = b.subrange(0, len - 1);
            if 7 < len - 1 {
                is_char_boundary_iff_not_is_continuation_byte(b, 7);
                is_char_boundary_iff_not_is_continuation_byte(f, 7);
                assert(f[7] == b[7]);
            } else {
                is_char_boundary_start_end_of_seq(f);
            }
        }
        let (_, r) = front.split_at(7);
        proof {
            assert(r.spec_bytes() =~= b.subrange(7, len - 1));
            encode_utf8_decode_utf8(r@);
        }
        r
    }

    /// Whether a report document gives a time where it is JSON: it has a
    /// state at `/1`, and a time at `/7` when the state is flagged. Where it
    /// does not, the report says nothing usable and no verdict can be read.
    pub fn report_is_readable(document: &str) -> (r: bool)
        ensures
            r == report_readable(document@),
    {
        let state = match json_number_at(document, "/1") {
            Ok(n) => n.as_u64,
            Err(_) => return true,
        };
        match state {
            Some(state) => {
                if Self::is_flagged(state) {
                    match json_number_at(document, "/7") {
                        Ok(n) => n.as_i64.is_some(),
                        Err(_) => true,
                    }
                } else {
                    true
                }
            },
            None => false,
        }
    }

    /// Whether a report state is one of `SafeState`'s.
    pub fn is_flagged(state: u64) -> (r: bool)
        ensures
            r == flagged_state(state),
    {
        state == SafeState::NoAvailableData.code() || state == SafeState::SomePagesUnsafe.code()
            || state == SafeState::HarmfulPage.code()
    }

    /// The time a report document gives (see `report_time`): the time at
    /// `/7` for a flagged state at `/1`, else `-1`; an error when the
    /// document is not JSON.
    pub fn report_time(document: &str) -> (r: Result<Time, SafeError>)
        requires
            report_readable(document@),
        ensures
            r is Err <==> !json_accepts(document@),
            r matches Err(e) ==> e is Json,
            r matches Ok(t) ==> report_time(document@) == Some(t),
    {
        let state = match json_number_at(document, "/1") {
            Ok(n) => n.as_u64.unwrap(),
            Err(e) => return Err(SafeError::Json(e)),
        };
        if Self::is_flagged(state) {
            match json_number_at(document, "/7") {
                Ok(n) => Ok(n.as_i64.unwrap()),
                Err(e) => Err(SafeError::Json(e)),
            }
        } else {
            Ok(-1)
        }
    }

    /// Completes a check of `input` with the response to its request: a body,
    /// or the reason it could not be fetched. The verdict read from the body
    /// is kept for `input` and returned.
    pub fn complete_check(&mut self, input: &str, response: Result<String, String>) -> (r:
        Result<Time, SafeError>)
        requires
            response matches Ok(body) ==> body_cuttable(body@) && report_readable(
                report_document(body@),
            ),
        ensures
            match response {
                Err(msg) => r == Err::<Time, SafeError>(SafeError::Fetch(msg)) && final(self)@
                    == old(self)@,
                Ok(body) => {
                    let doc = report_document(body@);
                    &&& (r is Err <==> !json_accepts(doc))
                    &&& (r matches Err(e) ==> e is Json && final(self)@ == old(self)@)
                    &&& (r matches Ok(t) ==> report_time(doc) == Some(t) && final(self)@ == old(
                        self,
                    )@.insert(input@, t))
                },
            },
    {
        match response {
            Err(msg) => Err(SafeError::Fetch(msg)),
            Ok(body) => {
                let document = Self::document(body.as_str());
                let time = Self::report_time(document)?;
                self.deny.insert(String::from_str(input), time);
                Ok(time)
            },
        }
    }
}

/// Once a check of a site completes with a verdict, the verdict is what the
/// cache holds for it, so a later check of the site needs no request.
pub proof fn lemma_completed_check_is_cached(cache: Map<Seq<char>, Time>, input: Seq<char>, t: Time)
    ensures
        cache.insert(input, t).contains_key(input),
        cache.insert(input, t)[input] == t,
{
}

/// What a report says, by its state at `/1`: a state other than 2, 3 and 6
/// gives the time `-1` and needs nothing at `/7`; the states 2, 3 and 6 give
/// the time at `/7`, and the report is readable exactly when there is one;
/// without a state the JSON report is unreadable; a text that is not JSON is
/// no report to read.
pub proof fn lemma_report_by_state(document: Seq<char>)
    ensures
        json_u64_at(document, "/1"@) matches Some(s) && s != 2 && s != 3 && s != 6 ==> report_time(
            document,
        ) == Some(-1i64) && report_readable(document),
        json_u64_at(document, "/1"@) matches Some(s) && (s == 2 || s == 3 || s == 6) ==> report_time(
            document,
        ) == json_i64_at(document, "/7"@) && (report_readable(document) <==> (!json_accepts(
            document,
        ) || json_i64_at(document, "/7"@) is Some)),
        json_u64_at(document, "/1"@) is None ==> (report_readable(document) <==> !json_accepts(
            document,
        )),
        !json_accepts(document) ==> report_readable(document),
{
}

} // verus!
