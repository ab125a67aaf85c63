//! The persistent deny list: URL origins mapped to the millisecond time at
//! which they were denied, kept in a `sled` database.

use vstd::prelude::*;

use crate::clock::{now_timestamp, LAST_SECOND};
use crate::codec::{lemma_time_bytes_roundtrip, time_bytes, time_of_bytes, time_to_be_bytes};
use crate::errors::SafeError;

verus! {

/// A millisecond Unix timestamp; `-1` stands for "none".
pub type Time = i64;

/// The embedded database type of `sled`.
#[verifier::external_type_specification]
#[verifier::external_body]
pub struct ExDb(sled::Db);

/// What a `sled` database holds: for each string, the bytes stored under the
/// string's UTF-8 encoding, where there are any.
pub uninterp spec fn db_entries(db: sled::Db) -> Map<Seq<char>, Seq<u8>>;

/// The directory a `sled` database was opened at.
pub uninterp spec fn db_path(db: sled::Db) -> Seq<char>;

/// `sled::open(path)`: opens (or creates) the database directory at `path`
/// (`Config::new().path(path).open()`), so the database it returns is the one
/// at `path`. Nothing is stated of what the opened database holds: that is
/// what is on disk.
#[verifier::external_body]
fn open_db(path: &str) -> (r: Result<sled::Db, sled::Error>)
    ensures
        r matches Ok(db) ==> db_path(db) == path@,
{
    sled::open(path)
}

/// `sled::Tree::get(key)` on the database's default tree. When it succeeds,
/// it returns a copy of the bytes stored under `key`, or `None` when nothing
/// is. Nothing is stated of when it fails (I/O or corruption).
#[verifier::external_body]
fn db_get(db: &sled::Db, key: &str) -> (r: Result<Option<Vec<u8>>, sled::Error>)
    ensures
        r matches Ok(found) ==> match found {
            Some(v) => db_entries(*db).contains_key(key@) && v@ == db_entries(*db)[key@],
            None => !db_entries(*db).contains_key(key@),
        },
{
    db.get(key).map(|found| found.map(|v| v.to_vec()))
}

/// `sled::Tree::insert(key, value)`: when it succeeds, `key` maps to `value`
/// and every other entry is as it was. The previous value it returns is
/// dropped. After a failure nothing is stated of the contents. The database
/// stays the one at its path.
#[verifier::external_body]
fn db_insert(db: &mut sled::Db, key: &str, value: &[u8]) -> (r: Result<(), sled::Error>)
    ensures
        db_path(*final(db)) == db_path(*old(db)),
        r is Ok ==> db_entries(*final(db)) == db_entries(*old(db)).insert(key@, value@),
{
    db.insert(key, value).map(|_| ())
}

/// `sled::Tree::remove(key)`: when it succeeds, `key` maps to nothing and
/// every other entry is as it was. The removed value it returns is dropped.
/// After a failure nothing is stated of the contents. The database stays the
/// one at its path.
#[verifier::external_body]
fn db_remove(db: &mut sled::Db, key: &str) -> (r: Result<(), sled::Error>)
    ensures
        db_path(*final(db)) == db_path(*old(db)),
        r is Ok ==> db_entries(*final(db)) == db_entries(*old(db)).remove(key@),
{
    db.remove(key).map(|_| ())
}

/// The time recorded for `url`: the big-endian value of its first eight
/// stored bytes, or `-1` when `url` is not denied.
pub open spec fn entry_time(entries: Map<Seq<char>, Seq<u8>>, url: Seq<char>) -> Time {
    if entries.contains_key(url) {
        time_of_bytes(entries[url])
    } else {
        -1i64
    }
}

/// Whether the time recorded for `url` can be read: it is absent, or it holds
/// at least eight bytes.
pub open spec fn time_readable(entries: Map<Seq<char>, Seq<u8>>, url: Seq<char>) -> bool {
    entries.contains_key(url) ==> entries[url].len() >= 8
}

/// The deny list, kept on disk.
pub struct Sled {
    db: sled::Db,
}

impl View for Sled {
    type V = Map<Seq<char>, Seq<u8>>;

    closed spec fn view(&self) -> Map<Seq<char>, Seq<u8>> {
        db_entries(self.db)
    }
}

/// The time stored for a denial at the clock reading `seconds`: the reading
/// in milliseconds.
pub open spec fn millis(seconds: Time) -> Time {
    (seconds * 1000) as Time
}

impl Sled {
    /// The directory the deny list is kept in.
    pub closed spec fn opened_path(&self) -> Seq<char> {
        db_path(self.db)
    }

    /// Opens the deny list stored at `path`.
    pub fn new(path: &str) -> (r: Result<Sled, SafeError>)
        ensures
            r matches Ok(s) ==> s.opened_path() == path@,
            r matches Err(e) ==> e is Storage,
    {
        match open_db(path) {
            Ok(db) => Ok(Sled { db }),
            Err(e) => Err(SafeError::Storage(e)),
        }
    }

    /// Denies `url` as of `time`: stores the eight big-endian bytes of `time`
    /// under it.
    pub fn deny_at(&mut self, url: &str, time: Time) -> (r: Result<(), SafeError>)
        ensures
            final(self).opened_path() == old(self).opened_path(),
            r is Ok ==> final(self)@ == old(self)@.insert(url@, time_bytes(time)),
            r matches Err(e) ==> e is Storage,
    {
        let bytes = time_to_be_bytes(time);
        match db_insert(&mut self.db, url, bytes.as_slice()) {
            Ok(()) => Ok(()),
            Err(e) => Err(SafeError::Storage(e)),
        }
    }

    /// Denies `url` as of the clock reading `seconds`: stores the reading in
    /// milliseconds.
    pub fn deny_at_seconds(&mut self, url: &str, seconds: Time) -> (r: Result<(), SafeError>)
        requires
            0 <= seconds <= LAST_SECOND,
        ensures
            final(self).opened_path() == old(self).opened_path(),
            r is Ok ==> final(self)@ == old(self)@.insert(url@, time_bytes(millis(seconds))),
            r matches Err(e) ==> e is Storage,
    {
        assert(seconds * 1000 <= LAST_SECOND * 1000) by (nonlinear_arith)
            requires
                seconds <= LAST_SECOND,
        ;
        self.deny_at(url, seconds * 1000)
    }

    /// Denies `url` as of now: the clock's reading in whole seconds, stored in
    /// milliseconds.
    pub fn deny(&mut self, url: &str) -> (r: Result<(), SafeError>)
        ensures
            final(self).opened_path() == old(self).opened_path(),
            r is Ok ==> exists|seconds: Time|
                0 <= seconds <= LAST_SECOND && final(self)@ == old(self)@.insert(
                    url@,
                    time_bytes(#[trigger] millis(seconds)),
                ),
            r matches Err(e) ==> e is Storage,
    {
        let seconds = now_timestamp();
        let r = self.deny_at_seconds(url, seconds);
        proof {
            if r is Ok {
                assert(final(self)@ == old(self)@.insert(url@, time_bytes(millis(seconds))));
            }
        }
        r
    }

    /// Takes `url` off the deny list.
    pub fn allow(&mut self, url: &str) -> (r: Result<(), SafeError>)
        ensures
            final(self).opened_path() == old(self).opened_path(),
            r is Ok ==> final(self)@ == old(self)@.remove(url@),
            r matches Err(e) ==> e is Storage,
    {
        match db_remove(&mut self.db, url) {
            Ok(()) => Ok(()),
            Err(e) => Err(SafeError::Storage(e)),
        }
    }

    /// Whether `url` is on the deny list.
    pub fn is_denied(&mut self, url: &str) -> (r: Result<bool, SafeError>)
        ensures
            final(self).opened_path() == old(self).opened_path(),
            final(self)@ == old(self)@,
            r matches Ok(b) ==> b == old(self)@.contains_key(url@),
            r matches Err(e) ==> e is Storage,
    {
        match db_get(&self.db, url) {
            Ok(found) => Ok(found.is_some()),
            Err(e) => Err(SafeError::Storage(e)),
        }
    }

    /// Whether `url` is safe by the deny list, and since when it is denied
    /// (`-1` when it is not).
    pub fn is_safe(&mut self, url: &str) -> (r: Result<(bool, Time), SafeError>)
        requires
            time_readable(old(self)@, url@),
        ensures
            final(self).opened_path() == old(self).opened_path(),
            final(self)@ == old(self)@,
            r matches Ok((safe, time)) ==> safe == !old(self)@.contains_key(url@) && time
                == entry_time(old(self)@, url@),
            r matches Err(e) ==> e is Storage,
    {
        match db_get(&self.db, url) {
            Ok(found) => {
                if found.is_some() {
                    let time = self.get_time(url)?;
                    Ok((false, time))
                } else {
                    Ok((true, -1))
                }
            },
            Err(e) => Err(SafeError::Storage(e)),
        }
    }

    /// The time since which `url` is denied, or `-1` when it is not.
    pub fn get_time(&mut self, url: &str) -> (r: Result<Time, SafeError>)
        requires
            time_readable(old(self)@, url@),
        ensures
            final(self).opened_path() == old(self).opened_path(),
            final(self)@ == old(self)@,
            r matches Ok(time) ==> time == entry_time(old(self)@, url@),
            r matches Err(e) ==> e is Storage,
    {
        match db_get(&self.db, url) {
            Ok(Some(bytes)) => Ok(Self::as_i64_be(bytes.as_slice())),
            Ok(None) => Ok(-1),
            Err(e) => Err(SafeError::Storage(e)),
        }
    }

    /// Whether the time recorded for `url` can be read, which `get_time` and
    /// `is_safe` need.
    pub fn time_is_readable(&self, url: &str) -> (r: Result<bool, SafeError>)
        ensures
            r matches Ok(b) ==> b == time_readable(self@, url@),
            r matches Err(e) ==> e is Storage,
    {
        match db_get(&self.db, url) {
            Ok(Some(bytes)) => Ok(bytes.len() >= 8),
            Ok(None) => Ok(true),
            Err(e) => Err(SafeError::Storage(e)),
        }
    }

    /// Reads a big-endian two's-complement `i64` from the first eight bytes.
    pub fn as_i64_be(bytes: &[u8]) -> (r: i64)
        requires
            bytes@.len() >= 8,
        ensures
            r == time_of_bytes(bytes@),
    {
        let t0 = (bytes[0] as i64) << 56u64;
        let t1 = (bytes[1] as i64) << 48u64;
        let t2 = (bytes[2] as i64) << 40u64;
        let t3 = (bytes[3] as i64) << 32u64;
        let t4 = (bytes[4] as i64) << 24u64;
        let t5 = (bytes[5] as i64) << 16u64;
        let t6 = (bytes[6] as i64) << 8u64;
        let t7 = bytes[7] as i64;
        let ghost (b0, b1, b2, b3, b4, b5, b6, b7) = (
            bytes@[0],
            bytes@[1],
            bytes@[2],
            bytes@[3],
            bytes@[4],
            bytes@[5],
            bytes@[6],
            bytes@[7],
        );
        assert(t0 + t1 + t2 + t3 + t4 + t5 + t6 + t7 == t0 | t1 | t2 | t3 | t4 | t5 | t6 | t7
            && i64::MIN <= t0 + t1 <= i64::MAX && i64::MIN <= t0 + t1 + t2 <= i64::MAX
            && i64::MIN <= t0 + t1 + t2 + t3 <= i64::MAX && i64::MIN <= t0 + t1 + t2 + t3 + t4
            <= i64::MAX && i64::MIN <= t0 + t1 + t2 + t3 + t4 + t5 <= i64::MAX && i64::MIN <= t0
            + t1 + t2 + t3 + t4 + t5 + t6 <= i64::MAX && i64::MIN <= t0 + t1 + t2 + t3 + t4 + t5
            + t6 + t7 <= i64::MAX) by (bit_vector)
            requires
                t0 == (b0 as i64) << 56u64,
                t1 == (b1 as i64) << 48u64,
                t2 == (b2 as i64) << 40u64,
                t3 == (b3 as i64) << 32u64,
                t4 == (b4 as i64) << 24u64,
                t5 == (b5 as i64) << 16u64,
                t6 == (b6 as i64) << 8u64,
                t7 == b7 as i64,
        ;
        t0 + t1 + t2 + t3 + t4 + t5 + t6 + t7
    }
}

/// After `deny_at(url, t)`, `url` is denied and its recorded time reads `t`;
/// every other entry keeps its time.
pub proof fn lemma_deny_then_time(
    entries: Map<Seq<char>, Seq<u8>>,
    url: Seq<char>,
    t: Time,
    other: Seq<char>,
)
    ensures
        entries.insert(url, time_bytes(t)).contains_key(url),
        time_readable(entries.insert(url, time_bytes(t)), url),
        entry_time(entries.insert(url, time_bytes(t)), url) == t,
        other != url ==> entry_time(entries.insert(url, time_bytes(t)), other) == entry_time(
            entries,
            other,
        ),
        other != url ==> (time_readable(entries.insert(url, time_bytes(t)), other)
            == time_readable(entries, other)),
{
    lemma_time_bytes_roundtrip(t);
}

/// After a denial at the clock reading `seconds`, `url` is denied and its
/// recorded time reads the reading in milliseconds.
pub proof fn lemma_deny_at_seconds_then_time(
    entries: Map<Seq<char>, Seq<u8>>,
    url: Seq<char>,
    seconds: Time,
)
    requires
        0 <= seconds <= LAST_SECOND,
    ensures
        entries.insert(url, time_bytes(millis(seconds))).contains_key(url),
        entry_time(entries.insert(url, time_bytes(millis(seconds))), url) == seconds * 1000,
{
    assert(seconds * 1000 <= LAST_SECOND * 1000) by (nonlinear_arith)
        requires
            seconds <= LAST_SECOND,
    ;
    lemma_time_bytes_roundtrip(millis(seconds));
}

/// After `allow(url)`, `url` is not denied and its time reads `-1`; every
/// other entry keeps its time.
pub proof fn lemma_allow_then_time(
    entries: Map<Seq<char>, Seq<u8>>,
    url: Seq<char>,
    other: Seq<char>,
)
    ensures
        !entries.remove(url).contains_key(url),
        time_readable(entries.remove(url), url),
        entry_time(entries.remove(url), url) == -1,
        other != url ==> entry_time(entries.remove(url), other) == entry_time(entries, other),
        other != url ==> (time_readable(entries.remove(url), other) == time_readable(
            entries,
            other,
        )),
{
}

} // verus!
