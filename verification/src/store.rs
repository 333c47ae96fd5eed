//! The session store as the service sees it: a key-value store that keeps
//! each value for a limited time. The store itself lives outside the
//! service; this module describes what is sent to it and what comes back,
//! states how such a store behaves, and holds a table that behaves so in
//! memory.

use crate::clock::{Timestamp, NANOS_PER_SECOND};
use crate::error::StoreError;
use vstd::hash_map::StringHashMap;
use vstd::prelude::*;
use vstd::slice::*;
use vstd::string::*;
use vstd::utf8::*;

verus! {

/// How long a session lives, in seconds.
pub const SESSION_TTL_SECONDS: u64 = 60;

/// A session to be written to the store: `owner` under the key `token`, to
/// be kept for `ttl_seconds`.
#[derive(Clone, Debug, PartialEq, Eq)]
pub struct SessionGrant {
    pub token: String,
    pub owner: String,
    pub ttl_seconds: u64,
}

/// What the store answers when asked for a key.
#[derive(Clone, Debug, PartialEq, Eq)]
pub enum StoreReply {
    /// The value kept under the key.
    Found(Vec<u8>),
    /// Nothing is kept under the key: it was never written, or its time is up.
    NotFound,
    /// The store could not answer.
    Failed(StoreError),
}

impl StoreReply {
    /// The value that the store handed out, if it handed one out.
    pub open spec fn stored(self) -> Option<Seq<u8>> {
        match self {
            StoreReply::Found(value) => Some(value@),
            _ => None,
        }
    }
}

/// One entry of a store: the value and the instant, in nanoseconds since the
/// epoch, from which on it is gone.
pub struct SessionRecord {
    pub value: Seq<u8>,
    pub deadline: int,
}

/// The store after `value` was written under `key` at the instant `now`, to
/// be kept for `ttl_seconds`. An earlier entry under the key is replaced.
pub open spec fn put(
    sessions: Map<Seq<char>, SessionRecord>,
    key: Seq<char>,
    value: Seq<u8>,
    ttl_seconds: nat,
    now: int,
) -> Map<Seq<char>, SessionRecord> {
    sessions.insert(key, SessionRecord { value, deadline: now + ttl_seconds * NANOS_PER_SECOND })
}

/// What the store hands out for `key` at the instant `now`: the value written
/// last, as long as its time is not up.
pub open spec fn lookup(
    sessions: Map<Seq<char>, SessionRecord>,
    key: Seq<char>,
    now: int,
) -> Option<Seq<u8>> {
    if sessions.contains_key(key) && now < sessions[key].deadline {
        Some(sessions[key].value)
    } else {
        None
    }
}

/// An entry of the table in memory.
struct StoredSession {
    value: Vec<u8>,
    written: Timestamp,
    ttl_seconds: u64,
}

impl StoredSession {
    /// The entry as the store's users see it.
    spec fn record(self) -> SessionRecord {
        SessionRecord {
            value: self.value@,
            deadline: self.written.instant() + self.ttl_seconds * NANOS_PER_SECOND,
        }
    }

    /// Whether the entry's time is not yet up at `now`.
    fn is_live(&self, now: Timestamp) -> (live: bool)
        ensures
            live == (now.instant() < self.record().deadline),
    {
        let lifetime: i128 = self.ttl_seconds as i128 * 1_000_000_000;
        now.nanos_since_epoch() < self.written.nanos_since_epoch() + lifetime
    }
}

/// A session store in memory. It keeps no clock of its own: each call says
/// what time it is.
pub struct SessionTable {
    entries: StringHashMap<StoredSession>,
}

/// The entries as records, key by key.
spec fn as_records(entries: Map<Seq<char>, StoredSession>) -> Map<Seq<char>, SessionRecord> {
    entries.map_values(|entry: StoredSession| entry.record())
}

impl View for SessionTable {
    type V = Map<Seq<char>, SessionRecord>;

    /// What the table holds under each key.
    closed spec fn view(&self) -> Map<Seq<char>, SessionRecord> {
        as_records(self.entries@)
    }
}

impl SessionTable {
    /// An empty table.
    pub fn new() -> (table: SessionTable)
        ensures
            table@ == Map::<Seq<char>, SessionRecord>::empty(),
    {
        let table = SessionTable { entries: StringHashMap::new() };
        assert(table@ =~= Map::<Seq<char>, SessionRecord>::empty());
        table
    }

    /// Writes `value` under `key`, to be kept for `ttl_seconds` from `now`.
    /// The table never fails.
    pub fn set_with_expiry(
        &mut self,
        key: &str,
        value: &str,
        ttl_seconds: u64,
        now: Timestamp,
    ) -> (outcome: Result<(), StoreError>)
        ensures
            outcome is Ok,
            final(self)@ == put(
                old(self)@,
                key@,
                encode_utf8(value@),
                ttl_seconds as nat,
                now.instant(),
            ),
    {
        let entry = StoredSession { value: value.as_bytes_vec(), written: now, ttl_seconds };
        proof {
            assert(as_records(self.entries@.insert(key@, entry)) =~= put(
                as_records(self.entries@),
                key@,
                encode_utf8(value@),
                ttl_seconds as nat,
                now.instant(),
            ));
        }
        self.entries.insert(key.to_owned(), entry);
        Ok(())
    }

    /// What is kept under `key` at the time `now`.
    pub fn get(&self, key: &str, now: Timestamp) -> (reply: StoreReply)
        ensures
            reply !is Failed,
            reply is Found <==> lookup(self@, key@, now.instant()) is Some,
            reply.stored() == lookup(self@, key@, now.instant()),
    {
        match self.entries.get(key) {
            None => StoreReply::NotFound,
            Some(entry) => {
                if entry.is_live(now) {
                    StoreReply::Found(slice_to_vec(entry.value.as_slice()))
                } else {
                    StoreReply::NotFound
                }
            },
        }
    }
}

} // verus!
