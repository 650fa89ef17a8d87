//! Store interfaces for events and replay state, with in-memory
//! implementations and the in-memory side of the file-backed ones.
//!
//! Reading and writing files is done by the application around the library:
//! `FileEventStore` and `FileReplayStore` hold the path and the state that it
//! persists.
use crate::errors::{SecurityError, SecurityResult};
use crate::replay::{newest, texts, vec_holds, ReplayGuard, ReplayView, DEFAULT_REPLAY_CAPACITY};
use crate::types::SecurityEvent;
use vstd::prelude::*;

verus! {

/// Both lists hold the same events, position by position.
pub open spec fn same_records(a: Seq<SecurityEvent>, b: Seq<SecurityEvent>) -> bool {
    &&& a.len() == b.len()
    &&& forall|i: int| 0 <= i < a.len() ==> (#[trigger] a[i]).same_record(b[i])
}

/// `after` is `before` with one more event, which holds the values of `event`.
pub open spec fn appended(before: Seq<SecurityEvent>, after: Seq<SecurityEvent>, event: SecurityEvent) -> bool {
    &&& after.len() == before.len() + 1
    &&& after.take(before.len() as int) == before
    &&& after.last().same_record(event)
}

/// An append-only store of accepted events.
///
/// The stores of this library are modelled: their operations behave as
/// `recorded` and `reliable` describe. A store implemented elsewhere keeps
/// the defaults and promises nothing to the engine.
pub trait EventStore {
    /// Whether the store behaves as its specification functions describe.
    open spec fn modelled(&self) -> bool {
        false
    }

    /// The events recorded so far, oldest first.
    open spec fn recorded(&self) -> Seq<SecurityEvent> {
        Seq::empty()
    }

    /// Whether the store's operations never fail.
    open spec fn reliable(&self) -> bool {
        false
    }

    /// Records `event` after the events already recorded.
    fn append(&mut self, event: &SecurityEvent) -> (r: SecurityResult<()>)
        ensures
            final(self).modelled() == old(self).modelled(),
            old(self).modelled() ==> {
                &&& old(self).reliable() ==> r is Ok
                &&& final(self).reliable() == old(self).reliable()
                &&& r is Ok ==> appended(old(self).recorded(), final(self).recorded(), *event)
                &&& r is Err ==> final(self).recorded() == old(self).recorded()
            },
    ;

    /// Every recorded event, oldest first.
    fn load_all(&self) -> (r: SecurityResult<Vec<SecurityEvent>>)
        ensures
            self.modelled() ==> {
                &&& self.reliable() ==> r is Ok
                &&& r matches Ok(events) ==> same_records(events@, self.recorded())
            },
    ;
}

/// A store of the nonces and event hashes seen, for replay defense.
///
/// The stores of this library are modelled: their operations behave as the
/// specification functions describe. A store implemented elsewhere keeps the
/// defaults and promises nothing to the engine.
pub trait ReplayStore {
    /// Whether the store behaves as its specification functions describe.
    open spec fn modelled(&self) -> bool {
        false
    }

    /// Whether `nonce` is remembered.
    open spec fn holds_nonce(&self, nonce: Seq<char>) -> bool {
        false
    }

    /// Whether `event_hash` is remembered.
    open spec fn holds_event_hash(&self, event_hash: Seq<char>) -> bool {
        false
    }

    /// Whether a remembered entry is still held right after it is remembered
    /// (a positive capacity).
    open spec fn retains(&self) -> bool {
        false
    }

    /// Whether no list is above its bound, so that remembering one kind of
    /// entry evicts nothing of the other.
    open spec fn settled(&self) -> bool {
        false
    }

    /// Whether the store's operations never fail.
    open spec fn reliable(&self) -> bool {
        false
    }

    /// Remembers a nonce.
    fn remember_nonce(&mut self, nonce: &str) -> (r: SecurityResult<()>)
        ensures
            final(self).modelled() == old(self).modelled(),
            old(self).modelled() ==> {
                &&& old(self).reliable() ==> r is Ok
                &&& final(self).reliable() == old(self).reliable()
                &&& final(self).retains() == old(self).retains()
                &&& r is Ok ==> final(self).settled()
                &&& r is Ok && old(self).retains() && old(self).settled()
                    ==> final(self).holds_nonce(nonce@)
                &&& r is Ok && old(self).settled() ==> forall|h: Seq<char>|
                    #[trigger] old(self).holds_event_hash(h) ==> final(self).holds_event_hash(h)
            },
    ;

    /// Whether a nonce is remembered.
    fn seen_nonce(&self, nonce: &str) -> (r: SecurityResult<bool>)
        ensures
            self.modelled() ==> {
                &&& self.reliable() ==> r is Ok
                &&& r matches Ok(b) ==> b == self.holds_nonce(nonce@)
            },
    ;

    /// Remembers an event hash.
    fn remember_event_hash(&mut self, event_hash: &str) -> (r: SecurityResult<()>)
        ensures
            final(self).modelled() == old(self).modelled(),
            old(self).modelled() ==> {
                &&& old(self).reliable() ==> r is Ok
                &&& final(self).reliable() == old(self).reliable()
                &&& final(self).retains() == old(self).retains()
                &&& r is Ok ==> final(self).settled()
                &&& r is Ok && old(self).retains() && old(self).settled()
                    ==> final(self).holds_event_hash(event_hash@)
                &&& r is Ok && old(self).settled() ==> forall|n: Seq<char>|
                    #[trigger] old(self).holds_nonce(n) ==> final(self).holds_nonce(n)
            },
    ;

    /// Whether an event hash is remembered.
    fn seen_event_hash(&self, event_hash: &str) -> (r: SecurityResult<bool>)
        ensures
            self.modelled() ==> {
                &&& self.reliable() ==> r is Ok
                &&& r matches Ok(b) ==> b == self.holds_event_hash(event_hash@)
            },
    ;
}

/// Events kept in memory.
#[derive(Debug)]
pub struct MemoryEventStore {
    events: Vec<SecurityEvent>,
}

impl View for MemoryEventStore {
    type V = Seq<SecurityEvent>;

    closed spec fn view(&self) -> Seq<SecurityEvent> {
        self.events@
    }
}

/// Copies of `events`, in order.
fn clone_events(events: &Vec<SecurityEvent>) -> (r: Vec<SecurityEvent>)
    ensures
        same_records(r@, events@),
{
    let mut out: Vec<SecurityEvent> = Vec::new();
    let n = events.len();
    let mut i: usize = 0;
    while i < n
        invariant
            n == events@.len(),
            i <= n,
            out@.len() == i,
            forall|j: int| 0 <= j < i ==> (#[trigger] out@[j]).same_record(events@[j]),
        decreases n - i,
    {
        out.push(events[i].clone());
        i = i + 1;
    }
    out
}

impl MemoryEventStore {
    /// An empty store.
    pub fn new() -> (s: Self)
        ensures
            s@ == Seq::<SecurityEvent>::empty(),
    {
        MemoryEventStore { events: Vec::new() }
    }
}

impl Default for MemoryEventStore {
    fn default() -> (s: Self)
        ensures
            s@ == Seq::<SecurityEvent>::empty(),
    {
        MemoryEventStore::new()
    }
}

impl EventStore for MemoryEventStore {
    open spec fn modelled(&self) -> bool {
        true
    }

    open spec fn recorded(&self) -> Seq<SecurityEvent> {
        self@
    }

    open spec fn reliable(&self) -> bool {
        true
    }

    fn append(&mut self, event: &SecurityEvent) -> (r: SecurityResult<()>)
        ensures
            r is Ok,
            appended(old(self)@, final(self)@, *event),
    {
        let ghost before = self.events@;
        self.events.push(event.clone());
        assert(self.events@.take(before.len() as int) =~= before);
        Ok(())
    }

    fn load_all(&self) -> (r: SecurityResult<Vec<SecurityEvent>>)
        ensures
            r matches Ok(events) && same_records(events@, self@),
    {
        Ok(clone_events(&self.events))
    }
}

/// Replay state kept in memory: a bounded window of nonces and one of event
/// hashes, oldest evicted first.
#[derive(Debug)]
pub struct MemoryReplayStore {
    guard: ReplayGuard,
}

impl View for MemoryReplayStore {
    type V = ReplayView;

    closed spec fn view(&self) -> ReplayView {
        self.guard@
    }
}

impl MemoryReplayStore {
    /// An empty store that keeps at most `capacity` entries of each kind.
    pub fn new(capacity: usize) -> (s: Self)
        ensures
            s@.nonces == Seq::<Seq<char>>::empty(),
            s@.event_hashes == Seq::<Seq<char>>::empty(),
            s@.capacity == capacity,
    {
        MemoryReplayStore { guard: ReplayGuard::with_capacity(capacity) }
    }
}

impl Default for MemoryReplayStore {
    fn default() -> (s: Self)
        ensures
            s@.nonces == Seq::<Seq<char>>::empty(),
            s@.event_hashes == Seq::<Seq<char>>::empty(),
            s@.capacity == DEFAULT_REPLAY_CAPACITY,
    {
        MemoryReplayStore::new(DEFAULT_REPLAY_CAPACITY)
    }
}

impl ReplayStore for MemoryReplayStore {
    open spec fn modelled(&self) -> bool {
        true
    }

    open spec fn holds_nonce(&self, nonce: Seq<char>) -> bool {
        self@.nonces.contains(nonce)
    }

    open spec fn holds_event_hash(&self, event_hash: Seq<char>) -> bool {
        self@.event_hashes.contains(event_hash)
    }

    open spec fn retains(&self) -> bool {
        self@.capacity > 0
    }

    open spec fn settled(&self) -> bool {
        true
    }

    open spec fn reliable(&self) -> bool {
        true
    }

    fn remember_nonce(&mut self, nonce: &str) -> (r: SecurityResult<()>)
        ensures
            r is Ok,
            final(self)@.nonces == crate::replay::remember_in_window(
                old(self)@.nonces,
                nonce@,
                old(self)@.capacity,
            ),
            final(self)@.event_hashes == old(self)@.event_hashes,
            final(self)@.capacity == old(self)@.capacity,
    {
        self.guard.remember_nonce(nonce);
        proof {
            crate::replay::law_remembered_entry_is_held(
                old(self)@.nonces,
                nonce@,
                old(self)@.capacity,
            );
        }
        Ok(())
    }

    fn seen_nonce(&self, nonce: &str) -> (r: SecurityResult<bool>)
        ensures
            r matches Ok(b) && b == self@.nonces.contains(nonce@),
    {
        Ok(self.guard.check_nonce(nonce).is_err())
    }

    fn remember_event_hash(&mut self, event_hash: &str) -> (r: SecurityResult<()>)
        ensures
            r is Ok,
            final(self)@.event_hashes == crate::replay::remember_in_window(
                old(self)@.event_hashes,
                event_hash@,
                old(self)@.capacity,
            ),
            final(self)@.nonces == old(self)@.nonces,
            final(self)@.capacity == old(self)@.capacity,
    {
        self.guard.remember_event_hash(event_hash);
        proof {
            crate::replay::law_remembered_entry_is_held(
                old(self)@.event_hashes,
                event_hash@,
                old(self)@.capacity,
            );
        }
        Ok(())
    }

    fn seen_event_hash(&self, event_hash: &str) -> (r: SecurityResult<bool>)
        ensures
            r matches Ok(b) && b == self@.event_hashes.contains(event_hash@),
    {
        Ok(self.guard.check_event_hash(event_hash).is_err())
    }
}

/// An event log that the application appends to a file, one JSON line per
/// event.
#[derive(Debug, Clone)]
pub struct FileEventStore {
    path: String,
}

impl FileEventStore {
    /// The log at `path`.
    pub fn new(path: &str) -> (s: Self)
        ensures
            s.path_spec() == path@,
    {
        FileEventStore { path: String::from_str(path) }
    }

    /// The path of the log.
    pub closed spec fn path_spec(&self) -> Seq<char> {
        self.path@
    }

    /// The path of the log.
    pub fn path(&self) -> (p: &str)
        ensures
            p@ == self.path_spec(),
    {
        self.path.as_str()
    }
}

/// The replay state that a file keeps: nonces and event hashes, oldest first.
#[derive(Debug, Clone)]
pub struct ReplaySnapshot {
    pub nonces: Vec<String>,
    pub event_hashes: Vec<String>,
}

impl ReplaySnapshot {
    /// An empty snapshot.
    pub fn new() -> (s: Self)
        ensures
            s.nonces@ == Seq::<String>::empty(),
            s.event_hashes@ == Seq::<String>::empty(),
    {
        ReplaySnapshot { nonces: Vec::new(), event_hashes: Vec::new() }
    }
}

impl Default for ReplaySnapshot {
    fn default() -> (s: Self)
        ensures
            s.nonces@ == Seq::<String>::empty(),
            s.event_hashes@ == Seq::<String>::empty(),
    {
        ReplaySnapshot::new()
    }
}

/// A list after `text` is appended unless already present.
pub open spec fn with_text(list: Seq<Seq<char>>, text: Seq<char>) -> Seq<Seq<char>> {
    if list.contains(text) {
        list
    } else {
        list.push(text)
    }
}

/// Replay state that the application persists to a file after each change:
/// both lists are cut to their newest `capacity` entries on every change.
#[derive(Debug)]
pub struct FileReplayStore {
    path: String,
    snapshot: ReplaySnapshot,
    capacity: usize,
}

impl View for FileReplayStore {
    type V = ReplayView;

    closed spec fn view(&self) -> ReplayView {
        ReplayView {
            nonces: texts(self.snapshot.nonces@),
            event_hashes: texts(self.snapshot.event_hashes@),
            capacity: self.capacity as nat,
        }
    }
}

/// Keeps the newest `capacity` entries of `list`.
fn keep_newest(list: &mut Vec<String>, capacity: usize)
    ensures
        texts(final(list)@) == newest(texts(old(list)@), capacity as nat),
{
    if list.len() > capacity {
        let drain = list.len() - capacity;
        let tail = list.split_off(drain);
        *list = tail;
        assert(texts(list@) =~= newest(texts(old(list)@), capacity as nat));
    }
}

/// Appends `text` to `list` unless a copy is already there.
fn add_text(list: &mut Vec<String>, text: &str)
    ensures
        texts(final(list)@) == with_text(texts(old(list)@), text@),
{
    let text = String::from_str(text);
    if !vec_holds(list, &text) {
        let ghost before = texts(list@);
        list.push(text);
        assert(texts(list@) =~= before.push(text@));
    }
}

impl FileReplayStore {
    /// The store for the file at `path`, holding `snapshot` (what the file
    /// held when it was opened), that keeps at most `capacity` entries of
    /// each kind after every change.
    pub fn with_snapshot(path: &str, snapshot: ReplaySnapshot, capacity: usize) -> (s: Self)
        ensures
            s@.nonces == texts(snapshot.nonces@),
            s@.event_hashes == texts(snapshot.event_hashes@),
            s@.capacity == capacity,
            s.path_spec() == path@,
    {
        FileReplayStore { path: String::from_str(path), snapshot, capacity }
    }

    /// The path of the file.
    pub closed spec fn path_spec(&self) -> Seq<char> {
        self.path@
    }

    /// The path of the file.
    pub fn path(&self) -> (p: &str)
        ensures
            p@ == self.path_spec(),
    {
        self.path.as_str()
    }

    /// The state to write to the file.
    pub fn snapshot(&self) -> (s: &ReplaySnapshot)
        ensures
            texts(s.nonces@) == self@.nonces,
            texts(s.event_hashes@) == self@.event_hashes,
    {
        &self.snapshot
    }

    /// Cuts both lists to their newest `capacity` entries.
    fn trim(snapshot: &mut ReplaySnapshot, capacity: usize)
        ensures
            texts(final(snapshot).nonces@) == newest(texts(old(snapshot).nonces@), capacity as nat),
            texts(final(snapshot).event_hashes@) == newest(
                texts(old(snapshot).event_hashes@),
                capacity as nat,
            ),
    {
        keep_newest(&mut snapshot.nonces, capacity);
        keep_newest(&mut snapshot.event_hashes, capacity);
    }
}

impl ReplayStore for FileReplayStore {
    open spec fn modelled(&self) -> bool {
        true
    }

    open spec fn holds_nonce(&self, nonce: Seq<char>) -> bool {
        self@.nonces.contains(nonce)
    }

    open spec fn holds_event_hash(&self, event_hash: Seq<char>) -> bool {
        self@.event_hashes.contains(event_hash)
    }

    open spec fn retains(&self) -> bool {
        self@.capacity > 0
    }

    open spec fn settled(&self) -> bool {
        self@.nonces.len() <= self@.capacity && self@.event_hashes.len() <= self@.capacity
    }

    open spec fn reliable(&self) -> bool {
        true
    }

    fn remember_nonce(&mut self, nonce: &str) -> (r: SecurityResult<()>)
        ensures
            r is Ok,
            final(self)@.nonces == newest(with_text(old(self)@.nonces, nonce@), old(self)@.capacity),
            final(self)@.event_hashes == newest(old(self)@.event_hashes, old(self)@.capacity),
            final(self)@.capacity == old(self)@.capacity,
            final(self).path_spec() == old(self).path_spec(),
    {
        add_text(&mut self.snapshot.nonces, nonce);
        Self::trim(&mut self.snapshot, self.capacity);
        proof {
            let cap = self.capacity as nat;
            let grown = with_text(old(self)@.nonces, nonce@);
            crate::replay::law_newest_is_bounded(grown, cap);
            crate::replay::law_newest_is_bounded(old(self)@.event_hashes, cap);
            crate::replay::law_newest_keeps_last(grown, cap);
            if old(self)@.nonces.len() <= cap && old(self)@.nonces.contains(nonce@) {
                crate::replay::law_newest_of_short_list(grown, cap);
            }
            if old(self)@.event_hashes.len() <= cap {
                crate::replay::law_newest_of_short_list(old(self)@.event_hashes, cap);
            }
        }
        Ok(())
    }

    fn seen_nonce(&self, nonce: &str) -> (r: SecurityResult<bool>)
        ensures
            r matches Ok(b) && b == self@.nonces.contains(nonce@),
    {
        let nonce = String::from_str(nonce);
        Ok(vec_holds(&self.snapshot.nonces, &nonce))
    }

    fn remember_event_hash(&mut self, event_hash: &str) -> (r: SecurityResult<()>)
        ensures
            r is Ok,
            final(self)@.event_hashes == newest(
                with_text(old(self)@.event_hashes, event_hash@),
                old(self)@.capacity,
            ),
            final(self)@.nonces == newest(old(self)@.nonces, old(self)@.capacity),
            final(self)@.capacity == old(self)@.capacity,
            final(self).path_spec() == old(self).path_spec(),
    {
        add_text(&mut self.snapshot.event_hashes, event_hash);
        Self::trim(&mut self.snapshot, self.capacity);
        proof {
            let cap = self.capacity as nat;
            let grown = with_text(old(self)@.event_hashes, event_hash@);
            crate::replay::law_newest_is_bounded(grown, cap);
            crate::replay::law_newest_is_bounded(old(self)@.nonces, cap);
            crate::replay::law_newest_keeps_last(grown, cap);
            if old(self)@.event_hashes.len() <= cap && old(self)@.event_hashes.contains(event_hash@) {
                crate::replay::law_newest_of_short_list(grown, cap);
            }
            if old(self)@.nonces.len() <= cap {
                crate::replay::law_newest_of_short_list(old(self)@.nonces, cap);
            }
        }
        Ok(())
    }

    fn seen_event_hash(&self, event_hash: &str) -> (r: SecurityResult<bool>)
        ensures
            r matches Ok(b) && b == self@.event_hashes.contains(event_hash@),
    {
        let event_hash = String::from_str(event_hash);
        Ok(vec_holds(&self.snapshot.event_hashes, &event_hash))
    }
}

} // verus!
