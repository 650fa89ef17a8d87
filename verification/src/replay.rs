//! Fast in-memory replay defense: a bounded window of nonces and the set of
//! event hashes already admitted.
use crate::errors::{ErrorView, SecurityError, SecurityResult};
use std::collections::VecDeque;
use vstd::prelude::*;

verus! {

/// The texts held by a sequence of strings.
pub open spec fn texts(s: Seq<String>) -> Seq<Seq<char>> {
    s.map_values(|x: String| x@)
}

/// The newest `capacity` entries of `s` (all of them if there are fewer).
pub open spec fn newest(s: Seq<Seq<char>>, capacity: nat) -> Seq<Seq<char>> {
    if s.len() > capacity {
        s.skip(s.len() - capacity)
    } else {
        s
    }
}

/// A window of nonces or of event hashes after `nonce` is remembered:
/// unchanged if the entry is already in it, otherwise the entry is appended
/// as the newest one and the oldest entries beyond `capacity` are evicted.
pub open spec fn remember_in_window(window: Seq<Seq<char>>, nonce: Seq<char>, capacity: nat) -> Seq<Seq<char>> {
    if window.contains(nonce) {
        window
    } else {
        newest(window.push(nonce), capacity)
    }
}

/// Whether `t` occurs in `q`, by text.
pub fn deque_holds(q: &VecDeque<String>, t: &String) -> (b: bool)
    ensures
        b == texts(q@).contains(t@),
{
    let n = q.len();
    let mut i: usize = 0;
    while i < n
        invariant
            n == q@.len(),
            i <= n,
            forall|j: int| 0 <= j < i ==> q@[j]@ != t@,
        decreases n - i,
    {
        if q[i] == *t {
            assert(texts(q@)[i as int] == t@);
            return true;
        }
        i = i + 1;
    }
    proof {
        if texts(q@).contains(t@) {
            let j = choose|j: int| 0 <= j < texts(q@).len() && texts(q@)[j] == t@;
            assert(q@[j]@ == t@);
        }
    }
    false
}

/// Whether `t` occurs in `v`, by text.
pub fn vec_holds(v: &Vec<String>, t: &String) -> (b: bool)
    ensures
        b == texts(v@).contains(t@),
{
    let n = v.len();
    let mut i: usize = 0;
    while i < n
        invariant
            n == v@.len(),
            i <= n,
            forall|j: int| 0 <= j < i ==> v@[j]@ != t@,
        decreases n - i,
    {
        if v[i] == *t {
            assert(texts(v@)[i as int] == t@);
            return true;
        }
        i = i + 1;
    }
    proof {
        if texts(v@).contains(t@) {
            let j = choose|j: int| 0 <= j < texts(v@).len() && texts(v@)[j] == t@;
            assert(v@[j]@ == t@);
        }
    }
    false
}

/// The nonces and event hashes that a replay guard has seen.
pub struct ReplayView {
    /// Remembered nonces, oldest first.
    pub nonces: Seq<Seq<char>>,
    /// Remembered event hashes, oldest first.
    pub event_hashes: Seq<Seq<char>>,
    /// The most entries of each kind that are kept.
    pub capacity: nat,
}

impl ReplayView {
    /// Neither window holds an entry twice or more than `capacity` entries.
    pub open spec fn bounded_without_repeats(self) -> bool {
        &&& self.nonces.no_duplicates()
        &&& self.event_hashes.no_duplicates()
        &&& self.nonces.len() <= self.capacity
        &&& self.event_hashes.len() <= self.capacity
    }
}

/// The default number of entries a replay window keeps.
pub const DEFAULT_REPLAY_CAPACITY: usize = 50_000;

/// Remembers recent nonces and recent admitted event hashes, each in a
/// bounded window (oldest evicted first), and reports replays of either.
#[derive(Debug)]
pub struct ReplayGuard {
    seen_nonces: VecDeque<String>,
    seen_event_hashes: Vec<String>,
    capacity: usize,
}

impl View for ReplayGuard {
    type V = ReplayView;

    closed spec fn view(&self) -> ReplayView {
        ReplayView {
            nonces: texts(self.seen_nonces@),
            event_hashes: texts(self.seen_event_hashes@),
            capacity: self.capacity as nat,
        }
    }
}

/// Keeps the newest `capacity` entries of a list without repeats.
fn keep_newest_texts(list: &mut Vec<String>, capacity: usize)
    requires
        texts(old(list)@).no_duplicates(),
    ensures
        texts(final(list)@) == newest(texts(old(list)@), capacity as nat),
        texts(final(list)@).no_duplicates(),
        final(list)@.len() <= capacity,
{
    let ghost all = texts(list@);
    if list.len() > capacity {
        let drain = list.len() - capacity;
        let tail = list.split_off(drain);
        *list = tail;
        assert(texts(list@) =~= newest(all, capacity as nat));
    }
    proof {
        let w = texts(list@);
        let k = all.len() - w.len();
        assert(w =~= all.skip(k));
        assert forall|i: int, j: int| 0 <= i < w.len() && 0 <= j < w.len() && i != j implies w[i]
            != w[j] by {
            assert(w[i] == all[i + k]);
            assert(w[j] == all[j + k]);
        }
    }
}

impl Clone for ReplayGuard {
    /// A guard that has seen the same nonces and event hashes.
    fn clone(&self) -> (g: Self)
        ensures
            g@ == self@,
    {
        proof {
            use_type_invariant(self);
        }
        let mut nonces: VecDeque<String> = VecDeque::new();
        let n = self.seen_nonces.len();
        let mut i: usize = 0;
        while i < n
            invariant
                n == self.seen_nonces@.len(),
                i <= n,
                nonces@ == self.seen_nonces@.take(i as int),
            decreases n - i,
        {
            nonces.push_back(self.seen_nonces[i].clone());
            i = i + 1;
            assert(nonces@ =~= self.seen_nonces@.take(i as int));
        }
        assert(self.seen_nonces@.take(n as int) =~= self.seen_nonces@);
        let mut hashes: Vec<String> = Vec::new();
        let m = self.seen_event_hashes.len();
        let mut j: usize = 0;
        while j < m
            invariant
                m == self.seen_event_hashes@.len(),
                j <= m,
                hashes@ == self.seen_event_hashes@.take(j as int),
            decreases m - j,
        {
            hashes.push(self.seen_event_hashes[j].clone());
            j = j + 1;
            assert(hashes@ =~= self.seen_event_hashes@.take(j as int));
        }
        assert(self.seen_event_hashes@.take(m as int) =~= self.seen_event_hashes@);
        ReplayGuard { seen_nonces: nonces, seen_event_hashes: hashes, capacity: self.capacity }
    }
}

impl ReplayGuard {
    #[verifier::type_invariant]
    spec fn well_formed(&self) -> bool {
        &&& texts(self.seen_nonces@).no_duplicates()
        &&& texts(self.seen_event_hashes@).no_duplicates()
        &&& self.seen_nonces@.len() <= self.capacity
        &&& self.seen_event_hashes@.len() <= self.capacity
    }

    /// A guard with nothing seen that keeps the default number of nonces.
    pub fn new() -> (g: Self)
        ensures
            g@.nonces == Seq::<Seq<char>>::empty(),
            g@.event_hashes == Seq::<Seq<char>>::empty(),
            g@.capacity == DEFAULT_REPLAY_CAPACITY,
            g@.bounded_without_repeats(),
    {
        Self::with_capacity(DEFAULT_REPLAY_CAPACITY)
    }

    /// A guard with nothing seen that keeps at most `capacity` nonces.
    pub fn with_capacity(capacity: usize) -> (g: Self)
        ensures
            g@.nonces == Seq::<Seq<char>>::empty(),
            g@.event_hashes == Seq::<Seq<char>>::empty(),
            g@.capacity == capacity,
            g@.bounded_without_repeats(),
    {
        let g = ReplayGuard {
            seen_nonces: VecDeque::new(),
            seen_event_hashes: Vec::new(),
            capacity,
        };
        assert(texts(g.seen_nonces@) =~= Seq::<Seq<char>>::empty());
        assert(texts(g.seen_event_hashes@) =~= Seq::<Seq<char>>::empty());
        g
    }

    /// Fails with `ReplayDetected` exactly when `nonce` is in the window.
    pub fn check_nonce(&self, nonce: &str) -> (r: SecurityResult<()>)
        ensures
            r is Ok <==> !self@.nonces.contains(nonce@),
            r matches Err(e) ==> e@ == ErrorView::ReplayDetected,
            self@.bounded_without_repeats(),
    {
        proof {
            use_type_invariant(self);
        }
        let nonce = String::from_str(nonce);
        if deque_holds(&self.seen_nonces, &nonce) {
            Err(SecurityError::ReplayDetected)
        } else {
            Ok(())
        }
    }

    /// Remembers `nonce` as the newest entry of the window, unless it is
    /// already there, and evicts the oldest entries beyond the capacity.
    pub fn remember_nonce(&mut self, nonce: &str)
        ensures
            final(self)@.nonces == remember_in_window(old(self)@.nonces, nonce@, old(self)@.capacity),
            final(self)@.event_hashes == old(self)@.event_hashes,
            final(self)@.capacity == old(self)@.capacity,
            final(self)@.bounded_without_repeats(),
    {
        proof {
            use_type_invariant(&*self);
        }
        let nonce = String::from_str(nonce);
        if !deque_holds(&self.seen_nonces, &nonce) {
            let ghost before = texts(self.seen_nonces@);
            let mut window: VecDeque<String> = VecDeque::new();
            std::mem::swap(&mut window, &mut self.seen_nonces);
            window.push_back(nonce);
            proof {
                assert(texts(window@) =~= before.push(nonce@));
            }
            Self::enforce_capacity(&mut window, self.capacity);
            self.seen_nonces = window;
        }
        proof {
            use_type_invariant(&*self);
        }
    }

    /// Evicts the oldest nonces while there are more than `capacity`.
    fn enforce_capacity(window: &mut VecDeque<String>, capacity: usize)
        requires
            texts(old(window)@).no_duplicates(),
        ensures
            texts(final(window)@) == newest(texts(old(window)@), capacity as nat),
            texts(final(window)@).no_duplicates(),
            final(window)@.len() <= capacity,
    {
        let ghost all = texts(window@);
        while window.len() > capacity
            invariant
                window@.len() <= all.len(),
                texts(window@) == all.skip(all.len() - window@.len()),
                window@.len() >= capacity || window@.len() == all.len(),
                all.no_duplicates(),
            decreases window@.len(),
        {
            let ghost prev = window@;
            let _ = window.pop_front();
            assert forall|i: int| 0 <= i < window@.len() implies #[trigger] texts(window@)[i] == all.skip(
                all.len() - window@.len(),
            )[i] by {
                assert(window@[i] == prev[i + 1]);
                assert(texts(prev)[i + 1] == all.skip(all.len() - prev.len())[i + 1]);
            }
            assert(texts(window@) =~= all.skip(all.len() - window@.len()));
        }
        proof {
            if all.len() <= capacity {
                assert(all.skip(0) =~= all);
            }
            let w = texts(window@);
            assert forall|i: int, j: int| 0 <= i < w.len() && 0 <= j < w.len() && i != j implies w[i]
                != w[j] by {
                let k = all.len() - window@.len();
                assert(w[i] == all[i + k]);
                assert(w[j] == all[j + k]);
            }
        }
    }

    /// Remembers an admitted event hash as the newest entry of its window,
    /// unless it is already there, and evicts the oldest entries beyond the
    /// capacity.
    pub fn remember_event_hash(&mut self, event_hash: &str)
        ensures
            final(self)@.event_hashes == remember_in_window(
                old(self)@.event_hashes,
                event_hash@,
                old(self)@.capacity,
            ),
            final(self)@.nonces == old(self)@.nonces,
            final(self)@.capacity == old(self)@.capacity,
            final(self)@.bounded_without_repeats(),
    {
        proof {
            use_type_invariant(&*self);
        }
        let event_hash = String::from_str(event_hash);
        if !vec_holds(&self.seen_event_hashes, &event_hash) {
            let ghost before = texts(self.seen_event_hashes@);
            let mut list: Vec<String> = Vec::new();
            std::mem::swap(&mut list, &mut self.seen_event_hashes);
            list.push(event_hash);
            proof {
                assert(texts(list@) =~= before.push(event_hash@));
            }
            keep_newest_texts(&mut list, self.capacity);
            self.seen_event_hashes = list;
        }
        proof {
            use_type_invariant(&*self);
        }
    }

    /// Fails with `ReplayDetected` exactly when `event_hash` was admitted.
    pub fn check_event_hash(&self, event_hash: &str) -> (r: SecurityResult<()>)
        ensures
            r is Ok <==> !self@.event_hashes.contains(event_hash@),
            r matches Err(e) ==> e@ == ErrorView::ReplayDetected,
            self@.bounded_without_repeats(),
    {
        proof {
            use_type_invariant(self);
        }
        let event_hash = String::from_str(event_hash);
        if vec_holds(&self.seen_event_hashes, &event_hash) {
            Err(SecurityError::ReplayDetected)
        } else {
            Ok(())
        }
    }

    /// The number of nonces in the window, which are all different.
    pub fn seen_count(&self) -> (n: usize)
        ensures
            n == self@.nonces.len(),
            n == self@.nonces.to_set().len(),
            n <= self@.capacity,
            self@.bounded_without_repeats(),
    {
        proof {
            use_type_invariant(self);
            self@.nonces.unique_seq_to_set();
        }
        self.seen_nonces.len()
    }
}

impl Default for ReplayGuard {
    fn default() -> (g: Self)
        ensures
            g@.nonces == Seq::<Seq<char>>::empty(),
            g@.event_hashes == Seq::<Seq<char>>::empty(),
            g@.capacity == DEFAULT_REPLAY_CAPACITY,
    {
        Self::new()
    }
}

/// Keeping the newest entries never leaves more than `capacity` of them.
pub proof fn law_newest_is_bounded(s: Seq<Seq<char>>, capacity: nat)
    ensures
        newest(s, capacity).len() <= capacity || newest(s, capacity) == s,
        newest(s, capacity).len() <= s.len(),
{
}

/// A list no longer than the capacity is kept whole.
pub proof fn law_newest_of_short_list(s: Seq<Seq<char>>, capacity: nat)
    requires
        s.len() <= capacity,
    ensures
        newest(s, capacity) == s,
{
}

/// With a positive capacity, the newest entry is always kept.
pub proof fn law_newest_keeps_last(s: Seq<Seq<char>>, capacity: nat)
    ensures
        capacity > 0 && s.len() > 0 ==> newest(s, capacity).contains(s.last()),
{
    if capacity > 0 && s.len() > 0 {
        let kept = newest(s, capacity);
        assert(kept[kept.len() - 1] == s.last());
    }
}

/// An entry that has just been remembered is detected as a replay, as long
/// as the window can hold at least one entry.
pub proof fn law_remembered_entry_is_held(window: Seq<Seq<char>>, entry: Seq<char>, capacity: nat)
    ensures
        capacity > 0 ==> remember_in_window(window, entry, capacity).contains(entry),
{
    if !window.contains(entry) {
        law_newest_keeps_last(window.push(entry), capacity);
    }
}

/// Remembering a nonce twice is the same as remembering it once.
pub proof fn law_remember_nonce_idempotent(window: Seq<Seq<char>>, nonce: Seq<char>, capacity: nat)
    requires
        capacity > 0,
    ensures
        remember_in_window(remember_in_window(window, nonce, capacity), nonce, capacity)
            == remember_in_window(window, nonce, capacity),
{
    law_remembered_entry_is_held(window, nonce, capacity);
}

/// A window holds at most `capacity` entries after each remembering.
pub proof fn law_window_is_bounded(window: Seq<Seq<char>>, nonce: Seq<char>, capacity: nat)
    requires
        window.len() <= capacity,
    ensures
        remember_in_window(window, nonce, capacity).len() <= capacity,
{
}

/// A fresh nonce enters a window as its newest entry; only when the window
/// is full is its oldest entry evicted, and nothing else is.
pub proof fn law_window_evicts_oldest_first(window: Seq<Seq<char>>, nonce: Seq<char>, capacity: nat)
    requires
        window.len() <= capacity,
        capacity > 0,
        !window.contains(nonce),
    ensures
        window.len() < capacity ==> remember_in_window(window, nonce, capacity) == window.push(nonce),
        window.len() == capacity ==> remember_in_window(window, nonce, capacity)
            == window.drop_first().push(nonce),
{
    if window.len() == capacity {
        assert(window.push(nonce).skip(1) =~= window.drop_first().push(nonce));
    }
}

} // verus!
