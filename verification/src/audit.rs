//! Append-only audit trail of accepted events.
use crate::crypto::{hash_bytes, hex_digest};
use crate::storage::same_records;
use crate::types::SecurityEvent;
use vstd::prelude::*;
use vstd::utf8::encode_utf8;

verus! {

/// A sink that receives every accepted event, in order.
///
/// The sinks of this library are modelled: they behave as `entries`
/// describes. A sink implemented elsewhere keeps the defaults and promises
/// nothing.
pub trait AuditSink {
    /// Whether the sink behaves as `entries` describes.
    open spec fn modelled(&self) -> bool {
        false
    }

    /// The events received so far, oldest first.
    open spec fn entries(&self) -> Seq<SecurityEvent> {
        Seq::empty()
    }

    /// Receives `event` after those already received.
    fn append(&mut self, event: SecurityEvent)
        ensures
            final(self).modelled() == old(self).modelled(),
            old(self).modelled() ==> final(self).entries() == old(self).entries().push(event),
    ;

    /// Copies of the events received, oldest first.
    fn list(&self) -> (events: Vec<SecurityEvent>)
        ensures
            self.modelled() ==> same_records(events@, self.entries()),
    ;

    /// The number of events received.
    fn len(&self) -> (n: usize)
        ensures
            self.modelled() ==> n == self.entries().len(),
    ;
}

/// The domain label that starts the audit chain.
pub open spec fn audit_chain_label() -> Seq<char> {
    "vector-security-audit-v1"@
}

/// The event hashes in order, each followed by a zero byte.
pub open spec fn chain_links(events: Seq<SecurityEvent>) -> Seq<u8>
    decreases events.len(),
{
    if events.len() == 0 {
        seq![]
    } else {
        chain_links(events.drop_last()) + encode_utf8(events.last().event_hash@) + seq![0u8]
    }
}

/// The bytes that the chain head digests: the label, then every event hash
/// followed by a zero byte.
pub open spec fn chain_input(events: Seq<SecurityEvent>) -> Seq<u8> {
    encode_utf8(audit_chain_label()) + chain_links(events)
}

/// An in-memory audit log.
#[derive(Debug)]
pub struct AuditLog {
    events: Vec<SecurityEvent>,
}

impl View for AuditLog {
    type V = Seq<SecurityEvent>;

    closed spec fn view(&self) -> Seq<SecurityEvent> {
        self.events@
    }
}

impl AuditLog {
    /// An empty log.
    pub fn new() -> (log: Self)
        ensures
            log@ == Seq::<SecurityEvent>::empty(),
    {
        AuditLog { events: Vec::new() }
    }

    /// Whether no event was received.
    pub fn is_empty(&self) -> (b: bool)
        ensures
            b == (self@.len() == 0),
    {
        self.len() == 0
    }

    /// A copy of the newest event, if any.
    pub fn latest(&self) -> (r: Option<SecurityEvent>)
        ensures
            self@.len() == 0 ==> r is None,
            self@.len() > 0 ==> (r matches Some(e) && e.same_record(self@.last())),
    {
        let n = self.events.len();
        if n == 0 {
            None
        } else {
            Some(self.events[n - 1].clone())
        }
    }

    /// A digest over the event hashes of the log, in order, for checkpoints
    /// and for comparing logs across nodes: the lowercase hexadecimal BLAKE3
    /// digest of `chain_input`.
    pub fn chain_head(&self) -> (h: String)
        ensures
            h@ == hex_digest(chain_input(self@)),
    {
        let mut input: Vec<u8> = Vec::new();
        input.extend_from_slice("vector-security-audit-v1".as_bytes());
        let ghost start = input@;
        assert(start =~= encode_utf8(audit_chain_label()));
        let n = self.events.len();
        let mut i: usize = 0;
        while i < n
            invariant
                n == self.events@.len(),
                i <= n,
                start == encode_utf8(audit_chain_label()),
                input@ == start + chain_links(self.events@.take(i as int)),
            decreases n - i,
        {
            input.extend_from_slice(self.events[i].event_hash.as_str().as_bytes());
            input.push(0u8);
            assert(self.events@.take(i + 1).drop_last() =~= self.events@.take(i as int));
            i = i + 1;
            assert(input@ =~= start + chain_links(self.events@.take(i as int)));
        }
        assert(self.events@.take(n as int) =~= self.events@);
        hash_bytes(input.as_slice())
    }
}

impl Default for AuditLog {
    fn default() -> (log: Self)
        ensures
            log@ == Seq::<SecurityEvent>::empty(),
    {
        AuditLog::new()
    }
}

impl AuditSink for AuditLog {
    open spec fn modelled(&self) -> bool {
        true
    }

    open spec fn entries(&self) -> Seq<SecurityEvent> {
        self@
    }

    fn append(&mut self, event: SecurityEvent)
        ensures
            final(self)@ == old(self)@.push(event),
    {
        self.events.push(event);
    }

    fn list(&self) -> (events: Vec<SecurityEvent>)
        ensures
            same_records(events@, self@),
    {
        let mut out: Vec<SecurityEvent> = Vec::new();
        let n = self.events.len();
        let mut i: usize = 0;
        while i < n
            invariant
                n == self.events@.len(),
                i <= n,
                out@.len() == i,
                forall|j: int| 0 <= j < i ==> (#[trigger] out@[j]).same_record(self.events@[j]),
            decreases n - i,
        {
            out.push(self.events[i].clone());
            i = i + 1;
        }
        out
    }

    fn len(&self) -> (n: usize)
        ensures
            n == self@.len(),
    {
        self.events.len()
    }
}

} // verus!
