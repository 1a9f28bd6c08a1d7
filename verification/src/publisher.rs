//! The publisher: owner of the broker producer handle for the plugin's
//! loaded lifetime, and the delivery discipline around it.
//!
//! Delivery is best-effort and at-most-once. A record is enqueued on the
//! producer's local queue without blocking; a zero-duration poll afterwards
//! services already-completed delivery callbacks and waits for nothing. A
//! rejected enqueue drops the event; nothing is retried and no failure is
//! surfaced to the notification caller. Only producer creation is fatal:
//! without a producer nothing can ever be forwarded.

use vstd::prelude::*;
use rdkafka::producer::BaseProducer;
use rdkafka::producer::Producer;
use crate::adapter::EntryShape;
use crate::adapter::TransactionShape;
use crate::adapter::adapt_entry;
use crate::adapter::adapt_transaction;
use crate::adapter::spec_adapt_entry;
use crate::adapter::spec_adapt_tx;
use crate::config::resolve_brokers;
use crate::encode::entry_payload;
use crate::encode::spec_entry_payload;
use crate::encode::spec_tx_payload;
use crate::encode::transaction_payload;
use crate::events::CanonicalEntryEvent;
use crate::events::CanonicalTransactionEvent;
use crate::events::entry_passes;
use crate::events::spec_entry_passes;
use crate::key::partition_key;
use crate::key::spec_partition_key;

verus! {

/// The broker producer handle. Its inside is opaque to verification: the
/// wrappers below are the only doors to it.
#[verifier::external_body]
pub struct ProducerHandle {
    producer: BaseProducer,
}

/// Relies on rdkafka's ClientConfig::create: builds a producer for the given
/// bootstrap servers and per-message delivery timeout; on failure yields the
/// text of the creation error.
#[verifier::external_body]
fn create_producer(brokers: &str, timeout_ms: &str) -> (r: Result<ProducerHandle, String>) {
    let made: Result<BaseProducer, rdkafka::error::KafkaError> = rdkafka::ClientConfig::new()
        .set("bootstrap.servers", brokers)
        .set("message.timeout.ms", timeout_ms)
        .create();
    match made {
        Ok(p) => Ok(ProducerHandle { producer: p }),
        Err(e) => Err(format!("{e}")),
    }
}

/// Relies on rdkafka's BaseProducer::send: enqueues a keyed record on the
/// producer's local queue without blocking, and reports whether the enqueue
/// was accepted. Acceptance depends on the queue's state, so nothing is
/// promised of the outcome.
#[verifier::external_body]
fn producer_enqueue(p: &ProducerHandle, topic: &str, key: &Vec<u8>, payload: &String) -> (accepted:
    bool) {
    let record = rdkafka::producer::BaseRecord::to(topic).key(key.as_slice()).payload(
        payload.as_str(),
    );
    p.producer.send(record).is_ok()
}

/// Relies on rdkafka's Producer::flush with a zero timeout: polls the
/// producer's event loop for already-completed deliveries without waiting.
#[verifier::external_body]
fn producer_poll_now(p: &ProducerHandle) {
    let _ = p.producer.flush(std::time::Duration::from_millis(0));
}

/// Relies on String's FromIterator over characters: collecting yields the
/// same characters in the same order.
#[verifier::external_body]
fn chars_to_string(v: &Vec<char>) -> (r: String)
    ensures
        r@ == v@,
{
    v.iter().collect()
}

/// The fatal error of plugin load: the broker producer could not be created.
#[derive(Debug)]
pub struct ConnectionError {
    pub message: String,
}

/// What became of one publish attempt. `NotConnected` records the defensive
/// no-op of publishing without a producer; `Rejected` records an enqueue the
/// local queue refused, which drops the event.
#[derive(Debug, PartialEq, Eq, Structural)]
pub enum PublishOutcome {
    NotConnected,
    Enqueued,
    Rejected,
}

/// What became of one incoming notification.
#[derive(Debug, PartialEq, Eq, Structural)]
pub enum NotifyOutcome {
    Unsupported,
    Filtered,
    Attempted(PublishOutcome),
}

/// A message bound for the broker: the slot-derived partition key and the
/// JSON payload.
pub struct OutboundMessage {
    pub key: Vec<u8>,
    pub payload: Vec<char>,
}

/// Builds the outbound message for a canonical transaction event.
pub fn transaction_message(ev: &CanonicalTransactionEvent) -> (m: OutboundMessage)
    ensures
        m.key@ == spec_partition_key(ev.slot),
        m.payload@ == spec_tx_payload(ev.slot, ev.signature@, ev.is_vote),
{
    OutboundMessage { key: partition_key(ev.slot), payload: transaction_payload(ev) }
}

/// Builds the outbound message for a canonical entry event.
pub fn entry_message(ev: &CanonicalEntryEvent) -> (m: OutboundMessage)
    ensures
        m.key@ == spec_partition_key(ev.slot),
        m.payload@ == spec_entry_payload(ev.slot, ev.index, ev.num_hashes, ev.executed_tx_count),
{
    OutboundMessage { key: partition_key(ev.slot), payload: entry_payload(ev) }
}

/// The owner of the broker producer handle and the destination topic.
///
/// The producer exists from a successful `initialize` to `shutdown`; while
/// it is absent, publishing is a defensive no-op. Messages still queued at
/// shutdown are lost, by design. Publishing takes `&self` and adds no lock
/// of its own: the underlying producer is safe for concurrent enqueues, and
/// nothing here ever waits on the network.
pub struct Publisher {
    producer: Option<ProducerHandle>,
    topic: String,
}

impl Publisher {
    /// Whether the publisher holds a live producer.
    pub closed spec fn connected(self) -> bool {
        self.producer is Some
    }

    /// The destination topic every message goes to.
    pub closed spec fn spec_topic(self) -> Seq<char> {
        self.topic@
    }

    /// A publisher that is not yet connected to any broker.
    pub fn new(topic: String) -> (r: Publisher)
        ensures
            !r.connected(),
            r.spec_topic() == topic@,
    {
        Publisher { producer: None, topic }
    }

    /// Creates the broker producer for the given address. Failure leaves the
    /// publisher exactly as it was and is surfaced to the caller: load must
    /// not proceed without a producer.
    pub fn initialize(&mut self, brokers: &str) -> (r: Result<(), ConnectionError>)
        ensures
            r is Ok ==> final(self).connected(),
            r is Err ==> *final(self) == *old(self),
            final(self).spec_topic() == old(self).spec_topic(),
    {
        match create_producer(brokers, "5000") {
            Ok(p) => {
                self.producer = Some(p);
                Ok(())
            },
            Err(message) => Err(ConnectionError { message }),
        }
    }

    /// Finishes a load from whatever producer creation yielded: a connected
    /// publisher on success, the creation error's text on failure.
    pub fn from_creation(topic: String, made: Result<ProducerHandle, String>) -> (r: Result<
        Publisher,
        ConnectionError,
    >)
        ensures
            r is Ok <==> made is Ok,
            r matches Ok(p) ==> p.connected() && p.spec_topic() == topic@,
            made matches Err(m) ==> (r matches Err(e) && e.message@ == m@),
    {
        match made {
            Ok(producer) => Ok(Publisher { producer: Some(producer), topic }),
            Err(message) => Err(ConnectionError { message }),
        }
    }

    /// The load-time path: resolve the broker address (configured or
    /// default), create the producer, and hand back either a connected
    /// publisher or the fatal connection error.
    pub fn load(topic: String, configured: Option<String>) -> (r: Result<Publisher, ConnectionError>)
        ensures
            r matches Ok(p) ==> p.connected() && p.spec_topic() == topic@,
    {
        let brokers = resolve_brokers(configured);
        let made = create_producer(brokers.as_str(), "5000");
        Publisher::from_creation(topic, made)
    }

    /// Serializes a canonical transaction event and enqueues it, keyed by
    /// its slot. A no-op without a producer; an enqueue rejection drops the
    /// event.
    pub fn publish_transaction(&self, ev: &CanonicalTransactionEvent) -> (r: PublishOutcome)
        ensures
            (r is NotConnected) <==> !self.connected(),
    {
        match &self.producer {
            None => PublishOutcome::NotConnected,
            Some(p) => {
                let m = transaction_message(ev);
                let payload = chars_to_string(&m.payload);
                let accepted = producer_enqueue(p, self.topic.as_str(), &m.key, &payload);
                producer_poll_now(p);
                if accepted {
                    PublishOutcome::Enqueued
                } else {
                    PublishOutcome::Rejected
                }
            },
        }
    }

    /// Serializes a canonical entry event and enqueues it, keyed by its
    /// slot. A no-op without a producer; an enqueue rejection drops the
    /// event.
    pub fn publish_entry(&self, ev: &CanonicalEntryEvent) -> (r: PublishOutcome)
        ensures
            (r is NotConnected) <==> !self.connected(),
    {
        match &self.producer {
            None => PublishOutcome::NotConnected,
            Some(p) => {
                let m = entry_message(ev);
                let payload = chars_to_string(&m.payload);
                let accepted = producer_enqueue(p, self.topic.as_str(), &m.key, &payload);
                producer_poll_now(p);
                if accepted {
                    PublishOutcome::Enqueued
                } else {
                    PublishOutcome::Rejected
                }
            },
        }
    }

    /// Handles one versioned transaction notification: normalize, then
    /// publish. An unrecognized shape is dropped without any publish attempt
    /// and without an error; transactions are never filtered.
    pub fn handle_transaction(&self, shape: &TransactionShape, slot: u64) -> (r: NotifyOutcome)
        ensures
            (spec_adapt_tx(shape@, slot) is None) <==> r is Unsupported,
            !(r is Filtered),
            (spec_adapt_tx(shape@, slot) is Some) <==> r matches NotifyOutcome::Attempted(_),
            r matches NotifyOutcome::Attempted(o) ==> ((o is NotConnected) <==> !self.connected()),
    {
        match adapt_transaction(shape, slot) {
            Some(ev) => NotifyOutcome::Attempted(self.publish_transaction(&ev)),
            None => NotifyOutcome::Unsupported,
        }
    }

    /// Handles one versioned entry notification: normalize, filter, then
    /// publish. An unrecognized shape is dropped without any publish attempt
    /// and without an error; an entry with no executed transactions is
    /// dropped silently; exactly the remaining entries reach one publish
    /// attempt each.
    pub fn handle_entry(&self, shape: &EntryShape) -> (r: NotifyOutcome)
        ensures
            (spec_adapt_entry(shape@) is None) <==> r is Unsupported,
            (match spec_adapt_entry(shape@) {
                Some(ev) => !spec_entry_passes(ev),
                None => false,
            }) <==> r is Filtered,
            (match spec_adapt_entry(shape@) {
                Some(ev) => spec_entry_passes(ev),
                None => false,
            }) <==> r matches NotifyOutcome::Attempted(_),
            r matches NotifyOutcome::Attempted(o) ==> ((o is NotConnected) <==> !self.connected()),
    {
        match adapt_entry(shape) {
            Some(ev) => {
                if entry_passes(&ev) {
                    NotifyOutcome::Attempted(self.publish_entry(&ev))
                } else {
                    NotifyOutcome::Filtered
                }
            },
            None => NotifyOutcome::Unsupported,
        }
    }

    /// Releases the producer handle. Anything not yet transmitted is lost;
    /// that trade-off is accepted.
    pub fn shutdown(&mut self)
        ensures
            !final(self).connected(),
            final(self).spec_topic() == old(self).spec_topic(),
    {
        self.producer = None;
    }
}

} // verus!
