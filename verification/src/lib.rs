//! An event normalization and publishing pipeline for ledger-replication
//! notifications. Versioned transaction and entry notifications are reduced
//! to a small canonical schema, noisy entries are filtered out, and each
//! surviving event is serialized and handed to a broker topic keyed by its
//! slot, on a best-effort, never-blocking delivery discipline.

mod adapter;
mod config;
mod encode;
mod events;
mod key;
mod publisher;

pub use adapter::EntryShape;
pub use adapter::EntryShapeView;
pub use adapter::TransactionShape;
pub use adapter::TxShapeView;
pub use adapter::adapt_entry;
pub use adapter::adapt_transaction;
pub use adapter::lemma_entry_shapes_agree;
pub use adapter::lemma_tx_shapes_agree;
pub use adapter::spec_adapt_entry;
pub use adapter::spec_adapt_tx;
pub use config::default_kafka_brokers;
pub use config::resolve_brokers;
pub use config::spec_default_kafka_brokers;
pub use config::spec_resolved_brokers;
pub use encode::append_escaped;
pub use encode::append_str;
pub use encode::entry_payload;
pub use encode::spec_dec;
pub use encode::spec_entry_payload;
pub use encode::spec_escape;
pub use encode::spec_escape_char;
pub use encode::spec_tx_payload;
pub use encode::transaction_payload;
pub use encode::u64_to_dec;
pub use events::CanonicalEntryEvent;
pub use events::CanonicalTransactionEvent;
pub use events::EntryEventView;
pub use events::TxEventView;
pub use events::entry_passes;
pub use events::spec_entry_passes;
pub use key::lemma_partition_key_injective;
pub use key::partition_key;
pub use key::spec_partition_key;
pub use publisher::ConnectionError;
pub use publisher::NotifyOutcome;
pub use publisher::OutboundMessage;
pub use publisher::ProducerHandle;
pub use publisher::PublishOutcome;
pub use publisher::Publisher;
pub use publisher::entry_message;
pub use publisher::transaction_message;
