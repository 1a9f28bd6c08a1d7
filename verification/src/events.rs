//! The canonical event model: the stable, version-independent records that
//! every accepted notification is reduced to before publishing.

use vstd::prelude::*;

verus! {

/// Mathematical view of a canonical transaction event.
pub struct TxEventView {
    pub slot: u64,
    pub signature: Seq<char>,
    pub is_vote: bool,
}

/// A transaction observed at a slot, reduced to the stable output schema.
#[derive(Debug, Clone)]
pub struct CanonicalTransactionEvent {
    pub slot: u64,
    pub signature: String,
    pub is_vote: bool,
}

impl View for CanonicalTransactionEvent {
    type V = TxEventView;

    open spec fn view(&self) -> TxEventView {
        TxEventView { slot: self.slot, signature: self.signature@, is_vote: self.is_vote }
    }
}

/// Mathematical view of a canonical entry event.
pub struct EntryEventView {
    pub slot: u64,
    pub index: u64,
    pub num_hashes: u64,
    pub executed_tx_count: u64,
}

/// An entry observed at a slot, reduced to the stable output schema.
#[derive(Debug, Clone, PartialEq, Eq, Structural)]
pub struct CanonicalEntryEvent {
    pub slot: u64,
    pub index: u64,
    pub num_hashes: u64,
    pub executed_tx_count: u64,
}

impl View for CanonicalEntryEvent {
    type V = EntryEventView;

    open spec fn view(&self) -> EntryEventView {
        EntryEventView {
            slot: self.slot,
            index: self.index,
            num_hashes: self.num_hashes,
            executed_tx_count: self.executed_tx_count,
        }
    }
}

/// The noise filter: an entry event is published only when it carries at
/// least one executed transaction.
pub open spec fn spec_entry_passes(ev: EntryEventView) -> bool {
    ev.executed_tx_count > 0
}

/// Decides whether an entry event passes the noise filter.
pub fn entry_passes(ev: &CanonicalEntryEvent) -> (r: bool)
    ensures
        r == spec_entry_passes(ev@),
{
    ev.executed_tx_count > 0
}

} // verus!
