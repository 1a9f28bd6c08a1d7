//! The version adapter: classifies each known shape of an incoming
//! transaction or entry notification and reduces it to a canonical event.
//!
//! The host evolves its notification shapes over time, so the input is a
//! tagged union with an explicit catch-all: every known tag maps to a
//! canonical event, an unrecognized tag is dropped without error. Adding a
//! new shape means adding a match arm; the catch-all keeps an upgraded host
//! from crashing an older build of this library.

use vstd::prelude::*;
use crate::events::CanonicalEntryEvent;
use crate::events::CanonicalTransactionEvent;
use crate::events::EntryEventView;
use crate::events::TxEventView;

verus! {

/// Mathematical view of a versioned transaction notification.
pub enum TxShapeView {
    V001 { signature: Seq<char>, is_vote: bool },
    V002 { signature: Seq<char>, is_vote: bool, index: u64 },
    V003 { signature: Seq<char>, is_vote: bool, index: u64 },
    Unrecognized,
}

/// A versioned transaction notification as the host delivers it, holding the
/// fields this pipeline reads. Later shapes add an in-block index; the
/// catch-all stands for any shape this build does not know.
#[derive(Debug, Clone)]
pub enum TransactionShape {
    V001 { signature: String, is_vote: bool },
    V002 { signature: String, is_vote: bool, index: u64 },
    V003 { signature: String, is_vote: bool, index: u64 },
    Unrecognized,
}

impl View for TransactionShape {
    type V = TxShapeView;

    open spec fn view(&self) -> TxShapeView {
        match self {
            TransactionShape::V001 { signature, is_vote } => (TxShapeView::V001 {
                signature: signature@,
                is_vote: *is_vote,
            }),
            TransactionShape::V002 { signature, is_vote, index } => (TxShapeView::V002 {
                signature: signature@,
                is_vote: *is_vote,
                index: *index,
            }),
            TransactionShape::V003 { signature, is_vote, index } => (TxShapeView::V003 {
                signature: signature@,
                is_vote: *is_vote,
                index: *index,
            }),
            TransactionShape::Unrecognized => TxShapeView::Unrecognized,
        }
    }
}

/// Mathematical view of a versioned entry notification.
pub enum EntryShapeView {
    V001 { slot: u64, index: u64, num_hashes: u64, executed_tx_count: u64 },
    V002 {
        slot: u64,
        index: u64,
        num_hashes: u64,
        executed_tx_count: u64,
        starting_tx_index: u64,
    },
    Unrecognized,
}

/// A versioned entry notification as the host delivers it, holding the
/// fields this pipeline reads.
#[derive(Debug, Clone)]
pub enum EntryShape {
    V001 { slot: u64, index: u64, num_hashes: u64, executed_tx_count: u64 },
    V002 {
        slot: u64,
        index: u64,
        num_hashes: u64,
        executed_tx_count: u64,
        starting_tx_index: u64,
    },
    Unrecognized,
}

impl View for EntryShape {
    type V = EntryShapeView;

    open spec fn view(&self) -> EntryShapeView {
        match self {
            EntryShape::V001 { slot, index, num_hashes, executed_tx_count } => (EntryShapeView::V001 {
                slot: *slot,
                index: *index,
                num_hashes: *num_hashes,
                executed_tx_count: *executed_tx_count,
            }),
            EntryShape::V002 {
                slot,
                index,
                num_hashes,
                executed_tx_count,
                starting_tx_index,
            } => (EntryShapeView::V002 {
                slot: *slot,
                index: *index,
                num_hashes: *num_hashes,
                executed_tx_count: *executed_tx_count,
                starting_tx_index: *starting_tx_index,
            }),
            EntryShape::Unrecognized => EntryShapeView::Unrecognized,
        }
    }
}

/// What the adapter makes of a transaction notification: a canonical event
/// for every known shape, nothing for an unrecognized one.
pub open spec fn spec_adapt_tx(shape: TxShapeView, slot: u64) -> Option<TxEventView> {
    match shape {
        TxShapeView::V001 { signature, is_vote } => Some(
            TxEventView { slot, signature, is_vote },
        ),
        TxShapeView::V002 { signature, is_vote, index } => Some(
            TxEventView { slot, signature, is_vote },
        ),
        TxShapeView::V003 { signature, is_vote, index } => Some(
            TxEventView { slot, signature, is_vote },
        ),
        TxShapeView::Unrecognized => None,
    }
}

/// What the adapter makes of an entry notification.
pub open spec fn spec_adapt_entry(shape: EntryShapeView) -> Option<EntryEventView> {
    match shape {
        EntryShapeView::V001 { slot, index, num_hashes, executed_tx_count } => Some(
            EntryEventView { slot, index, num_hashes, executed_tx_count },
        ),
        EntryShapeView::V002 { slot, index, num_hashes, executed_tx_count, starting_tx_index } => Some(
            EntryEventView { slot, index, num_hashes, executed_tx_count },
        ),
        EntryShapeView::Unrecognized => None,
    }
}

/// Reduces a versioned transaction notification to the canonical event, or
/// to nothing when the shape is not a known one.
pub fn adapt_transaction(shape: &TransactionShape, slot: u64) -> (r: Option<
    CanonicalTransactionEvent,
>)
    ensures
        r is Some <==> spec_adapt_tx(shape@, slot) is Some,
        r matches Some(ev) ==> spec_adapt_tx(shape@, slot) == Some(ev@),
{
    match shape {
        TransactionShape::V001 { signature, is_vote } => Some(
            CanonicalTransactionEvent { slot, signature: signature.clone(), is_vote: *is_vote },
        ),
        TransactionShape::V002 { signature, is_vote, index } => Some(
            CanonicalTransactionEvent { slot, signature: signature.clone(), is_vote: *is_vote },
        ),
        TransactionShape::V003 { signature, is_vote, index } => Some(
            CanonicalTransactionEvent { slot, signature: signature.clone(), is_vote: *is_vote },
        ),
        TransactionShape::Unrecognized => None,
    }
}

/// Reduces a versioned entry notification to the canonical event, or to
/// nothing when the shape is not a known one.
pub fn adapt_entry(shape: &EntryShape) -> (r: Option<CanonicalEntryEvent>)
    ensures
        r is Some <==> spec_adapt_entry(shape@) is Some,
        r matches Some(ev) ==> spec_adapt_entry(shape@) == Some(ev@),
{
    match shape {
        EntryShape::V001 { slot, index, num_hashes, executed_tx_count } => Some(
            CanonicalEntryEvent {
                slot: *slot,
                index: *index,
                num_hashes: *num_hashes,
                executed_tx_count: *executed_tx_count,
            },
        ),
        EntryShape::V002 { slot, index, num_hashes, executed_tx_count, starting_tx_index } => Some(
            CanonicalEntryEvent {
                slot: *slot,
                index: *index,
                num_hashes: *num_hashes,
                executed_tx_count: *executed_tx_count,
            },
        ),
        EntryShape::Unrecognized => None,
    }
}

/// Every known transaction shape carrying the same signature and vote flag
/// normalizes to the identical canonical transaction event, whatever extra
/// fields the shape carries.
pub proof fn lemma_tx_shapes_agree(signature: Seq<char>, is_vote: bool, i2: u64, i3: u64, slot: u64)
    ensures
        spec_adapt_tx((TxShapeView::V001 { signature, is_vote }), slot) == Some(
            (TxEventView { slot, signature, is_vote }),
        ),
        spec_adapt_tx((TxShapeView::V002 { signature, is_vote, index: i2 }), slot)
            == spec_adapt_tx((TxShapeView::V001 { signature, is_vote }), slot),
        spec_adapt_tx((TxShapeView::V003 { signature, is_vote, index: i3 }), slot)
            == spec_adapt_tx((TxShapeView::V001 { signature, is_vote }), slot),
{
}

/// Every known entry shape carrying the same slot, index, hash count and
/// executed-transaction count normalizes to the identical canonical entry
/// event, whatever extra fields the shape carries.
pub proof fn lemma_entry_shapes_agree(
    slot: u64,
    index: u64,
    num_hashes: u64,
    executed_tx_count: u64,
    starting_tx_index: u64,
)
    ensures
        spec_adapt_entry((EntryShapeView::V001 { slot, index, num_hashes, executed_tx_count }))
            == Some((EntryEventView { slot, index, num_hashes, executed_tx_count })),
        spec_adapt_entry(
            (EntryShapeView::V002 {
                slot,
                index,
                num_hashes,
                executed_tx_count,
                starting_tx_index,
            }),
        ) == spec_adapt_entry(
            (EntryShapeView::V001 { slot, index, num_hashes, executed_tx_count }),
        ),
{
}

} // verus!
