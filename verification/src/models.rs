//! The records that the trackers keep.

use crate::chain::{OutPoint, Txid};
use vstd::prelude::*;

verus! {

/// Where an offer stands.
#[derive(Clone, Copy, Debug, PartialEq, Eq, Structural)]
pub enum OfferStatus {
    Pending,
    Active,
    Repaid,
    Liquidated,
    Cancelled,
}

/// What an output is to its offer.
#[derive(Clone, Copy, Debug, PartialEq, Eq, Structural)]
pub enum UtxoType {
    PendingOffer,
    ActiveOffer,
    BorrowerPrincipal,
    Cancellation,
    Liquidation,
}

/// Whom a vault pays.
#[derive(Clone, Copy, Debug, PartialEq, Eq, Structural)]
pub enum VaultType {
    Lender,
    ProtocolFee,
}

/// The side of an offer that a participant token stands for.
#[derive(Clone, Copy, Debug, PartialEq, Eq, Structural)]
pub enum ParticipantType {
    Borrower,
    Lender,
}

/// What the trackers read of a stored offer.
#[derive(Clone, Copy, Debug, PartialEq, Eq, Structural)]
pub struct OfferModel {
    pub collateral_remaining: i64,
}

impl OfferModel {
    /// The collateral still locked, as an amount.
    pub fn collateral_amount(&self) -> (r: u64)
        ensures
            r == self.collateral_remaining as u64,
    {
        #[verifier::truncate]
        (self.collateral_remaining as u64)
    }
}

/// The record of an output of an offer. Heights and output indices have the
/// widths that the database gives them.
#[derive(Clone, Copy, Debug, PartialEq)]
pub struct OfferUtxoModel {
    pub offer_id: i64,
    pub txid: Txid,
    pub vout: i32,
    pub utxo_type: UtxoType,
    pub created_at_height: i64,
    pub spent_at_height: Option<i64>,
    pub spent_txid: Option<Txid>,
}

/// The record of a repayment. The database assigns `id`.
#[derive(Clone, Copy, Debug, PartialEq)]
pub struct OfferRepaymentModel {
    pub id: i64,
    pub offer_id: i64,
    pub txid: Txid,
    pub height: i64,
    pub amount_repaid: i64,
    pub collateral_unlocked: i64,
    pub debt_before: i64,
    pub debt_after: i64,
    pub collateral_before: i64,
    pub collateral_after: i64,
    pub is_full: bool,
}

/// The entry of a watched vault.
#[derive(Clone, Copy, Debug, PartialEq, Eq, Structural)]
pub struct VaultWatchEntry {
    pub offer_id: i64,
    pub vault_type: VaultType,
    pub amount: u64,
    pub already_supplied: u64,
    pub is_finalized: bool,
}

/// The record of an output that holds a participant token.
#[derive(Debug, PartialEq)]
pub struct OfferParticipantModel {
    pub offer_id: i64,
    pub participant_type: ParticipantType,
    pub script_pubkey: Vec<u8>,
    pub txid: Txid,
    pub vout: i32,
    pub created_at_height: i64,
    pub spent_txid: Option<Txid>,
    pub spent_at_height: Option<i64>,
}

/// What an [`OfferParticipantModel`] says.
#[verifier::ext_equal]
pub struct OfferParticipantView {
    pub offer_id: i64,
    pub participant_type: ParticipantType,
    pub script_pubkey: Seq<u8>,
    pub txid: Txid,
    pub vout: i32,
    pub created_at_height: i64,
    pub spent_txid: Option<Txid>,
    pub spent_at_height: Option<i64>,
}

impl View for OfferParticipantModel {
    type V = OfferParticipantView;

    open spec fn view(&self) -> OfferParticipantView {
        OfferParticipantView {
            offer_id: self.offer_id,
            participant_type: self.participant_type,
            script_pubkey: self.script_pubkey@,
            txid: self.txid,
            vout: self.vout,
            created_at_height: self.created_at_height,
            spent_txid: self.spent_txid,
            spent_at_height: self.spent_at_height,
        }
    }
}

/// The output that a stored transaction id and index refer to.
pub open spec fn stored_outpoint(txid: Txid, vout: i32) -> OutPoint {
    OutPoint { txid, vout: vout as u32 }
}

/// The output that a stored transaction id and index refer to.
pub fn outpoint_of_stored(txid: Txid, vout: i32) -> (r: OutPoint)
    ensures
        r == stored_outpoint(txid, vout),
{
    OutPoint {
        txid,
        vout: #[verifier::truncate]
        (vout as u32),
    }
}

/// An output index survives being stored.
pub proof fn law_stored_outpoint_round_trip(outpoint: OutPoint)
    ensures
        stored_outpoint(outpoint.txid, outpoint.vout as i32) == outpoint,
{
    let vout = outpoint.vout;
    assert((vout as i32) as u32 == vout) by (bit_vector);
}

} // verus!
