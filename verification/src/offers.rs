//! Tracking of the outputs that carry an offer.
//!
//! A transaction that spends a watched output moves an offer on. What follows
//! from it is a plan: steps on the stored records, on the vaults and on the watch
//! cache, in the order in which they are carried out.

use crate::cache::{is_next_watched, CacheView, WatchCache};
use crate::chain::{
    null_data, OutPoint, Transaction, TransactionView, TxIn, TxOutView, Txid,
};
use crate::models::{
    outpoint_of_stored, stored_outpoint, OfferModel, OfferRepaymentModel, OfferStatus,
    OfferUtxoModel, UtxoType, VaultType, VaultWatchEntry,
};
use std::collections::HashMap;
use vstd::prelude::*;

verus! {

broadcast use vstd::std_specs::hash::group_hash_axioms;

/// The entry of a watched output of an offer.
#[derive(Clone, Copy, Debug, PartialEq, Eq, Structural)]
pub struct OffersWatchEntry {
    pub offer_id: i64,
    pub utxo_type: UtxoType,
}

/// What the outputs of a transaction show of a repayment.
#[derive(Clone, Copy, Debug, PartialEq, Eq)]
pub struct LendingOfferRepaymentScan {
    pub continuing_offer_vout: Option<u32>,
    pub lender_vault_vout: u32,
    pub protocol_fee_vault_vout: Option<u32>,
    pub amount_to_repay: u64,
    pub debt_before: u64,
    pub debt_after: u64,
}

/// How a partial repayment changes debt and collateral.
#[derive(Clone, Copy, Debug, PartialEq, Eq, Structural)]
pub struct PartialRepaymentAmounts {
    pub amount_repaid: u64,
    pub collateral_unlocked: u64,
    pub debt_before: u64,
    pub debt_after: u64,
    pub collateral_before: u64,
    pub collateral_after: u64,
}

/// How far a vault has been filled.
#[derive(Clone, Copy, Debug, PartialEq, Eq, Structural)]
pub struct VaultProgress {
    pub already_supplied: u64,
    pub is_finalized: bool,
}

/// How far the vaults of an offer have been filled after a repayment.
#[derive(Clone, Copy, Debug, PartialEq, Eq, Structural)]
pub struct VaultsProgress {
    pub lender: VaultProgress,
    pub protocol_fee: VaultProgress,
}

/// The amounts at which the vaults of an offer are full.
#[derive(Clone, Copy, Debug, PartialEq, Eq, Structural)]
pub struct SupplyGoals {
    pub lender: u64,
    pub protocol_fee: u64,
}

/// What spends an active offer, with what its stored terms give for it: `None`
/// where they give nothing.
#[derive(Clone, Copy, Debug, PartialEq, Eq)]
pub enum ActiveOfferSpendKind {
    FullRepayment { scan: LendingOfferRepaymentScan, supply_goals: Option<SupplyGoals> },
    PartialRepayment {
        scan: LendingOfferRepaymentScan,
        amounts: Option<PartialRepaymentAmounts>,
        vaults_after: Option<VaultsProgress>,
    },
    Liquidation,
}

impl ActiveOfferSpendKind {
    /// A partial repayment with what the stored terms give for it. The amounts are
    /// asked for at the collateral that the offer still holds, and only where an output
    /// continues the offer; the progress of the vaults at the debt that the amounts
    /// leave. `vaults_at` is `None` where the offer gives no lending parameters.
    pub fn partial_repayment<
        F: Fn(LendingOfferRepaymentScan, u64) -> Option<PartialRepaymentAmounts>,
        G: Fn(u64) -> VaultsProgress,
    >(
        scan: LendingOfferRepaymentScan,
        offer: &OfferModel,
        amounts_from_scan: F,
        vaults_at: Option<G>,
    ) -> (r: ActiveOfferSpendKind)
        requires
            call_requires(amounts_from_scan, (scan, offer.collateral_remaining as u64)),
            vaults_at matches Some(vaults_at) ==> forall|debt: u64|
                call_requires(vaults_at, (debt,)),
        ensures
            r matches ActiveOfferSpendKind::PartialRepayment {
                scan: shown,
                amounts,
                vaults_after,
            } && {
                &&& shown == scan
                &&& scan.continuing_offer_vout is None ==> amounts is None
                &&& scan.continuing_offer_vout is Some ==> call_ensures(
                    amounts_from_scan,
                    (scan, offer.collateral_remaining as u64),
                    amounts,
                )
                &&& vaults_after is Some <==> amounts is Some && vaults_at is Some
                &&& vaults_after is Some ==> call_ensures(
                    vaults_at->0,
                    (amounts->0.debt_after,),
                    vaults_after->0,
                )
            },
    {
        let amounts = if scan.continuing_offer_vout.is_some() {
            amounts_from_scan(scan, offer.collateral_amount())
        } else {
            None
        };
        let vaults_after = match (amounts, vaults_at) {
            (Some(amounts), Some(vaults_at)) => Some(vaults_at(amounts.debt_after)),
            _ => None,
        };
        ActiveOfferSpendKind::PartialRepayment { scan, amounts, vaults_after }
    }
}

/// Why a plan stops.
#[derive(Clone, Copy, Debug, PartialEq, Eq, Structural)]
pub enum OffersError {
    /// A partial repayment leaves no output that continues the offer.
    MissingContinuingVout,
    /// The amounts of a partial repayment do not follow from its outputs.
    RepaymentAmounts,
    /// The stored offer does not give lending parameters.
    LendingParameters,
    /// The output that opens the lender's vault has no explicit amount.
    LenderVaultOutput { is_full: bool },
    /// The output that opens the protocol fee vault has no explicit amount.
    ProtocolFeeVaultOutput { is_full: bool },
}

impl OffersError {
    /// The error in words.
    pub open spec fn words(self) -> Seq<char> {
        match self {
            OffersError::MissingContinuingVout =>
            "partial repayment scan missing continuing_offer_vout"@,
            OffersError::RepaymentAmounts => "partial repayment amounts not available"@,
            OffersError::LendingParameters => "lending offer parameters not available"@,
            OffersError::LenderVaultOutput { is_full: false } =>
            "lender vault output not found in tx"@,
            OffersError::LenderVaultOutput { is_full: true } =>
            "lender vault output not found in full repayment tx"@,
            OffersError::ProtocolFeeVaultOutput { is_full: false } =>
            "protocol fee vault output not found in tx"@,
            OffersError::ProtocolFeeVaultOutput { is_full: true } =>
            "protocol fee vault output not found in full repayment tx"@,
        }
    }

    /// The error in words.
    pub fn message(&self) -> (r: &'static str)
        ensures
            r@ == self.words(),
    {
        match self {
            OffersError::MissingContinuingVout =>
            "partial repayment scan missing continuing_offer_vout",
            OffersError::RepaymentAmounts => "partial repayment amounts not available",
            OffersError::LendingParameters => "lending offer parameters not available",
            OffersError::LenderVaultOutput { is_full: false } =>
            "lender vault output not found in tx",
            OffersError::LenderVaultOutput { is_full: true } =>
            "lender vault output not found in full repayment tx",
            OffersError::ProtocolFeeVaultOutput { is_full: false } =>
            "protocol fee vault output not found in tx",
            OffersError::ProtocolFeeVaultOutput { is_full: true } =>
            "protocol fee vault output not found in full repayment tx",
        }
    }
}

/// One step of a plan.
#[derive(Clone, Copy, Debug, PartialEq)]
pub enum OfferStep {
    /// Record that an output was spent.
    SpendUtxo { outpoint: OutPoint, block_height: u64, txid: Txid },
    /// Stop watching an output.
    Unwatch { outpoint: OutPoint },
    /// Record where an offer stands.
    UpdateStatus { offer_id: i64, status: OfferStatus, block_height: u64 },
    /// Record an offer's debt and collateral.
    UpdateDebtAndCollateral { offer_id: i64, debt: i64, collateral: i64, block_height: u64 },
    /// Add the record of an output.
    InsertUtxo { utxo: OfferUtxoModel },
    /// Watch an output.
    Watch { outpoint: OutPoint, entry: OffersWatchEntry },
    /// Add the record of a repayment.
    InsertRepayment { repayment: OfferRepaymentModel },
    /// Open a vault at an output.
    CreateVault { outpoint: OutPoint, vault: VaultWatchEntry, block_height: u64 },
    /// Move a vault on to the output of the transaction that continues it.
    SupplyVault { offer_id: i64, vault_type: VaultType, debt_after: u64, block_height: u64 },
}

/// Steps to carry out in order. With an error, the steps before it are carried
/// out and then it is raised.
#[derive(Debug, PartialEq)]
pub struct OfferPlan {
    pub steps: Vec<OfferStep>,
    pub error: Option<OffersError>,
}

/// What an [`OfferPlan`] says.
#[verifier::ext_equal]
pub struct OfferPlanView {
    pub steps: Seq<OfferStep>,
    pub error: Option<OffersError>,
}

impl View for OfferPlan {
    type V = OfferPlanView;

    open spec fn view(&self) -> OfferPlanView {
        OfferPlanView { steps: self.steps@, error: self.error }
    }
}

impl OfferPlanView {
    /// A plan that runs to its end.
    pub open spec fn running(steps: Seq<OfferStep>) -> OfferPlanView {
        OfferPlanView { steps, error: None }
    }

    /// A plan that fails at once.
    pub open spec fn failing(error: OffersError) -> OfferPlanView {
        OfferPlanView { steps: seq![], error: Some(error) }
    }

    /// This plan and, where it runs to its end, another after it.
    pub open spec fn followed_by(self, next: OfferPlanView) -> OfferPlanView {
        if self.error is Some {
            self
        } else {
            OfferPlanView { steps: self.steps + next.steps, error: next.error }
        }
    }
}

impl OfferPlan {
    fn new() -> (r: OfferPlan)
        ensures
            r@ == OfferPlanView::running(seq![]),
    {
        OfferPlan { steps: Vec::new(), error: None }
    }

    fn failed(error: OffersError) -> (r: OfferPlan)
        ensures
            r@ == OfferPlanView::failing(error),
    {
        OfferPlan { steps: Vec::new(), error: Some(error) }
    }

    fn push(&mut self, step: OfferStep)
        requires
            old(self).error is None,
        ensures
            final(self)@ == old(self)@.followed_by(OfferPlanView::running(seq![step])),
    {
        self.steps.push(step);
    }

    fn append(&mut self, mut next: OfferPlan)
        requires
            old(self).error is None,
        ensures
            final(self)@ == old(self)@.followed_by(next@),
    {
        self.steps.append(&mut next.steps);
        self.error = next.error;
    }
}

/// The record of a new output of an offer.
pub open spec fn new_utxo(
    offer_id: i64,
    txid: Txid,
    vout: u32,
    utxo_type: UtxoType,
    block_height: u64,
) -> OfferUtxoModel {
    OfferUtxoModel {
        offer_id,
        txid,
        vout: vout as i32,
        utxo_type,
        created_at_height: block_height as i64,
        spent_at_height: None,
        spent_txid: None,
    }
}

/// The record of an output that only marks how an offer ended: spent as soon as
/// it is created, so that it is never watched.
pub open spec fn closing_utxo(
    offer_id: i64,
    txid: Txid,
    utxo_type: UtxoType,
    block_height: u64,
) -> OfferUtxoModel {
    OfferUtxoModel {
        spent_at_height: Some(block_height as i64),
        spent_txid: Some(txid),
        ..new_utxo(offer_id, txid, 0, utxo_type, block_height)
    }
}

/// Steps that record and watch a new output of an offer.
pub open spec fn watch_steps(
    offer_id: i64,
    txid: Txid,
    vout: u32,
    utxo_type: UtxoType,
    block_height: u64,
) -> Seq<OfferStep> {
    seq![
        OfferStep::InsertUtxo { utxo: new_utxo(offer_id, txid, vout, utxo_type, block_height) },
        OfferStep::Watch {
            outpoint: OutPoint { txid, vout },
            entry: OffersWatchEntry { offer_id, utxo_type },
        },
    ]
}

/// Steps that record and unwatch an output that a transaction spent.
pub open spec fn spend_steps(outpoint: OutPoint, txid: Txid, block_height: u64) -> Seq<OfferStep> {
    seq![
        OfferStep::SpendUtxo { outpoint, block_height, txid },
        OfferStep::Unwatch { outpoint },
    ]
}

/// What follows from a borrower withdrawing a pending offer.
pub open spec fn cancellation_plan(
    old_outpoint: OutPoint,
    offer_id: i64,
    txid: Txid,
    block_height: u64,
) -> OfferPlanView {
    OfferPlanView::running(
        spend_steps(old_outpoint, txid, block_height) + seq![
            OfferStep::UpdateStatus { offer_id, status: OfferStatus::Cancelled, block_height },
            OfferStep::UpdateDebtAndCollateral { offer_id, debt: 0, collateral: 0, block_height },
            OfferStep::InsertUtxo {
                utxo: closing_utxo(offer_id, txid, UtxoType::Cancellation, block_height),
            },
        ],
    )
}

/// What follows from a lender accepting a pending offer: its first output carries
/// the active offer, its second the borrower's principal.
pub open spec fn acceptance_plan(
    old_outpoint: OutPoint,
    offer_id: i64,
    txid: Txid,
    block_height: u64,
) -> OfferPlanView {
    OfferPlanView::running(
        spend_steps(old_outpoint, txid, block_height) + seq![
            OfferStep::UpdateStatus { offer_id, status: OfferStatus::Active, block_height },
        ] + watch_steps(offer_id, txid, 0, UtxoType::ActiveOffer, block_height) + watch_steps(
            offer_id,
            txid,
            1,
            UtxoType::BorrowerPrincipal,
            block_height,
        ),
    )
}

/// What follows from a lender seizing the collateral of an active offer.
pub open spec fn liquidation_plan(
    old_outpoint: OutPoint,
    offer_id: i64,
    txid: Txid,
    block_height: u64,
) -> OfferPlanView {
    OfferPlanView::running(
        spend_steps(old_outpoint, txid, block_height) + seq![
            OfferStep::UpdateDebtAndCollateral { offer_id, debt: 0, collateral: 0, block_height },
            OfferStep::UpdateStatus { offer_id, status: OfferStatus::Liquidated, block_height },
            OfferStep::InsertUtxo {
                utxo: closing_utxo(offer_id, txid, UtxoType::Liquidation, block_height),
            },
        ],
    )
}

/// The explicit value of the output at an index, if there is one.
pub open spec fn explicit_amount(output: Seq<TxOutView>, vout: u32) -> Option<u64> {
    if vout < output.len() {
        output[vout as int].value
    } else {
        None
    }
}

/// The step that opens a vault.
pub open spec fn create_vault_step(
    tx: TransactionView,
    offer_id: i64,
    vault_type: VaultType,
    vout: u32,
    amount: u64,
    progress: VaultProgress,
    block_height: u64,
) -> OfferStep {
    OfferStep::CreateVault {
        outpoint: OutPoint { txid: tx.txid, vout },
        vault: VaultWatchEntry {
            offer_id,
            vault_type,
            amount,
            already_supplied: progress.already_supplied,
            is_finalized: progress.is_finalized,
        },
        block_height,
    }
}

/// What opens a vault at an output: a failure where the output has no explicit
/// amount.
pub open spec fn create_vault_plan(
    tx: TransactionView,
    offer_id: i64,
    vault_type: VaultType,
    vout: u32,
    progress: VaultProgress,
    block_height: u64,
    error: OffersError,
) -> OfferPlanView {
    match explicit_amount(tx.output, vout) {
        Some(amount) => OfferPlanView::running(
            seq![
                create_vault_step(tx, offer_id, vault_type, vout, amount, progress, block_height),
            ],
        ),
        None => OfferPlanView::failing(error),
    }
}

/// What the first repayment of an offer does to its vaults: it opens the lender's
/// and, where the transaction has one, the protocol's.
pub open spec fn open_vaults_plan(
    tx: TransactionView,
    offer_id: i64,
    scan: LendingOfferRepaymentScan,
    progress: VaultsProgress,
    is_full: bool,
    block_height: u64,
) -> OfferPlanView {
    create_vault_plan(
        tx,
        offer_id,
        VaultType::Lender,
        scan.lender_vault_vout,
        progress.lender,
        block_height,
        OffersError::LenderVaultOutput { is_full },
    ).followed_by(
        match scan.protocol_fee_vault_vout {
            Some(vout) => create_vault_plan(
                tx,
                offer_id,
                VaultType::ProtocolFee,
                vout,
                progress.protocol_fee,
                block_height,
                OffersError::ProtocolFeeVaultOutput { is_full },
            ),
            None => OfferPlanView::running(seq![]),
        },
    )
}

/// What a later repayment of an offer does to its vaults: it moves them on.
pub open spec fn supply_vaults_plan(
    offer_id: i64,
    scan: LendingOfferRepaymentScan,
    debt_after: u64,
    block_height: u64,
) -> OfferPlanView {
    let lender = OfferStep::SupplyVault {
        offer_id,
        vault_type: VaultType::Lender,
        debt_after,
        block_height,
    };
    let protocol_fee = OfferStep::SupplyVault {
        offer_id,
        vault_type: VaultType::ProtocolFee,
        debt_after,
        block_height,
    };
    OfferPlanView::running(
        if scan.protocol_fee_vault_vout is Some {
            seq![lender, protocol_fee]
        } else {
            seq![lender]
        },
    )
}

/// What a repayment of an offer does to its vaults. It fails where the stored
/// offer gives no parameters for them.
pub open spec fn vaults_plan(
    tx: TransactionView,
    offer_id: i64,
    scan: LendingOfferRepaymentScan,
    progress: Option<VaultsProgress>,
    debt_after: u64,
    is_full: bool,
    is_first_repayment: bool,
    block_height: u64,
) -> OfferPlanView {
    match progress {
        None => OfferPlanView::failing(OffersError::LendingParameters),
        Some(progress) => if is_first_repayment {
            open_vaults_plan(tx, offer_id, scan, progress, is_full, block_height)
        } else {
            supply_vaults_plan(offer_id, scan, debt_after, block_height)
        },
    }
}

/// The record of a partial repayment.
pub open spec fn partial_repayment_record(
    offer_id: i64,
    txid: Txid,
    amounts: PartialRepaymentAmounts,
    block_height: u64,
) -> OfferRepaymentModel {
    OfferRepaymentModel {
        id: 0,
        offer_id,
        txid,
        height: block_height as i64,
        amount_repaid: amounts.amount_repaid as i64,
        collateral_unlocked: amounts.collateral_unlocked as i64,
        debt_before: amounts.debt_before as i64,
        debt_after: amounts.debt_after as i64,
        collateral_before: amounts.collateral_before as i64,
        collateral_after: amounts.collateral_after as i64,
        is_full: false,
    }
}

/// What follows from a partial repayment: an output of the transaction carries the
/// offer on with less debt and less collateral.
pub open spec fn partial_repayment_plan(
    old_outpoint: OutPoint,
    offer_id: i64,
    tx: TransactionView,
    scan: LendingOfferRepaymentScan,
    amounts: Option<PartialRepaymentAmounts>,
    vaults_after: Option<VaultsProgress>,
    is_first_repayment: bool,
    block_height: u64,
) -> OfferPlanView {
    match (scan.continuing_offer_vout, amounts) {
        (None, _) => OfferPlanView::failing(OffersError::MissingContinuingVout),
        (_, None) => OfferPlanView::failing(OffersError::RepaymentAmounts),
        (Some(continuing_vout), Some(amounts)) => OfferPlanView::running(
            spend_steps(old_outpoint, tx.txid, block_height) + seq![
                OfferStep::UpdateDebtAndCollateral {
                    offer_id,
                    debt: amounts.debt_after as i64,
                    collateral: amounts.collateral_after as i64,
                    block_height,
                },
                OfferStep::InsertRepayment {
                    repayment: partial_repayment_record(offer_id, tx.txid, amounts, block_height),
                },
            ],
        ).followed_by(
            vaults_plan(
                tx,
                offer_id,
                scan,
                vaults_after,
                amounts.debt_after,
                false,
                is_first_repayment,
                block_height,
            ),
        ).followed_by(
            OfferPlanView::running(
                watch_steps(
                    offer_id,
                    tx.txid,
                    continuing_vout,
                    UtxoType::ActiveOffer,
                    block_height,
                ),
            ),
        ),
    }
}

/// The record of a full repayment, which unlocks all the collateral that is left.
pub open spec fn full_repayment_record(
    offer_id: i64,
    txid: Txid,
    offer: OfferModel,
    scan: LendingOfferRepaymentScan,
    block_height: u64,
) -> OfferRepaymentModel {
    OfferRepaymentModel {
        id: 0,
        offer_id,
        txid,
        height: block_height as i64,
        amount_repaid: scan.amount_to_repay as i64,
        collateral_unlocked: offer.collateral_remaining,
        debt_before: scan.debt_before as i64,
        debt_after: scan.debt_after as i64,
        collateral_before: offer.collateral_remaining,
        collateral_after: 0,
        is_full: true,
    }
}

/// Vaults that a full repayment has filled.
pub open spec fn filled_vaults(supply_goals: Option<SupplyGoals>) -> Option<VaultsProgress> {
    match supply_goals {
        Some(goals) => Some(
            VaultsProgress {
                lender: VaultProgress { already_supplied: goals.lender, is_finalized: true },
                protocol_fee: VaultProgress {
                    already_supplied: goals.protocol_fee,
                    is_finalized: true,
                },
            },
        ),
        None => None,
    }
}

/// What follows from a full repayment: the offer ends and its vaults are filled.
pub open spec fn full_repayment_plan(
    old_outpoint: OutPoint,
    offer_id: i64,
    tx: TransactionView,
    offer: OfferModel,
    scan: LendingOfferRepaymentScan,
    supply_goals: Option<SupplyGoals>,
    is_first_repayment: bool,
    block_height: u64,
) -> OfferPlanView {
    OfferPlanView::running(
        spend_steps(old_outpoint, tx.txid, block_height) + seq![
            OfferStep::InsertRepayment {
                repayment: full_repayment_record(offer_id, tx.txid, offer, scan, block_height),
            },
        ],
    ).followed_by(
        vaults_plan(
            tx,
            offer_id,
            scan,
            filled_vaults(supply_goals),
            scan.debt_after,
            true,
            is_first_repayment,
            block_height,
        ),
    ).followed_by(
        OfferPlanView::running(
            seq![
                OfferStep::UpdateDebtAndCollateral {
                    offer_id,
                    debt: 0,
                    collateral: 0,
                    block_height,
                },
                OfferStep::UpdateStatus { offer_id, status: OfferStatus::Repaid, block_height },
            ],
        ),
    )
}

/// What follows from a transaction spending an active offer.
pub open spec fn active_spend_plan(
    old_outpoint: OutPoint,
    offer_id: i64,
    tx: TransactionView,
    offer: OfferModel,
    kind: ActiveOfferSpendKind,
    is_first_repayment: bool,
    block_height: u64,
) -> OfferPlanView {
    match kind {
        ActiveOfferSpendKind::FullRepayment { scan, supply_goals } => full_repayment_plan(
            old_outpoint,
            offer_id,
            tx,
            offer,
            scan,
            supply_goals,
            is_first_repayment,
            block_height,
        ),
        ActiveOfferSpendKind::PartialRepayment { scan, amounts, vaults_after } =>
        partial_repayment_plan(
            old_outpoint,
            offer_id,
            tx,
            scan,
            amounts,
            vaults_after,
            is_first_repayment,
            block_height,
        ),
        ActiveOfferSpendKind::Liquidation => liquidation_plan(
            old_outpoint,
            offer_id,
            tx.txid,
            block_height,
        ),
    }
}

/// Whether a transaction that spends a pending offer withdraws it: of at least four
/// outputs the first two are null data and the third is not.
pub open spec fn cancels_offer(tx: TransactionView) -> bool {
    &&& tx.output.len() >= 4
    &&& null_data(tx.output[0].script_pubkey)
    &&& null_data(tx.output[1].script_pubkey)
    &&& !null_data(tx.output[2].script_pubkey)
}

/// What to do next about a transaction.
#[derive(Debug, PartialEq)]
pub enum OfferSpendAction {
    /// Carry out a plan, then go on.
    Run { plan: OfferPlan },
    /// Fetch the offer and find out what spends it, plan with
    /// [`OffersTracker::on_active_offer_spend`], carry the plan out, then go on.
    Classify { outpoint: OutPoint, offer_id: i64 },
    /// Warn that an output of this type is not expected to be spent, then go on.
    Unexpected { utxo_type: UtxoType },
    /// Nothing is left to do. Tells whether the transaction spent a watched output.
    Finished { offer_spent: bool },
}

/// What an [`OfferSpendAction`] says.
#[verifier::ext_equal]
pub enum OfferSpendActionView {
    Run { plan: OfferPlanView },
    Classify { outpoint: OutPoint, offer_id: i64 },
    Unexpected { utxo_type: UtxoType },
    Finished { offer_spent: bool },
}

impl View for OfferSpendAction {
    type V = OfferSpendActionView;

    open spec fn view(&self) -> OfferSpendActionView {
        match self {
            OfferSpendAction::Run { plan } => OfferSpendActionView::Run { plan: plan@ },
            OfferSpendAction::Classify { outpoint, offer_id } => OfferSpendActionView::Classify {
                outpoint: *outpoint,
                offer_id: *offer_id,
            },
            OfferSpendAction::Unexpected { utxo_type } => OfferSpendActionView::Unexpected {
                utxo_type: *utxo_type,
            },
            OfferSpendAction::Finished { offer_spent } => OfferSpendActionView::Finished {
                offer_spent: *offer_spent,
            },
        }
    }
}

/// What follows from a transaction spending a watched output.
pub open spec fn spend_action(
    old_outpoint: OutPoint,
    entry: OffersWatchEntry,
    tx: TransactionView,
    block_height: u64,
) -> OfferSpendActionView {
    match entry.utxo_type {
        UtxoType::PendingOffer => OfferSpendActionView::Run {
            plan: if cancels_offer(tx) {
                cancellation_plan(old_outpoint, entry.offer_id, tx.txid, block_height)
            } else {
                acceptance_plan(old_outpoint, entry.offer_id, tx.txid, block_height)
            },
        },
        UtxoType::ActiveOffer => OfferSpendActionView::Classify {
            outpoint: old_outpoint,
            offer_id: entry.offer_id,
        },
        UtxoType::BorrowerPrincipal => OfferSpendActionView::Run {
            plan: OfferPlanView::running(spend_steps(old_outpoint, tx.txid, block_height)),
        },
        UtxoType::Cancellation | UtxoType::Liquidation => OfferSpendActionView::Unexpected {
            utxo_type: entry.utxo_type,
        },
    }
}

/// How far the inputs of a transaction have been gone through.
#[derive(Clone, Copy, Debug, PartialEq, Eq, Structural)]
pub struct SpendScan {
    pub next_input: usize,
    pub offer_spent: bool,
}

impl SpendScan {
    /// A scan that starts at the first input.
    pub fn new() -> (r: SpendScan)
        ensures
            r == (SpendScan { next_input: 0, offer_spent: false }),
    {
        SpendScan { next_input: 0, offer_spent: false }
    }
}

/// The outputs watched after a step.
pub open spec fn entries_after_step(
    entries: Map<OutPoint, OffersWatchEntry>,
    step: OfferStep,
) -> Map<OutPoint, OffersWatchEntry> {
    match step {
        OfferStep::Watch { outpoint, entry } => entries.insert(outpoint, entry),
        OfferStep::Unwatch { outpoint } => entries.remove(outpoint),
        _ => entries,
    }
}

/// The outputs to watch, given the records of an offer's outputs: those that are
/// not spent. Where two records are of one output, the later counts.
pub open spec fn watched_records(records: Seq<OfferUtxoModel>) -> Map<OutPoint, OffersWatchEntry>
    decreases records.len(),
{
    if records.len() == 0 {
        Map::empty()
    } else {
        let earlier = watched_records(records.drop_last());
        let record = records.last();
        if record.spent_txid is Some {
            earlier
        } else {
            earlier.insert(
                stored_outpoint(record.txid, record.vout),
                OffersWatchEntry { offer_id: record.offer_id, utxo_type: record.utxo_type },
            )
        }
    }
}

/// Whether an input spends the watched output of an active offer.
pub open spec fn spends_active_offer(
    entries: Map<OutPoint, OffersWatchEntry>,
    input: TxIn,
    offer_id: i64,
) -> bool {
    &&& entries.contains_key(input.previous_output)
    &&& entries[input.previous_output] == (OffersWatchEntry {
        offer_id,
        utxo_type: UtxoType::ActiveOffer,
    })
}

/// Watches the outputs that carry offers.
pub struct OffersTracker {
    cache: WatchCache<OffersWatchEntry>,
}

impl View for OffersTracker {
    type V = CacheView<OffersWatchEntry>;

    closed spec fn view(&self) -> CacheView<OffersWatchEntry> {
        self.cache@
    }
}

impl OffersTracker {
    /// Whether the tracker is in order.
    pub closed spec fn wf(&self) -> bool {
        self.cache.wf()
    }

    /// Starts tracking from stored records.
    pub fn load(records: &Vec<OfferUtxoModel>) -> (r: OffersTracker)
        ensures
            r.wf(),
            r@.entries == watched_records(records@),
            r@.checkpoint is None,
    {
        let mut cache: WatchCache<OffersWatchEntry> = WatchCache::new();
        let mut i: usize = 0;
        while i < records.len()
            invariant
                i <= records.len(),
                cache.wf(),
                cache@.entries == watched_records(records@.take(i as int)),
                cache@.checkpoint is None,
            decreases records.len() - i,
        {
            let record = records[i];
            assert(records@.take(i + 1).drop_last() =~= records@.take(i as int));
            if record.spent_txid.is_none() {
                cache.insert(
                    outpoint_of_stored(record.txid, record.vout),
                    OffersWatchEntry { offer_id: record.offer_id, utxo_type: record.utxo_type },
                );
            }
            i = i + 1;
        }
        assert(records@.take(i as int) =~= records@);
        OffersTracker { cache }
    }

    /// The entry of a watched output.
    pub fn watched(&self, outpoint: &OutPoint) -> (r: Option<OffersWatchEntry>)
        requires
            self.wf(),
        ensures
            r == if self@.entries.contains_key(*outpoint) {
                Some(self@.entries[*outpoint])
            } else {
                None
            },
    {
        self.cache.get(outpoint)
    }

    /// Finds the next input of a transaction that spends a watched output, and
    /// what follows from it.
    pub fn process_tx_spends(
        &self,
        tx: &Transaction,
        block_height: u64,
        scan: &mut SpendScan,
    ) -> (r: OfferSpendAction)
        requires
            self.wf(),
        ensures
            forall|i: int| #[trigger]
                is_next_watched(self@.entries, tx@.input, old(scan).next_input as int, i) ==> {
                    &&& final(scan).next_input == i + 1
                    &&& final(scan).offer_spent
                    &&& r@ == spend_action(
                        tx@.input[i].previous_output,
                        self@.entries[tx@.input[i].previous_output],
                        tx@,
                        block_height,
                    )
                },
            (forall|i: int|
                !is_next_watched(self@.entries, tx@.input, old(scan).next_input as int, i)) ==> {
                &&& *final(scan) == *old(scan)
                &&& r@ == (OfferSpendActionView::Finished { offer_spent: old(scan).offer_spent })
            },
    {
        match self.cache.next_watched_input(&tx.input, scan.next_input) {
            Some((i, entry)) => {
                assert(i < tx.input.len());
                scan.next_input = i + 1;
                scan.offer_spent = true;
                OffersTracker::on_spend(
                    tx,
                    &tx.input[i].previous_output,
                    entry.offer_id,
                    entry.utxo_type,
                    block_height,
                )
            },
            None => OfferSpendAction::Finished { offer_spent: scan.offer_spent },
        }
    }

    /// Takes down how full the vaults are of each active offer that a transaction
    /// spends, before the transaction is applied to them.
    pub fn vault_snapshots_for_tx<A, F: Fn(i64) -> Option<A>>(
        &self,
        tx: &Transaction,
        snapshot_vault_amounts: F,
    ) -> (r: HashMap<i64, Option<A>>)
        requires
            self.wf(),
            forall|offer_id: i64| call_requires(snapshot_vault_amounts, (offer_id,)),
        ensures
            forall|offer_id: i64| #[trigger]
                r@.contains_key(offer_id) <==> exists|i: int|
                    0 <= i < tx@.input.len() && #[trigger] spends_active_offer(
                        self@.entries,
                        tx@.input[i],
                        offer_id,
                    ),
            forall|offer_id: i64| #[trigger]
                r@.contains_key(offer_id) ==> call_ensures(
                    snapshot_vault_amounts,
                    (offer_id,),
                    r@[offer_id],
                ),
    {
        let mut snapshots: HashMap<i64, Option<A>> = HashMap::new();
        let mut i: usize = 0;
        while i < tx.input.len()
            invariant
                i <= tx.input.len(),
                self.wf(),
                forall|offer_id: i64| call_requires(snapshot_vault_amounts, (offer_id,)),
                forall|offer_id: i64| #[trigger]
                    snapshots@.contains_key(offer_id) <==> exists|j: int|
                        0 <= j < i && #[trigger] spends_active_offer(
                            self@.entries,
                            tx@.input[j],
                            offer_id,
                        ),
                forall|offer_id: i64| #[trigger]
                    snapshots@.contains_key(offer_id) ==> call_ensures(
                        snapshot_vault_amounts,
                        (offer_id,),
                        snapshots@[offer_id],
                    ),
            decreases tx.input.len() - i,
        {
            let ghost before = snapshots@;
            if let Some(entry) = self.cache.get(&tx.input[i].previous_output) {
                if entry.utxo_type == UtxoType::ActiveOffer {
                    assert(spends_active_offer(
                        self@.entries,
                        tx@.input[i as int],
                        entry.offer_id,
                    ));
                    if !snapshots.contains_key(&entry.offer_id) {
                        let amounts = snapshot_vault_amounts(entry.offer_id);
                        snapshots.insert(entry.offer_id, amounts);
                    }
                }
            }
            assert forall|offer_id: i64| #[trigger]
                snapshots@.contains_key(offer_id) implies exists|j: int|
                0 <= j < i + 1 && #[trigger] spends_active_offer(
                    self@.entries,
                    tx@.input[j],
                    offer_id,
                ) by {
                if before.contains_key(offer_id) {
                    let j = choose|j: int|
                        0 <= j < i && #[trigger] spends_active_offer(
                            self@.entries,
                            tx@.input[j],
                            offer_id,
                        );
                    assert(spends_active_offer(self@.entries, tx@.input[j], offer_id));
                }
            }
            i = i + 1;
        }
        snapshots
    }

    /// How full an offer's vaults were before a transaction: `None` where it has
    /// no vaults yet.
    pub fn vault_amounts_before<A: Copy>(
        snapshots: &HashMap<i64, Option<A>>,
        offer_id: i64,
    ) -> (r: Option<A>)
        ensures
            r == if snapshots@.contains_key(offer_id) {
                snapshots@[offer_id]
            } else {
                None
            },
    {
        match snapshots.get(&offer_id) {
            Some(amounts) => *amounts,
            None => None,
        }
    }

    /// Opens a block.
    pub fn begin_block(&mut self)
        requires
            old(self).wf(),
        ensures
            final(self).wf(),
            final(self)@ == old(self)@.begun(),
    {
        self.cache.begin_block();
    }

    /// Keeps the changes of the open block.
    pub fn commit_block(&mut self)
        requires
            old(self).wf(),
        ensures
            final(self).wf(),
            final(self)@ == old(self)@.committed(),
    {
        self.cache.commit_block();
    }

    /// Undoes the changes of the open block.
    pub fn abort_block(&mut self)
        requires
            old(self).wf(),
        ensures
            final(self).wf(),
            final(self)@ == old(self)@.aborted(),
    {
        self.cache.abort_block();
    }

    /// Carries out the part of a step that concerns the watch cache.
    pub fn apply(&mut self, step: &OfferStep)
        requires
            old(self).wf(),
        ensures
            final(self).wf(),
            final(self)@ == (CacheView {
                entries: entries_after_step(old(self)@.entries, *step),
                ..old(self)@
            }),
    {
        match step {
            OfferStep::Watch { outpoint, entry } => self.cache.insert(*outpoint, *entry),
            OfferStep::Unwatch { outpoint } => self.cache.remove(outpoint),
            _ => {},
        }
    }

    /// What follows from the creation of an offer at an output.
    pub fn seed_creation_pending_offer_utxo(
        offer_id: i64,
        txid: Txid,
        vout: u32,
        block_height: u64,
    ) -> (r: OfferPlan)
        ensures
            r@ == OfferPlanView::running(
                watch_steps(offer_id, txid, vout, UtxoType::PendingOffer, block_height),
            ),
    {
        let mut plan = OfferPlan::new();
        OffersTracker::plan_watch(
            &mut plan,
            offer_id,
            txid,
            vout,
            UtxoType::PendingOffer,
            block_height,
        );
        plan
    }

    /// The record of a new output of an offer.
    pub fn new_offer_utxo_model(
        offer_id: i64,
        txid: Txid,
        vout: u32,
        utxo_type: UtxoType,
        block_height: u64,
    ) -> (r: OfferUtxoModel)
        ensures
            r == new_utxo(offer_id, txid, vout, utxo_type, block_height),
    {
        OfferUtxoModel {
            offer_id,
            txid,
            vout: #[verifier::truncate]
            (vout as i32),
            utxo_type,
            created_at_height: #[verifier::truncate]
            (block_height as i64),
            spent_at_height: None,
            spent_txid: None,
        }
    }

    /// The record of an output that only marks how an offer ended.
    fn closing_utxo_model(
        offer_id: i64,
        txid: Txid,
        utxo_type: UtxoType,
        block_height: u64,
    ) -> (r: OfferUtxoModel)
        ensures
            r == closing_utxo(offer_id, txid, utxo_type, block_height),
    {
        OfferUtxoModel {
            spent_at_height: Some(
                #[verifier::truncate]
                (block_height as i64),
            ),
            spent_txid: Some(txid),
            ..OffersTracker::new_offer_utxo_model(offer_id, txid, 0, utxo_type, block_height)
        }
    }

    fn plan_watch(
        plan: &mut OfferPlan,
        offer_id: i64,
        txid: Txid,
        vout: u32,
        utxo_type: UtxoType,
        block_height: u64,
    )
        requires
            old(plan).error is None,
        ensures
            final(plan)@ == old(plan)@.followed_by(
                OfferPlanView::running(watch_steps(offer_id, txid, vout, utxo_type, block_height)),
            ),
    {
        let utxo = OffersTracker::new_offer_utxo_model(
            offer_id,
            txid,
            vout,
            utxo_type,
            block_height,
        );
        plan.push(OfferStep::InsertUtxo { utxo });
        plan.push(
            OfferStep::Watch {
                outpoint: OutPoint { txid, vout },
                entry: OffersWatchEntry { offer_id, utxo_type },
            },
        );
    }

    fn plan_spend(outpoint: &OutPoint, txid: Txid, block_height: u64) -> (r: OfferPlan)
        ensures
            r@ == OfferPlanView::running(spend_steps(*outpoint, txid, block_height)),
    {
        let mut plan = OfferPlan::new();
        plan.push(OfferStep::SpendUtxo { outpoint: *outpoint, block_height, txid });
        plan.push(OfferStep::Unwatch { outpoint: *outpoint });
        plan
    }

    /// What follows from a transaction spending a watched output.
    pub fn on_spend(
        tx: &Transaction,
        old_outpoint: &OutPoint,
        offer_id: i64,
        utxo_type: UtxoType,
        block_height: u64,
    ) -> (r: OfferSpendAction)
        ensures
            r@ == spend_action(
                *old_outpoint,
                OffersWatchEntry { offer_id, utxo_type },
                tx@,
                block_height,
            ),
    {
        match utxo_type {
            UtxoType::PendingOffer => if OffersTracker::is_offer_cancellation_tx(tx) {
                let plan = OffersTracker::handle_offer_cancellation(
                    old_outpoint,
                    offer_id,
                    tx.txid,
                    block_height,
                );
                OfferSpendAction::Run { plan }
            } else {
                let plan = OffersTracker::handle_offer_acceptance(
                    old_outpoint,
                    offer_id,
                    tx.txid,
                    block_height,
                );
                OfferSpendAction::Run { plan }
            },
            UtxoType::ActiveOffer => OfferSpendAction::Classify {
                outpoint: *old_outpoint,
                offer_id,
            },
            UtxoType::BorrowerPrincipal => {
                let plan = OffersTracker::handle_borrower_principal_spend(
                    old_outpoint,
                    tx.txid,
                    block_height,
                );
                OfferSpendAction::Run { plan }
            },
            _ => OfferSpendAction::Unexpected { utxo_type },
        }
    }

    /// What follows from a transaction spending an active offer. An offer whose
    /// vaults held nothing to take down before it has not been repaid yet.
    pub fn on_active_offer_spend<A>(
        tx: &Transaction,
        old_outpoint: &OutPoint,
        offer_id: i64,
        offer: &OfferModel,
        kind: &ActiveOfferSpendKind,
        vault_amounts_before: &Option<A>,
        block_height: u64,
    ) -> (r: OfferPlan)
        ensures
            r@ == active_spend_plan(
                *old_outpoint,
                offer_id,
                tx@,
                *offer,
                *kind,
                *vault_amounts_before is None,
                block_height,
            ),
    {
        let is_first_repayment = vault_amounts_before.is_none();
        match kind {
            ActiveOfferSpendKind::FullRepayment {
                scan,
                supply_goals,
            } => OffersTracker::handle_loan_repayment(
                old_outpoint,
                offer_id,
                tx,
                offer,
                scan,
                supply_goals,
                is_first_repayment,
                block_height,
            ),
            ActiveOfferSpendKind::PartialRepayment {
                scan,
                amounts,
                vaults_after,
            } => OffersTracker::handle_partial_repayment(
                old_outpoint,
                offer_id,
                tx,
                scan,
                amounts,
                vaults_after,
                is_first_repayment,
                block_height,
            ),
            ActiveOfferSpendKind::Liquidation => OffersTracker::handle_loan_liquidation(
                old_outpoint,
                offer_id,
                tx.txid,
                block_height,
            ),
        }
    }

    /// What follows from a borrower withdrawing a pending offer.
    pub fn handle_offer_cancellation(
        old_outpoint: &OutPoint,
        offer_id: i64,
        txid: Txid,
        block_height: u64,
    ) -> (r: OfferPlan)
        ensures
            r@ == cancellation_plan(*old_outpoint, offer_id, txid, block_height),
    {
        let mut plan = OffersTracker::plan_spend(old_outpoint, txid, block_height);
        plan.push(
            OfferStep::UpdateStatus { offer_id, status: OfferStatus::Cancelled, block_height },
        );
        plan.push(
            OfferStep::UpdateDebtAndCollateral { offer_id, debt: 0, collateral: 0, block_height },
        );
        let utxo = OffersTracker::closing_utxo_model(
            offer_id,
            txid,
            UtxoType::Cancellation,
            block_height,
        );
        plan.push(OfferStep::InsertUtxo { utxo });
        plan
    }

    /// What follows from a lender accepting a pending offer.
    pub fn handle_offer_acceptance(
        old_outpoint: &OutPoint,
        offer_id: i64,
        txid: Txid,
        block_height: u64,
    ) -> (r: OfferPlan)
        ensures
            r@ == acceptance_plan(*old_outpoint, offer_id, txid, block_height),
    {
        let mut plan = OffersTracker::plan_spend(old_outpoint, txid, block_height);
        plan.push(
            OfferStep::UpdateStatus { offer_id, status: OfferStatus::Active, block_height },
        );
        OffersTracker::plan_watch(
            &mut plan,
            offer_id,
            txid,
            0,
            UtxoType::ActiveOffer,
            block_height,
        );
        OffersTracker::plan_watch(
            &mut plan,
            offer_id,
            txid,
            1,
            UtxoType::BorrowerPrincipal,
            block_height,
        );
        plan
    }

    /// What follows from the borrower spending the principal.
    pub fn handle_borrower_principal_spend(
        old_outpoint: &OutPoint,
        txid: Txid,
        block_height: u64,
    ) -> (r: OfferPlan)
        ensures
            r@ == OfferPlanView::running(spend_steps(*old_outpoint, txid, block_height)),
    {
        OffersTracker::plan_spend(old_outpoint, txid, block_height)
    }

    fn plan_create_vault(
        tx: &Transaction,
        offer_id: i64,
        vault_type: VaultType,
        vout: u32,
        progress: VaultProgress,
        block_height: u64,
        error: OffersError,
    ) -> (r: OfferPlan)
        ensures
            r@ == create_vault_plan(
                tx@,
                offer_id,
                vault_type,
                vout,
                progress,
                block_height,
                error,
            ),
    {
        match explicit_output_amount(tx, vout) {
            Some(amount) => {
                let mut plan = OfferPlan::new();
                plan.push(
                    OfferStep::CreateVault {
                        outpoint: OutPoint { txid: tx.txid, vout },
                        vault: VaultWatchEntry {
                            offer_id,
                            vault_type,
                            amount,
                            already_supplied: progress.already_supplied,
                            is_finalized: progress.is_finalized,
                        },
                        block_height,
                    },
                );
                plan
            },
            None => OfferPlan::failed(error),
        }
    }

    fn plan_vaults(
        tx: &Transaction,
        offer_id: i64,
        scan: &LendingOfferRepaymentScan,
        progress: &Option<VaultsProgress>,
        debt_after: u64,
        is_full: bool,
        is_first_repayment: bool,
        block_height: u64,
    ) -> (r: OfferPlan)
        ensures
            r@ == vaults_plan(
                tx@,
                offer_id,
                *scan,
                *progress,
                debt_after,
                is_full,
                is_first_repayment,
                block_height,
            ),
    {
        let progress = match progress {
            Some(progress) => *progress,
            None => {
                return OfferPlan::failed(OffersError::LendingParameters);
            },
        };
        if is_first_repayment {
            let mut plan = OffersTracker::plan_create_vault(
                tx,
                offer_id,
                VaultType::Lender,
                scan.lender_vault_vout,
                progress.lender,
                block_height,
                OffersError::LenderVaultOutput { is_full },
            );
            if plan.error.is_some() {
                return plan;
            }
            if let Some(vout) = scan.protocol_fee_vault_vout {
                plan.append(
                    OffersTracker::plan_create_vault(
                        tx,
                        offer_id,
                        VaultType::ProtocolFee,
                        vout,
                        progress.protocol_fee,
                        block_height,
                        OffersError::ProtocolFeeVaultOutput { is_full },
                    ),
                );
            }
            plan
        } else {
            let mut plan = OfferPlan::new();
            plan.push(
                OfferStep::SupplyVault {
                    offer_id,
                    vault_type: VaultType::Lender,
                    debt_after,
                    block_height,
                },
            );
            if scan.protocol_fee_vault_vout.is_some() {
                plan.push(
                    OfferStep::SupplyVault {
                        offer_id,
                        vault_type: VaultType::ProtocolFee,
                        debt_after,
                        block_height,
                    },
                );
            }
            plan
        }
    }

    /// What follows from a partial repayment of an active offer.
    pub fn handle_partial_repayment(
        old_outpoint: &OutPoint,
        offer_id: i64,
        tx: &Transaction,
        scan: &LendingOfferRepaymentScan,
        amounts: &Option<PartialRepaymentAmounts>,
        vaults_after: &Option<VaultsProgress>,
        is_first_repayment: bool,
        block_height: u64,
    ) -> (r: OfferPlan)
        ensures
            r@ == partial_repayment_plan(
                *old_outpoint,
                offer_id,
                tx@,
                *scan,
                *amounts,
                *vaults_after,
                is_first_repayment,
                block_height,
            ),
    {
        let continuing_vout = match scan.continuing_offer_vout {
            Some(vout) => vout,
            None => {
                return OfferPlan::failed(OffersError::MissingContinuingVout);
            },
        };
        let amounts = match amounts {
            Some(amounts) => *amounts,
            None => {
                return OfferPlan::failed(OffersError::RepaymentAmounts);
            },
        };
        let mut plan = OffersTracker::plan_spend(old_outpoint, tx.txid, block_height);
        plan.push(
            OfferStep::UpdateDebtAndCollateral {
                offer_id,
                debt: #[verifier::truncate]
                (amounts.debt_after as i64),
                collateral: #[verifier::truncate]
                (amounts.collateral_after as i64),
                block_height,
            },
        );
        let repayment = OfferRepaymentModel {
            id: 0,
            offer_id,
            txid: tx.txid,
            height: #[verifier::truncate]
            (block_height as i64),
            amount_repaid: #[verifier::truncate]
            (amounts.amount_repaid as i64),
            collateral_unlocked: #[verifier::truncate]
            (amounts.collateral_unlocked as i64),
            debt_before: #[verifier::truncate]
            (amounts.debt_before as i64),
            debt_after: #[verifier::truncate]
            (amounts.debt_after as i64),
            collateral_before: #[verifier::truncate]
            (amounts.collateral_before as i64),
            collateral_after: #[verifier::truncate]
            (amounts.collateral_after as i64),
            is_full: false,
        };
        plan.push(OfferStep::InsertRepayment { repayment });
        plan.append(
            OffersTracker::plan_vaults(
                tx,
                offer_id,
                scan,
                vaults_after,
                amounts.debt_after,
                false,
                is_first_repayment,
                block_height,
            ),
        );
        if plan.error.is_some() {
            return plan;
        }
        OffersTracker::plan_watch(
            &mut plan,
            offer_id,
            tx.txid,
            continuing_vout,
            UtxoType::ActiveOffer,
            block_height,
        );
        plan
    }

    /// What follows from a full repayment of an active offer.
    pub fn handle_loan_repayment(
        old_outpoint: &OutPoint,
        offer_id: i64,
        tx: &Transaction,
        offer: &OfferModel,
        scan: &LendingOfferRepaymentScan,
        supply_goals: &Option<SupplyGoals>,
        is_first_repayment: bool,
        block_height: u64,
    ) -> (r: OfferPlan)
        ensures
            r@ == full_repayment_plan(
                *old_outpoint,
                offer_id,
                tx@,
                *offer,
                *scan,
                *supply_goals,
                is_first_repayment,
                block_height,
            ),
    {
        let mut plan = OffersTracker::plan_spend(old_outpoint, tx.txid, block_height);
        let repayment = OfferRepaymentModel {
            id: 0,
            offer_id,
            txid: tx.txid,
            height: #[verifier::truncate]
            (block_height as i64),
            amount_repaid: #[verifier::truncate]
            (scan.amount_to_repay as i64),
            collateral_unlocked: offer.collateral_remaining,
            debt_before: #[verifier::truncate]
            (scan.debt_before as i64),
            debt_after: #[verifier::truncate]
            (scan.debt_after as i64),
            collateral_before: offer.collateral_remaining,
            collateral_after: 0,
            is_full: true,
        };
        plan.push(OfferStep::InsertRepayment { repayment });
        // A full repayment fills both vaults.
        let vaults_after = match supply_goals {
            Some(goals) => Some(
                VaultsProgress {
                    lender: VaultProgress { already_supplied: goals.lender, is_finalized: true },
                    protocol_fee: VaultProgress {
                        already_supplied: goals.protocol_fee,
                        is_finalized: true,
                    },
                },
            ),
            None => None,
        };
        plan.append(
            OffersTracker::plan_vaults(
                tx,
                offer_id,
                scan,
                &vaults_after,
                scan.debt_after,
                true,
                is_first_repayment,
                block_height,
            ),
        );
        if plan.error.is_some() {
            return plan;
        }
        plan.push(
            OfferStep::UpdateDebtAndCollateral { offer_id, debt: 0, collateral: 0, block_height },
        );
        plan.push(
            OfferStep::UpdateStatus { offer_id, status: OfferStatus::Repaid, block_height },
        );
        plan
    }

    /// What follows from a lender seizing the collateral of an active offer.
    pub fn handle_loan_liquidation(
        old_outpoint: &OutPoint,
        offer_id: i64,
        txid: Txid,
        block_height: u64,
    ) -> (r: OfferPlan)
        ensures
            r@ == liquidation_plan(*old_outpoint, offer_id, txid, block_height),
    {
        let mut plan = OffersTracker::plan_spend(old_outpoint, txid, block_height);
        plan.push(
            OfferStep::UpdateDebtAndCollateral { offer_id, debt: 0, collateral: 0, block_height },
        );
        plan.push(
            OfferStep::UpdateStatus { offer_id, status: OfferStatus::Liquidated, block_height },
        );
        let utxo = OffersTracker::closing_utxo_model(
            offer_id,
            txid,
            UtxoType::Liquidation,
            block_height,
        );
        plan.push(OfferStep::InsertUtxo { utxo });
        plan
    }

    /// Whether a transaction that spends a pending offer withdraws it.
    pub fn is_offer_cancellation_tx(tx: &Transaction) -> (r: bool)
        ensures
            r == cancels_offer(tx@),
    {
        if tx.output.len() < 4 {
            return false;
        }
        tx.output[0].is_null_data() && tx.output[1].is_null_data() && !tx.output[2].is_null_data()
    }
}

/// The explicit value of the output at an index, if there is one.
pub fn explicit_output_amount(tx: &Transaction, vout: u32) -> (r: Option<u64>)
    ensures
        r == explicit_amount(tx@.output, vout),
{
    let at = vout as usize;
    if at < tx.output.len() {
        tx.output[at].value
    } else {
        None
    }
}

} // verus!
