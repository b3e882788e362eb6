//! What every step of a plan does, in terms of the transaction and of the offer.

use crate::chain::{null_data, OutPoint, TransactionView, TxIn, TxOutView, Txid};
use crate::models::{
    OfferModel, OfferStatus, OfferUtxoModel, UtxoType, VaultType, VaultWatchEntry,
};
use crate::offers::{
    active_spend_plan, cancels_offer, explicit_amount, new_utxo, spend_action,
    spends_active_offer, watch_steps, watched_records, ActiveOfferSpendKind,
    LendingOfferRepaymentScan, OfferPlan, OfferSpendAction, OfferSpendActionView, OfferStep,
    OffersError, OffersWatchEntry, PartialRepaymentAmounts, SupplyGoals, VaultsProgress,
};
use vstd::prelude::*;

verus! {

/// Whether a record is of an output of an offer, as it is created at a height.
pub open spec fn records_output(
    utxo: OfferUtxoModel,
    offer_id: i64,
    outpoint: OutPoint,
    utxo_type: UtxoType,
    block_height: u64,
) -> bool {
    &&& utxo.offer_id == offer_id
    &&& utxo.txid == outpoint.txid
    &&& utxo.vout == outpoint.vout as i32
    &&& utxo.utxo_type == utxo_type
    &&& utxo.created_at_height == block_height as i64
}

/// Whether the record of an output is of one that is not spent.
pub open spec fn is_unspent(utxo: OfferUtxoModel) -> bool {
    utxo.spent_at_height is None && utxo.spent_txid is None
}

/// Whether the first two outputs of a transaction are null data and the third is not, with
/// at least one more behind it.
pub open spec fn burns_two_then_pays(tx: TransactionView) -> bool {
    &&& 4 <= tx.output.len()
    &&& null_data(tx.output[0].script_pubkey)
    &&& null_data(tx.output[1].script_pubkey)
    &&& !null_data(tx.output[2].script_pubkey)
}

/// Whether a transaction cancels a pending offer depends on its first three outputs and
/// on there being a fourth, and on nothing else.
pub proof fn law_first_three_outputs_tell_a_cancellation(tx: TransactionView)
    ensures
        cancels_offer(tx) <==> burns_two_then_pays(tx),
{
}

/// Outputs behind the fourth change nothing about what a transaction does to the output
/// that it spends.
pub proof fn law_further_outputs_do_not_matter(
    old_outpoint: OutPoint,
    entry: OffersWatchEntry,
    tx: TransactionView,
    more: Seq<TxOutView>,
    block_height: u64,
)
    requires
        4 <= tx.output.len(),
    ensures
        spend_action(
            old_outpoint,
            entry,
            TransactionView { output: tx.output + more, ..tx },
            block_height,
        ) == spend_action(old_outpoint, entry, tx, block_height),
{
}

/// Neither do the inputs, the values or the assets of a transaction: two transactions with
/// one id, four outputs or more each and the same first three scripts do the same.
pub proof fn law_only_the_first_three_scripts_matter(
    old_outpoint: OutPoint,
    entry: OffersWatchEntry,
    tx: TransactionView,
    other: TransactionView,
    block_height: u64,
)
    requires
        4 <= tx.output.len(),
        4 <= other.output.len(),
        tx.txid == other.txid,
        forall|k: int|
            0 <= k < 3 ==> (#[trigger] tx.output[k]).script_pubkey == other.output[k].script_pubkey,
    ensures
        spend_action(old_outpoint, entry, tx, block_height) == spend_action(
            old_outpoint,
            entry,
            other,
            block_height,
        ),
{
    assert(tx.output[0].script_pubkey == other.output[0].script_pubkey);
    assert(tx.output[1].script_pubkey == other.output[1].script_pubkey);
    assert(tx.output[2].script_pubkey == other.output[2].script_pubkey);
}

/// A transaction that burns the first two outputs and pays the third cancels a pending
/// offer that it spends. The spent output is recorded as spent and unwatched, the offer
/// is left cancelled with nothing owed and nothing held, and the first output is recorded
/// as spent on the spot. Nothing is watched.
pub proof fn law_cancellation_closes_the_offer(
    old_outpoint: OutPoint,
    entry: OffersWatchEntry,
    tx: TransactionView,
    block_height: u64,
)
    requires
        entry.utxo_type == UtxoType::PendingOffer,
        burns_two_then_pays(tx),
    ensures
        spend_action(old_outpoint, entry, tx, block_height) matches OfferSpendActionView::Run {
            plan,
        } && {
            &&& plan.error is None
            &&& plan.steps.len() == 5
            &&& forall|i: int|
                0 <= i < plan.steps.len() ==> match #[trigger] plan.steps[i] {
                    OfferStep::SpendUtxo { outpoint, block_height: height, txid } => i == 0
                        && outpoint == old_outpoint && height == block_height && txid == tx.txid,
                    OfferStep::Unwatch { outpoint } => i == 1 && outpoint == old_outpoint,
                    OfferStep::UpdateStatus { offer_id, status, block_height: height } => i == 2
                        && offer_id == entry.offer_id && status == OfferStatus::Cancelled && height
                        == block_height,
                    OfferStep::UpdateDebtAndCollateral {
                        offer_id,
                        debt,
                        collateral,
                        block_height: height,
                    } => i == 3 && offer_id == entry.offer_id && debt == 0 && collateral == 0
                        && height == block_height,
                    OfferStep::InsertUtxo { utxo } => i == 4 && records_output(
                        utxo,
                        entry.offer_id,
                        OutPoint { txid: tx.txid, vout: 0 },
                        UtxoType::Cancellation,
                        block_height,
                    ) && utxo.spent_at_height == Some(block_height as i64) && utxo.spent_txid
                        == Some(tx.txid),
                    _ => false,
                }
        },
{
}

/// Any other transaction that spends a pending offer accepts it. The spent output is
/// recorded as spent and unwatched, the offer is left active, and first the active offer
/// at the first output and then the principal at the second are recorded as unspent and
/// watched. What is owed and held stays as it is.
pub proof fn law_acceptance_activates_the_offer(
    old_outpoint: OutPoint,
    entry: OffersWatchEntry,
    tx: TransactionView,
    block_height: u64,
)
    requires
        entry.utxo_type == UtxoType::PendingOffer,
        !burns_two_then_pays(tx),
    ensures
        spend_action(old_outpoint, entry, tx, block_height) matches OfferSpendActionView::Run {
            plan,
        } && {
            &&& plan.error is None
            &&& plan.steps.len() == 7
            &&& forall|i: int|
                0 <= i < plan.steps.len() ==> match #[trigger] plan.steps[i] {
                    OfferStep::SpendUtxo { outpoint, block_height: height, txid } => i == 0
                        && outpoint == old_outpoint && height == block_height && txid == tx.txid,
                    OfferStep::Unwatch { outpoint } => i == 1 && outpoint == old_outpoint,
                    OfferStep::UpdateStatus { offer_id, status, block_height: height } => i == 2
                        && offer_id == entry.offer_id && status == OfferStatus::Active && height
                        == block_height,
                    OfferStep::InsertUtxo { utxo } => is_unspent(utxo) && match utxo.utxo_type {
                        UtxoType::ActiveOffer => i == 3 && records_output(
                            utxo,
                            entry.offer_id,
                            OutPoint { txid: tx.txid, vout: 0 },
                            UtxoType::ActiveOffer,
                            block_height,
                        ),
                        UtxoType::BorrowerPrincipal => i == 5 && records_output(
                            utxo,
                            entry.offer_id,
                            OutPoint { txid: tx.txid, vout: 1 },
                            UtxoType::BorrowerPrincipal,
                            block_height,
                        ),
                        _ => false,
                    },
                    OfferStep::Watch { outpoint, entry: watched } => outpoint.txid == tx.txid
                        && watched.offer_id == entry.offer_id && match watched.utxo_type {
                        UtxoType::ActiveOffer => i == 4 && outpoint.vout == 0,
                        UtxoType::BorrowerPrincipal => i == 6 && outpoint.vout == 1,
                        _ => false,
                    },
                    _ => false,
                }
        },
{
}

/// Spending the principal only records that and unwatches it, an active offer has to be
/// classified, and an output that closed an offer is not expected to be spent: whatever
/// the transaction looks like.
pub proof fn law_other_outputs_are_spent_classified_or_left(
    old_outpoint: OutPoint,
    entry: OffersWatchEntry,
    tx: TransactionView,
    block_height: u64,
)
    ensures
        entry.utxo_type == UtxoType::BorrowerPrincipal ==> (spend_action(
            old_outpoint,
            entry,
            tx,
            block_height,
        ) matches OfferSpendActionView::Run { plan } && {
            &&& plan.error is None
            &&& plan.steps.len() == 2
            &&& plan.steps[0] == (OfferStep::SpendUtxo {
                outpoint: old_outpoint,
                block_height,
                txid: tx.txid,
            })
            &&& plan.steps[1] == (OfferStep::Unwatch { outpoint: old_outpoint })
        }),
        spend_action(old_outpoint, entry, tx, block_height) is Classify <==> entry.utxo_type
            == UtxoType::ActiveOffer,
        spend_action(old_outpoint, entry, tx, block_height) matches OfferSpendActionView::Classify {
            outpoint,
            offer_id,
        } ==> outpoint == old_outpoint && offer_id == entry.offer_id,
        spend_action(old_outpoint, entry, tx, block_height) is Unexpected <==> (entry.utxo_type
            == UtxoType::Cancellation || entry.utxo_type == UtxoType::Liquidation),
        spend_action(
            old_outpoint,
            entry,
            tx,
            block_height,
        ) matches OfferSpendActionView::Unexpected { utxo_type } ==> utxo_type == entry.utxo_type,
        !(spend_action(old_outpoint, entry, tx, block_height) is Finished),
{
}

/// The vaults of exactly those offers are taken down that a transaction spends and that
/// have to be classified for it.
pub proof fn law_vaults_are_taken_down_for_what_is_classified(
    entries: Map<OutPoint, OffersWatchEntry>,
    input: TxIn,
    tx: TransactionView,
    block_height: u64,
    offer_id: i64,
)
    ensures
        spends_active_offer(entries, input, offer_id) <==> (entries.contains_key(
            input.previous_output,
        ) && spend_action(
            input.previous_output,
            entries[input.previous_output],
            tx,
            block_height,
        ) == (OfferSpendActionView::Classify { outpoint: input.previous_output, offer_id })),
{
}

/// The explicit value of a transaction's output, where it has such an output and the value
/// is explicit.
pub open spec fn value_at(tx: TransactionView, vout: u32) -> Option<u64> {
    if vout < tx.output.len() && tx.output[vout as int].value is Some {
        tx.output[vout as int].value
    } else {
        None
    }
}

/// The amount of an output is the explicit value of the output at that very index, and
/// there is none where there is no such output or its value is not explicit.
pub proof fn law_explicit_amount_is_of_the_output_at_its_index(tx: TransactionView, vout: u32)
    ensures
        explicit_amount(tx.output, vout) is Some <==> (vout < tx.output.len()
            && tx.output[vout as int].value is Some),
        explicit_amount(tx.output, vout) matches Some(amount) ==> tx.output[vout as int].value
            == Some(amount),
{
}

/// What stops a repayment at the vaults, if anything does: missing parameters, or on the
/// first repayment an output with no explicit value where a vault is to be opened, the
/// lender's before the protocol's.
pub open spec fn vaults_error(
    tx: TransactionView,
    scan: LendingOfferRepaymentScan,
    has_parameters: bool,
    is_full: bool,
    is_first_repayment: bool,
) -> Option<OffersError> {
    if !has_parameters {
        Some(OffersError::LendingParameters)
    } else if is_first_repayment && value_at(tx, scan.lender_vault_vout) is None {
        Some(OffersError::LenderVaultOutput { is_full })
    } else if is_first_repayment && scan.protocol_fee_vault_vout is Some && value_at(
        tx,
        scan.protocol_fee_vault_vout->0,
    ) is None {
        Some(OffersError::ProtocolFeeVaultOutput { is_full })
    } else {
        None
    }
}

/// How many vaults a repayment gets to, when an error may stop it there.
pub open spec fn vaults_reached(
    scan: LendingOfferRepaymentScan,
    error: Option<OffersError>,
) -> int {
    match error {
        Some(OffersError::ProtocolFeeVaultOutput { .. }) => 1,
        Some(_) => 0,
        None => if scan.protocol_fee_vault_vout is Some {
            2
        } else {
            1
        },
    }
}

/// Whether a vault is opened at the output that is it: one of the transaction's own, at
/// the index that the scan shows for this kind of vault, with the explicit value of that
/// very output, and filled as far as is known.
pub open spec fn opened_at_its_output(
    outpoint: OutPoint,
    vault: VaultWatchEntry,
    tx: TransactionView,
    offer_id: i64,
    scan: LendingOfferRepaymentScan,
) -> bool {
    &&& outpoint.txid == tx.txid
    &&& outpoint.vout < tx.output.len()
    &&& tx.output[outpoint.vout as int].value == Some(vault.amount)
    &&& vault.offer_id == offer_id
    &&& match vault.vault_type {
        VaultType::Lender => outpoint.vout == scan.lender_vault_vout,
        VaultType::ProtocolFee => scan.protocol_fee_vault_vout == Some(outpoint.vout),
    }
}

/// A partial repayment that does not fail at the outset records the output as spent and
/// unwatches it, then leaves the offer with the debt and the collateral that the amounts
/// give, then records the repayment with all its amounts, then sees to the vaults, and,
/// unless that stops it, records and watches the active offer at the output that continues
/// it. Neither the shown outputs nor the vaults have a say in what is owed and held, and
/// the offer's status stays as it is.
pub proof fn law_partial_repayment_reduces_the_offer(
    old_outpoint: OutPoint,
    offer_id: i64,
    tx: TransactionView,
    offer: OfferModel,
    scan: LendingOfferRepaymentScan,
    amounts: PartialRepaymentAmounts,
    vaults_after: Option<VaultsProgress>,
    is_first_repayment: bool,
    block_height: u64,
)
    requires
        scan.continuing_offer_vout is Some,
    ensures
        ({
            let plan = active_spend_plan(
                old_outpoint,
                offer_id,
                tx,
                offer,
                ActiveOfferSpendKind::PartialRepayment {
                    scan,
                    amounts: Some(amounts),
                    vaults_after,
                },
                is_first_repayment,
                block_height,
            );
            let steps = plan.steps;
            let vout = scan.continuing_offer_vout->0;
            &&& plan.error == vaults_error(
                tx,
                scan,
                vaults_after is Some,
                false,
                is_first_repayment,
            )
            &&& steps.len() == 4 + vaults_reached(scan, plan.error) + if plan.error is None {
                2int
            } else {
                0
            }
            &&& forall|i: int|
                0 <= i < steps.len() ==> match #[trigger] steps[i] {
                    OfferStep::SpendUtxo { outpoint, block_height: height, txid } => i == 0
                        && outpoint == old_outpoint && height == block_height && txid == tx.txid,
                    OfferStep::Unwatch { outpoint } => i == 1 && outpoint == old_outpoint,
                    OfferStep::UpdateDebtAndCollateral {
                        offer_id: of,
                        debt,
                        collateral,
                        block_height: height,
                    } => i == 2 && of == offer_id && debt == amounts.debt_after as i64
                        && collateral == amounts.collateral_after as i64 && height == block_height,
                    OfferStep::InsertRepayment { repayment } => {
                        &&& i == 3
                        &&& repayment.id == 0
                        &&& repayment.offer_id == offer_id
                        &&& repayment.txid == tx.txid
                        &&& repayment.height == block_height as i64
                        &&& repayment.amount_repaid == amounts.amount_repaid as i64
                        &&& repayment.collateral_unlocked == amounts.collateral_unlocked as i64
                        &&& repayment.debt_before == amounts.debt_before as i64
                        &&& repayment.debt_after == amounts.debt_after as i64
                        &&& repayment.collateral_before == amounts.collateral_before as i64
                        &&& repayment.collateral_after == amounts.collateral_after as i64
                        &&& !repayment.is_full
                    },
                    OfferStep::CreateVault { outpoint, vault, block_height: height } => {
                        &&& is_first_repayment
                        &&& height == block_height
                        &&& opened_at_its_output(outpoint, vault, tx, offer_id, scan)
                        &&& match vault.vault_type {
                            VaultType::Lender => i == 4 && vault.already_supplied
                                == vaults_after->0.lender.already_supplied && vault.is_finalized
                                == vaults_after->0.lender.is_finalized,
                            VaultType::ProtocolFee => i == 5 && vault.already_supplied
                                == vaults_after->0.protocol_fee.already_supplied
                                && vault.is_finalized
                                == vaults_after->0.protocol_fee.is_finalized,
                        }
                    },
                    OfferStep::SupplyVault {
                        offer_id: of,
                        vault_type,
                        debt_after,
                        block_height: height,
                    } => {
                        &&& !is_first_repayment
                        &&& of == offer_id
                        &&& debt_after == amounts.debt_after
                        &&& height == block_height
                        &&& match vault_type {
                            VaultType::Lender => i == 4,
                            VaultType::ProtocolFee => i == 5 && scan.protocol_fee_vault_vout is Some,
                        }
                    },
                    OfferStep::InsertUtxo { utxo } => plan.error is None && i == steps.len() - 2
                        && is_unspent(utxo) && records_output(
                        utxo,
                        offer_id,
                        OutPoint { txid: tx.txid, vout },
                        UtxoType::ActiveOffer,
                        block_height,
                    ),
                    OfferStep::Watch { outpoint, entry } => plan.error is None && i == steps.len()
                        - 1 && outpoint.txid == tx.txid && outpoint.vout == vout && entry.offer_id
                        == offer_id && entry.utxo_type == UtxoType::ActiveOffer,
                    OfferStep::UpdateStatus { .. } => false,
                }
        }),
{
}

/// A partial repayment of which no output continues the offer, or whose amounts are not
/// known, fails with nothing done, for the first of these reasons where both hold.
pub proof fn law_partial_repayment_can_fail_at_the_outset(
    old_outpoint: OutPoint,
    offer_id: i64,
    tx: TransactionView,
    offer: OfferModel,
    scan: LendingOfferRepaymentScan,
    amounts: Option<PartialRepaymentAmounts>,
    vaults_after: Option<VaultsProgress>,
    is_first_repayment: bool,
    block_height: u64,
)
    ensures
        ({
            let plan = active_spend_plan(
                old_outpoint,
                offer_id,
                tx,
                offer,
                ActiveOfferSpendKind::PartialRepayment { scan, amounts, vaults_after },
                is_first_repayment,
                block_height,
            );
            &&& plan.steps.len() == 0 <==> (scan.continuing_offer_vout is None || amounts is None)
            &&& plan.error == Some(OffersError::MissingContinuingVout)
                <==> scan.continuing_offer_vout is None
            &&& plan.error == Some(OffersError::RepaymentAmounts) <==> (
            scan.continuing_offer_vout is Some && amounts is None)
        }),
{
}

/// A full repayment records the output as spent and unwatches it, then records the
/// repayment, which unlocks all collateral that the offer held, then sees to the vaults,
/// which it fills, and, unless that stops it, leaves the offer repaid, with nothing owed
/// and nothing held. Nothing is watched.
pub proof fn law_full_repayment_settles_the_offer(
    old_outpoint: OutPoint,
    offer_id: i64,
    tx: TransactionView,
    offer: OfferModel,
    scan: LendingOfferRepaymentScan,
    supply_goals: Option<SupplyGoals>,
    is_first_repayment: bool,
    block_height: u64,
)
    ensures
        ({
            let plan = active_spend_plan(
                old_outpoint,
                offer_id,
                tx,
                offer,
                ActiveOfferSpendKind::FullRepayment { scan, supply_goals },
                is_first_repayment,
                block_height,
            );
            let steps = plan.steps;
            &&& plan.error == vaults_error(
                tx,
                scan,
                supply_goals is Some,
                true,
                is_first_repayment,
            )
            &&& steps.len() == 3 + vaults_reached(scan, plan.error) + if plan.error is None {
                2int
            } else {
                0
            }
            &&& forall|i: int|
                0 <= i < steps.len() ==> match #[trigger] steps[i] {
                    OfferStep::SpendUtxo { outpoint, block_height: height, txid } => i == 0
                        && outpoint == old_outpoint && height == block_height && txid == tx.txid,
                    OfferStep::Unwatch { outpoint } => i == 1 && outpoint == old_outpoint,
                    OfferStep::InsertRepayment { repayment } => {
                        &&& i == 2
                        &&& repayment.id == 0
                        &&& repayment.offer_id == offer_id
                        &&& repayment.txid == tx.txid
                        &&& repayment.height == block_height as i64
                        &&& repayment.amount_repaid == scan.amount_to_repay as i64
                        &&& repayment.collateral_unlocked == offer.collateral_remaining
                        &&& repayment.debt_before == scan.debt_before as i64
                        &&& repayment.debt_after == scan.debt_after as i64
                        &&& repayment.collateral_before == offer.collateral_remaining
                        &&& repayment.collateral_after == 0
                        &&& repayment.is_full
                    },
                    OfferStep::CreateVault { outpoint, vault, block_height: height } => {
                        &&& is_first_repayment
                        &&& height == block_height
                        &&& opened_at_its_output(outpoint, vault, tx, offer_id, scan)
                        &&& vault.is_finalized
                        &&& match vault.vault_type {
                            VaultType::Lender => i == 3 && vault.already_supplied
                                == supply_goals->0.lender,
                            VaultType::ProtocolFee => i == 4 && vault.already_supplied
                                == supply_goals->0.protocol_fee,
                        }
                    },
                    OfferStep::SupplyVault {
                        offer_id: of,
                        vault_type,
                        debt_after,
                        block_height: height,
                    } => {
                        &&& !is_first_repayment
                        &&& of == offer_id
                        &&& debt_after == scan.debt_after
                        &&& height == block_height
                        &&& match vault_type {
                            VaultType::Lender => i == 3,
                            VaultType::ProtocolFee => i == 4 && scan.protocol_fee_vault_vout is Some,
                        }
                    },
                    OfferStep::UpdateDebtAndCollateral {
                        offer_id: of,
                        debt,
                        collateral,
                        block_height: height,
                    } => plan.error is None && i == steps.len() - 2 && of == offer_id && debt == 0
                        && collateral == 0 && height == block_height,
                    OfferStep::UpdateStatus { offer_id: of, status, block_height: height } =>
                    plan.error is None && i == steps.len() - 1 && of == offer_id && status
                        == OfferStatus::Repaid && height == block_height,
                    OfferStep::InsertUtxo { .. } | OfferStep::Watch { .. } => false,
                }
        }),
{
}

/// A liquidation records the output as spent and unwatches it, leaves the offer
/// liquidated, with nothing owed and nothing held, and records the first output of the
/// transaction as spent on the spot. Nothing is watched, and no vault is touched, whether
/// or not the offer was repaid in part before.
pub proof fn law_liquidation_closes_the_offer(
    old_outpoint: OutPoint,
    offer_id: i64,
    tx: TransactionView,
    offer: OfferModel,
    is_first_repayment: bool,
    block_height: u64,
)
    ensures
        ({
            let plan = active_spend_plan(
                old_outpoint,
                offer_id,
                tx,
                offer,
                ActiveOfferSpendKind::Liquidation,
                is_first_repayment,
                block_height,
            );
            &&& plan.error is None
            &&& plan.steps.len() == 5
            &&& forall|i: int|
                0 <= i < plan.steps.len() ==> match #[trigger] plan.steps[i] {
                    OfferStep::SpendUtxo { outpoint, block_height: height, txid } => i == 0
                        && outpoint == old_outpoint && height == block_height && txid == tx.txid,
                    OfferStep::Unwatch { outpoint } => i == 1 && outpoint == old_outpoint,
                    OfferStep::UpdateDebtAndCollateral {
                        offer_id: of,
                        debt,
                        collateral,
                        block_height: height,
                    } => i == 2 && of == offer_id && debt == 0 && collateral == 0 && height
                        == block_height,
                    OfferStep::UpdateStatus { offer_id: of, status, block_height: height } => i
                        == 3 && of == offer_id && status == OfferStatus::Liquidated && height
                        == block_height,
                    OfferStep::InsertUtxo { utxo } => i == 4 && records_output(
                        utxo,
                        offer_id,
                        OutPoint { txid: tx.txid, vout: 0 },
                        UtxoType::Liquidation,
                        block_height,
                    ) && utxo.spent_at_height == Some(block_height as i64) && utxo.spent_txid
                        == Some(tx.txid),
                    _ => false,
                }
        }),
{
}

/// A new output of an offer is recorded as unspent, at the output and the height at which
/// it is created, and then watched as what it is recorded to be.
pub proof fn law_new_output_is_recorded_then_watched(
    offer_id: i64,
    txid: Txid,
    vout: u32,
    utxo_type: UtxoType,
    block_height: u64,
)
    ensures
        ({
            let record = new_utxo(offer_id, txid, vout, utxo_type, block_height);
            let steps = watch_steps(offer_id, txid, vout, utxo_type, block_height);
            &&& is_unspent(record)
            &&& records_output(
                record,
                offer_id,
                OutPoint { txid, vout },
                utxo_type,
                block_height,
            )
            &&& steps.len() == 2
            &&& steps[0] == (OfferStep::InsertUtxo { utxo: record })
            &&& steps[1] matches OfferStep::Watch { outpoint, entry } && outpoint.txid == txid
                && outpoint.vout == vout && entry.offer_id == offer_id && entry.utxo_type
                == utxo_type
        }),
{
}

/// Whether a record tells to watch an output.
pub open spec fn tells_to_watch(record: OfferUtxoModel, outpoint: OutPoint) -> bool {
    record.spent_txid is None && record.txid == outpoint.txid && record.vout as u32
        == outpoint.vout
}

/// Where some record of an output is not spent, a restart watches the output, as what the
/// last such record says.
pub proof fn law_unspent_records_are_watched(
    records: Seq<OfferUtxoModel>,
    outpoint: OutPoint,
    i: int,
)
    requires
        0 <= i < records.len(),
        tells_to_watch(records[i], outpoint),
        forall|j: int| i < j < records.len() ==> !tells_to_watch(#[trigger] records[j], outpoint),
    ensures
        watched_records(records).contains_key(outpoint),
        watched_records(records)[outpoint].offer_id == records[i].offer_id,
        watched_records(records)[outpoint].utxo_type == records[i].utxo_type,
    decreases records.len(),
{
    if i < records.len() - 1 {
        let earlier = records.drop_last();
        assert forall|j: int| i < j < earlier.len() implies !tells_to_watch(
            #[trigger] earlier[j],
            outpoint,
        ) by {
            assert(earlier[j] == records[j]);
        }
        law_unspent_records_are_watched(earlier, outpoint, i);
        assert(!tells_to_watch(records[records.len() - 1], outpoint));
    }
}

/// Where no record of an output is unspent, a restart does not watch the output.
pub proof fn law_other_outputs_are_not_watched(records: Seq<OfferUtxoModel>, outpoint: OutPoint)
    requires
        forall|j: int| 0 <= j < records.len() ==> !tells_to_watch(#[trigger] records[j], outpoint),
    ensures
        !watched_records(records).contains_key(outpoint),
    decreases records.len(),
{
    if records.len() > 0 {
        let earlier = records.drop_last();
        assert forall|j: int| 0 <= j < earlier.len() implies !tells_to_watch(
            #[trigger] earlier[j],
            outpoint,
        ) by {
            assert(earlier[j] == records[j]);
        }
        law_other_outputs_are_not_watched(earlier, outpoint);
        assert(!tells_to_watch(records[records.len() - 1], outpoint));
    }
}

/// A plan and an action say what their fields hold.
pub proof fn law_plans_and_actions_say_what_they_hold(plan: OfferPlan, action: OfferSpendAction)
    ensures
        plan@.steps == plan.steps@,
        plan@.error == plan.error,
        action matches OfferSpendAction::Run { plan: run } ==> action@
            == (OfferSpendActionView::Run { plan: run@ }),
        action matches OfferSpendAction::Classify { outpoint, offer_id } ==> action@
            == (OfferSpendActionView::Classify { outpoint, offer_id }),
        action matches OfferSpendAction::Unexpected { utxo_type } ==> action@
            == (OfferSpendActionView::Unexpected { utxo_type }),
        action matches OfferSpendAction::Finished { offer_spent } ==> action@
            == (OfferSpendActionView::Finished { offer_spent }),
{
}

} // verus!
