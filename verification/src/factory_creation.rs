//! Indexing of newly created issuance factories.

use crate::chain::{bytes_to_hex, hex_of, AssetId, Transaction, TransactionView, Txid};
use vstd::prelude::*;

verus! {

/// What distinguishes one kind of factory from another.
#[derive(Clone, Copy, Debug, PartialEq, Eq, Structural)]
pub struct IssuanceFactoryParameters {
    pub issuing_utxos_count: u8,
    pub reissuance_flags: u64,
}

/// A factory that a transaction creates.
#[derive(Debug, PartialEq)]
pub struct IssuanceFactoryCreation {
    pub parameters: IssuanceFactoryParameters,
    pub factory_asset_id: AssetId,
    pub auth_vout: u32,
    pub program_vout: u32,
    pub auth_script_pubkey: Vec<u8>,
}

/// What an [`IssuanceFactoryCreation`] says.
#[verifier::ext_equal]
pub struct IssuanceFactoryCreationView {
    pub parameters: IssuanceFactoryParameters,
    pub factory_asset_id: AssetId,
    pub auth_vout: u32,
    pub program_vout: u32,
    pub auth_script_pubkey: Seq<u8>,
}

impl View for IssuanceFactoryCreation {
    type V = IssuanceFactoryCreationView;

    open spec fn view(&self) -> IssuanceFactoryCreationView {
        IssuanceFactoryCreationView {
            parameters: self.parameters,
            factory_asset_id: self.factory_asset_id,
            auth_vout: self.auth_vout,
            program_vout: self.program_vout,
            auth_script_pubkey: self.auth_script_pubkey@,
        }
    }
}

/// One step of indexing a factory.
#[derive(Debug, PartialEq)]
pub enum FactoryStep {
    /// Record and watch the output that authorises the factory.
    SeedAuthUtxo {
        factory_id: i64,
        txid: Txid,
        vout: u32,
        script_pubkey: Vec<u8>,
        block_height: u64,
    },
    /// Record and watch the output that holds the factory's program.
    SeedProgramUtxo { factory_id: i64, txid: Txid, vout: u32, block_height: u64 },
    /// Announce the factory.
    NotifyCreated { id: i64, height: u64, factory_auth_script_pubkey: String },
}

/// What a [`FactoryStep`] says.
#[verifier::ext_equal]
pub enum FactoryStepView {
    SeedAuthUtxo {
        factory_id: i64,
        txid: Txid,
        vout: u32,
        script_pubkey: Seq<u8>,
        block_height: u64,
    },
    SeedProgramUtxo { factory_id: i64, txid: Txid, vout: u32, block_height: u64 },
    NotifyCreated { id: i64, height: u64, factory_auth_script_pubkey: Seq<char> },
}

impl View for FactoryStep {
    type V = FactoryStepView;

    open spec fn view(&self) -> FactoryStepView {
        match self {
            FactoryStep::SeedAuthUtxo { factory_id, txid, vout, script_pubkey, block_height } =>
            FactoryStepView::SeedAuthUtxo {
                factory_id: *factory_id,
                txid: *txid,
                vout: *vout,
                script_pubkey: script_pubkey@,
                block_height: *block_height,
            },
            FactoryStep::SeedProgramUtxo { factory_id, txid, vout, block_height } =>
            FactoryStepView::SeedProgramUtxo {
                factory_id: *factory_id,
                txid: *txid,
                vout: *vout,
                block_height: *block_height,
            },
            FactoryStep::NotifyCreated { id, height, factory_auth_script_pubkey } =>
            FactoryStepView::NotifyCreated {
                id: *id,
                height: *height,
                factory_auth_script_pubkey: factory_auth_script_pubkey@,
            },
        }
    }
}

/// The views of a list of steps, in order.
pub open spec fn factory_steps_view(steps: Seq<FactoryStep>) -> Seq<FactoryStepView> {
    Seq::new(steps.len(), |i: int| steps[i]@)
}

/// What has become known about a transaction. `C` is the contract that describes an
/// asset, `E` what the database fails with.
#[derive(Debug, PartialEq)]
pub enum FactoryCreationEvent<C, E> {
    /// The factory that the transaction creates, if any.
    Scanned { found: Option<IssuanceFactoryCreation> },
    /// The factory was stored under an id, or was stored already, or could not be
    /// stored.
    Inserted { created: IssuanceFactoryCreation, stored: Result<Option<i64>, E> },
    /// The steps of indexing were carried out, or one of them failed.
    Indexed { asset_id: AssetId, result: Result<(), E> },
    /// The contract of the asset that the transaction commits to, where it is the one
    /// expected of a factory.
    Verified { asset_id: AssetId, contract: Option<C> },
    /// The registration of the asset was started.
    Registered,
}

/// What a [`FactoryCreationEvent`] says.
#[verifier::ext_equal]
pub enum FactoryCreationEventView<C, E> {
    Scanned { found: Option<IssuanceFactoryCreationView> },
    Inserted { created: IssuanceFactoryCreationView, stored: Result<Option<i64>, E> },
    Indexed { asset_id: AssetId, result: Result<(), E> },
    Verified { asset_id: AssetId, contract: Option<C> },
    Registered,
}

impl<C, E> View for FactoryCreationEvent<C, E> {
    type V = FactoryCreationEventView<C, E>;

    open spec fn view(&self) -> FactoryCreationEventView<C, E> {
        match *self {
            FactoryCreationEvent::Scanned { found } => FactoryCreationEventView::Scanned {
                found: match found {
                    Some(created) => Some(created@),
                    None => None,
                },
            },
            FactoryCreationEvent::Inserted { created, stored } =>
            FactoryCreationEventView::Inserted { created: created@, stored },
            FactoryCreationEvent::Indexed { asset_id, result } =>
            FactoryCreationEventView::Indexed { asset_id, result },
            FactoryCreationEvent::Verified { asset_id, contract } =>
            FactoryCreationEventView::Verified { asset_id, contract },
            FactoryCreationEvent::Registered => FactoryCreationEventView::Registered,
        }
    }
}

impl<C, E> FactoryCreationEventView<C, E> {
    /// How many more events can follow.
    pub open spec fn events_left(self) -> nat {
        match self {
            FactoryCreationEventView::Scanned { .. } => 4,
            FactoryCreationEventView::Inserted { .. } => 3,
            FactoryCreationEventView::Indexed { .. } => 2,
            FactoryCreationEventView::Verified { .. } => 1,
            FactoryCreationEventView::Registered => 0,
        }
    }
}

/// What to do next about a transaction. What comes of it is the next event.
#[derive(Debug, PartialEq)]
pub enum FactoryCreationAction<C, E> {
    /// Store the factory, with the transaction that creates it and its height, unless
    /// it is stored already.
    InsertFactory { created: IssuanceFactoryCreation, txid: Txid, block_height: u64 },
    /// Carry out the steps that index a factory, up to the first that fails.
    Index { asset_id: AssetId, steps: Vec<FactoryStep> },
    /// Find out whether the transaction commits to the contract that is expected of a
    /// factory's asset.
    VerifyContract { asset_id: AssetId },
    /// Start the registration of the asset with its contract. A best effort: wallets
    /// verify the metadata themselves.
    RegisterAsset { asset_id: AssetId, contract: C },
    /// Nothing is left to do. Tells how it went.
    Finished { outcome: Result<(), E> },
}

/// What a [`FactoryCreationAction`] says.
#[verifier::ext_equal]
pub enum FactoryCreationActionView<C, E> {
    InsertFactory { created: IssuanceFactoryCreationView, txid: Txid, block_height: u64 },
    Index { asset_id: AssetId, steps: Seq<FactoryStepView> },
    VerifyContract { asset_id: AssetId },
    RegisterAsset { asset_id: AssetId, contract: C },
    Finished { outcome: Result<(), E> },
}

impl<C, E> View for FactoryCreationAction<C, E> {
    type V = FactoryCreationActionView<C, E>;

    open spec fn view(&self) -> FactoryCreationActionView<C, E> {
        match *self {
            FactoryCreationAction::InsertFactory { created, txid, block_height } =>
            FactoryCreationActionView::InsertFactory { created: created@, txid, block_height },
            FactoryCreationAction::Index { asset_id, steps } => FactoryCreationActionView::Index {
                asset_id,
                steps: factory_steps_view(steps@),
            },
            FactoryCreationAction::VerifyContract { asset_id } =>
            FactoryCreationActionView::VerifyContract { asset_id },
            FactoryCreationAction::RegisterAsset { asset_id, contract } =>
            FactoryCreationActionView::RegisterAsset { asset_id, contract },
            FactoryCreationAction::Finished { outcome } => FactoryCreationActionView::Finished {
                outcome,
            },
        }
    }
}

/// Steps that index a factory once it is stored: none where it was stored already.
pub open spec fn creation_steps(
    created: IssuanceFactoryCreationView,
    txid: Txid,
    factory_id: Option<i64>,
    block_height: u64,
) -> Seq<FactoryStepView> {
    match factory_id {
        Some(id) => seq![
            FactoryStepView::SeedAuthUtxo {
                factory_id: id,
                txid,
                vout: created.auth_vout,
                script_pubkey: created.auth_script_pubkey,
                block_height,
            },
            FactoryStepView::SeedProgramUtxo {
                factory_id: id,
                txid,
                vout: created.program_vout,
                block_height,
            },
            FactoryStepView::NotifyCreated {
                id,
                height: block_height,
                factory_auth_script_pubkey: hex_of(created.auth_script_pubkey),
            },
        ],
        None => seq![],
    }
}

/// What comes of the actions on a factory: how storing it went, how indexing it went,
/// and the verified contract of its asset, if any.
pub struct CreationAnswers<C, E> {
    pub stored: Result<Option<i64>, E>,
    pub indexed: Result<(), E>,
    pub contract: Option<C>,
}

/// Finds the creations of factories that the indexer follows.
#[derive(Clone, Copy, Debug, PartialEq, Eq, Structural)]
pub struct FactoryCreationsTracker {
    pub issuing_utxos_count: u8,
    pub reissuance_flags: u64,
    /// Whether assets of factories are to be registered.
    pub asset_registration: bool,
}

impl FactoryCreationsTracker {
    /// Whether the indexer follows factories with these parameters.
    pub open spec fn follows(&self, parameters: IssuanceFactoryParameters) -> bool {
        &&& parameters.issuing_utxos_count == self.issuing_utxos_count
        &&& parameters.reissuance_flags == self.reissuance_flags
    }

    /// What to do about a transaction once something is known about it.
    pub open spec fn creation_action<C, E>(
        &self,
        tx: TransactionView,
        event: FactoryCreationEventView<C, E>,
        block_height: u64,
    ) -> FactoryCreationActionView<C, E> {
        match event {
            FactoryCreationEventView::Scanned { found } => if found is Some && self.follows(
                found->0.parameters,
            ) {
                FactoryCreationActionView::InsertFactory {
                    created: found->0,
                    txid: tx.txid,
                    block_height,
                }
            } else {
                FactoryCreationActionView::Finished { outcome: Ok(()) }
            },
            FactoryCreationEventView::Inserted { created, stored } => match stored {
                Ok(factory_id) => FactoryCreationActionView::Index {
                    asset_id: created.factory_asset_id,
                    steps: creation_steps(created, tx.txid, factory_id, block_height),
                },
                Err(error) => FactoryCreationActionView::Finished { outcome: Err(error) },
            },
            FactoryCreationEventView::Indexed { asset_id, result } => if result is Ok
                && self.asset_registration {
                FactoryCreationActionView::VerifyContract { asset_id }
            } else {
                FactoryCreationActionView::Finished { outcome: result }
            },
            FactoryCreationEventView::Verified { asset_id, contract } => match contract {
                Some(contract) => FactoryCreationActionView::RegisterAsset { asset_id, contract },
                None => FactoryCreationActionView::Finished { outcome: Ok(()) },
            },
            FactoryCreationEventView::Registered => FactoryCreationActionView::Finished {
                outcome: Ok(()),
            },
        }
    }

    /// What is done about a transaction from an event on, up to where nothing is left
    /// to do, when `answers` tells what comes of each action.
    pub open spec fn actions_from<C, E>(
        &self,
        tx: TransactionView,
        event: FactoryCreationEventView<C, E>,
        answers: CreationAnswers<C, E>,
        block_height: u64,
    ) -> Seq<FactoryCreationActionView<C, E>>
        decreases event.events_left(),
    {
        let action = self.creation_action(tx, event, block_height);
        match action {
            FactoryCreationActionView::InsertFactory { created, .. } => seq![action]
                + self.actions_from(
                tx,
                FactoryCreationEventView::Inserted { created, stored: answers.stored },
                answers,
                block_height,
            ),
            FactoryCreationActionView::Index { asset_id, .. } => seq![action] + self.actions_from(
                tx,
                FactoryCreationEventView::Indexed { asset_id, result: answers.indexed },
                answers,
                block_height,
            ),
            FactoryCreationActionView::VerifyContract { asset_id } => seq![action]
                + self.actions_from(
                tx,
                FactoryCreationEventView::Verified { asset_id, contract: answers.contract },
                answers,
                block_height,
            ),
            FactoryCreationActionView::RegisterAsset { .. } => seq![action] + self.actions_from(
                tx,
                FactoryCreationEventView::Registered,
                answers,
                block_height,
            ),
            FactoryCreationActionView::Finished { .. } => seq![action],
        }
    }

    /// A tracker for factories with the given parameters.
    pub fn new(issuing_utxos_count: u8, reissuance_flags: u64, asset_registration: bool) -> (r:
        Self)
        ensures
            r == (FactoryCreationsTracker {
                issuing_utxos_count,
                reissuance_flags,
                asset_registration,
            }),
    {
        Self { issuing_utxos_count, reissuance_flags, asset_registration }
    }

    /// What to do about a transaction once something is known about it.
    pub fn process_creation_tx<C, E>(
        &self,
        tx: &Transaction,
        event: FactoryCreationEvent<C, E>,
        block_height: u64,
    ) -> (r: FactoryCreationAction<C, E>)
        ensures
            r@ == self.creation_action(tx@, event@, block_height),
    {
        match event {
            FactoryCreationEvent::Scanned { found } => match self.is_factory_creation_tx(found) {
                Some(created) => FactoryCreationAction::InsertFactory {
                    created,
                    txid: tx.txid,
                    block_height,
                },
                None => FactoryCreationAction::Finished { outcome: Ok(()) },
            },
            FactoryCreationEvent::Inserted { created, stored } => match stored {
                Ok(factory_id) => {
                    let asset_id = created.factory_asset_id;
                    let steps = FactoryCreationsTracker::handle_factory_creation(
                        created,
                        tx.txid,
                        factory_id,
                        block_height,
                    );
                    FactoryCreationAction::Index { asset_id, steps }
                },
                Err(error) => FactoryCreationAction::Finished { outcome: Err(error) },
            },
            FactoryCreationEvent::Indexed { asset_id, result } => if result.is_ok()
                && self.asset_registration {
                FactoryCreationAction::VerifyContract { asset_id }
            } else {
                FactoryCreationAction::Finished { outcome: result }
            },
            FactoryCreationEvent::Verified { asset_id, contract } => match contract {
                Some(contract) => FactoryCreationAction::RegisterAsset { asset_id, contract },
                None => FactoryCreationAction::Finished { outcome: Ok(()) },
            },
            FactoryCreationEvent::Registered => FactoryCreationAction::Finished {
                outcome: Ok(()),
            },
        }
    }

    /// Steps that index a factory once it is stored: none where it was stored
    /// already.
    pub fn handle_factory_creation(
        created: IssuanceFactoryCreation,
        txid: Txid,
        factory_id: Option<i64>,
        block_height: u64,
    ) -> (r: Vec<FactoryStep>)
        ensures
            factory_steps_view(r@) == creation_steps(created@, txid, factory_id, block_height),
    {
        let mut steps: Vec<FactoryStep> = Vec::new();
        if let Some(id) = factory_id {
            let factory_auth_script_pubkey = bytes_to_hex(created.auth_script_pubkey.as_slice());
            steps.push(
                FactoryStep::SeedAuthUtxo {
                    factory_id: id,
                    txid,
                    vout: created.auth_vout,
                    script_pubkey: created.auth_script_pubkey,
                    block_height,
                },
            );
            steps.push(
                FactoryStep::SeedProgramUtxo {
                    factory_id: id,
                    txid,
                    vout: created.program_vout,
                    block_height,
                },
            );
            steps.push(
                FactoryStep::NotifyCreated { id, height: block_height, factory_auth_script_pubkey },
            );
        }
        assert(factory_steps_view(steps@) =~= creation_steps(
            created@,
            txid,
            factory_id,
            block_height,
        ));
        steps
    }

    /// The factory that a transaction creates, where the indexer follows it.
    pub fn is_factory_creation_tx(&self, created: Option<IssuanceFactoryCreation>) -> (r: Option<
        IssuanceFactoryCreation,
    >)
        ensures
            r == if created is Some && self.follows(created->0.parameters) {
                created
            } else {
                None
            },
    {
        let created = match created {
            Some(created) => created,
            None => {
                return None;
            },
        };
        if !self.verify_factory_parameters(&created.parameters) {
            return None;
        }
        Some(created)
    }

    /// Whether the indexer follows factories with these parameters.
    pub fn verify_factory_parameters(&self, factory_parameters: &IssuanceFactoryParameters) -> (r:
        bool)
        ensures
            r == self.follows(*factory_parameters),
    {
        factory_parameters.issuing_utxos_count == self.issuing_utxos_count
            && factory_parameters.reissuance_flags == self.reissuance_flags
    }
}

/// A factory that was stored already is not seeded and not announced again.
pub proof fn law_known_factory_is_not_announced_again<C, E>(
    tracker: FactoryCreationsTracker,
    tx: TransactionView,
    created: IssuanceFactoryCreationView,
    block_height: u64,
)
    ensures
        tracker.creation_action::<C, E>(
            tx,
            FactoryCreationEventView::Inserted { created, stored: Ok(None) },
            block_height,
        ) == (FactoryCreationActionView::<C, E>::Index {
            asset_id: created.factory_asset_id,
            steps: seq![],
        }),
{
}

/// A factory is stored only where the indexer follows its kind, with the transaction
/// that creates it and its height; nothing is done about any other.
pub proof fn law_only_followed_factories_are_stored<C, E>(
    tracker: FactoryCreationsTracker,
    tx: TransactionView,
    found: Option<IssuanceFactoryCreationView>,
    block_height: u64,
)
    ensures
        tracker.creation_action::<C, E>(
            tx,
            FactoryCreationEventView::Scanned { found },
            block_height,
        ) == match found {
            Some(created) if tracker.follows(
                created.parameters,
            ) => FactoryCreationActionView::<C, E>::InsertFactory {
                created,
                txid: tx.txid,
                block_height,
            },
            _ => FactoryCreationActionView::Finished { outcome: Ok(()) },
        },
{
}

/// The asset of a factory is registered exactly where the indexer follows the factory,
/// indexing it went well (a factory that was stored already counts), assets are to be
/// registered and the transaction commits to the expected contract; then once, with
/// that contract. How it went is how indexing went, whatever came of the registration.
pub proof fn law_asset_is_registered_once_with_its_verified_contract<C, E>(
    tracker: FactoryCreationsTracker,
    tx: TransactionView,
    found: Option<IssuanceFactoryCreationView>,
    answers: CreationAnswers<C, E>,
    block_height: u64,
)
    ensures
        ({
            let actions = tracker.actions_from(
                tx,
                FactoryCreationEventView::Scanned { found },
                answers,
                block_height,
            );
            let followed = found is Some && found->0.parameters.issuing_utxos_count
                == tracker.issuing_utxos_count && found->0.parameters.reissuance_flags
                == tracker.reissuance_flags;
            let registers = followed && answers.stored is Ok && answers.indexed is Ok
                && tracker.asset_registration && answers.contract is Some;
            &&& forall|i: int|
                0 <= i < actions.len() && (#[trigger] actions[i]) is RegisterAsset ==> i == 3
                    && registers
            &&& registers ==> actions.len() == 5 && actions[3]
                == (FactoryCreationActionView::<C, E>::RegisterAsset {
                asset_id: found->0.factory_asset_id,
                contract: answers.contract->0,
            })
            &&& actions.last() == (FactoryCreationActionView::<C, E>::Finished {
                outcome: if !followed {
                    Ok(())
                } else {
                    match (answers.stored, answers.indexed) {
                        (Err(error), _) => Err(error),
                        (_, Err(error)) => Err(error),
                        _ => Ok(()),
                    }
                },
            })
        }),
{
    reveal_with_fuel(FactoryCreationsTracker::actions_from, 5);
    if let Ok(done) = answers.indexed {
        assert(done == ());
    }
}

/// A factory that is found is stored exactly where it issues from as many outputs as the
/// tracker follows and its reissuance flags are, as a whole, the tracker's. What is stored
/// is the factory that was found.
pub proof fn law_factory_is_followed_by_all_its_parameters<C, E>(
    tracker: FactoryCreationsTracker,
    tx: TransactionView,
    created: IssuanceFactoryCreationView,
    block_height: u64,
)
    ensures
        ({
            let action = tracker.creation_action::<C, E>(
                tx,
                FactoryCreationEventView::Scanned { found: Some(created) },
                block_height,
            );
            let parameters = created.parameters;
            let same = parameters.issuing_utxos_count == tracker.issuing_utxos_count
                && parameters.reissuance_flags == tracker.reissuance_flags;
            &&& tracker.follows(parameters) <==> same
            &&& action is InsertFactory <==> same
            &&& action matches FactoryCreationActionView::InsertFactory {
                created: stored,
                txid,
                block_height: height,
            } ==> stored == created && txid == tx.txid && height == block_height
            &&& !same ==> action == (FactoryCreationActionView::<C, E>::Finished {
                outcome: Ok(()),
            })
        }),
{
}

/// One tracker never follows two factories that differ in how many outputs they issue
/// from or in any reissuance flag.
pub proof fn law_followed_factories_are_of_one_kind<C, E>(
    tracker: FactoryCreationsTracker,
    tx: TransactionView,
    one: IssuanceFactoryCreationView,
    other: IssuanceFactoryCreationView,
    block_height: u64,
)
    requires
        tracker.creation_action::<C, E>(
            tx,
            FactoryCreationEventView::Scanned { found: Some(one) },
            block_height,
        ) is InsertFactory,
        tracker.creation_action::<C, E>(
            tx,
            FactoryCreationEventView::Scanned { found: Some(other) },
            block_height,
        ) is InsertFactory,
    ensures
        one.parameters.issuing_utxos_count == other.parameters.issuing_utxos_count,
        one.parameters.reissuance_flags == other.parameters.reissuance_flags,
{
}

/// A factory that is newly stored is indexed under the id that it was given: first the
/// output that authorises it is recorded, with its script, then the output that holds its
/// program, then it is announced with the script in hexadecimal. Each step names the
/// transaction's own output that the factory shows for it.
pub proof fn law_new_factory_is_seeded_then_announced<C, E>(
    tracker: FactoryCreationsTracker,
    tx: TransactionView,
    created: IssuanceFactoryCreationView,
    factory_id: i64,
    block_height: u64,
)
    ensures
        tracker.creation_action::<C, E>(
            tx,
            FactoryCreationEventView::Inserted { created, stored: Ok(Some(factory_id)) },
            block_height,
        ) matches FactoryCreationActionView::Index { asset_id, steps } && {
            &&& asset_id == created.factory_asset_id
            &&& steps == creation_steps(created, tx.txid, Some(factory_id), block_height)
            &&& steps.len() == 3
            &&& forall|i: int|
                0 <= i < steps.len() ==> match #[trigger] steps[i] {
                    FactoryStepView::SeedAuthUtxo {
                        factory_id: id,
                        txid,
                        vout,
                        script_pubkey,
                        block_height: height,
                    } => i == 0 && id == factory_id && txid == tx.txid && vout
                        == created.auth_vout && script_pubkey == created.auth_script_pubkey
                        && height == block_height,
                    FactoryStepView::SeedProgramUtxo {
                        factory_id: id,
                        txid,
                        vout,
                        block_height: height,
                    } => i == 1 && id == factory_id && txid == tx.txid && vout
                        == created.program_vout && height == block_height,
                    FactoryStepView::NotifyCreated { id, height, factory_auth_script_pubkey } => i
                        == 2 && id == factory_id && height == block_height
                        && factory_auth_script_pubkey == hex_of(created.auth_script_pubkey),
                }
        },
        creation_steps(created, tx.txid, None, block_height).len() == 0,
{
}

/// What is done after a factory was stored does not depend on the transaction but for its
/// id: a failure is reported as it is; the asset's contract is asked for exactly where
/// indexing went well and assets are registered; and the asset that was asked about is
/// registered exactly with the contract that came back.
pub proof fn law_events_lead_on_with_what_they_bring<C, E>(
    tracker: FactoryCreationsTracker,
    tx: TransactionView,
    created: IssuanceFactoryCreationView,
    asset_id: AssetId,
    contract: C,
    error: E,
    block_height: u64,
)
    ensures
        ({
            let after = |event: FactoryCreationEventView<C, E>|
                tracker.creation_action(tx, event, block_height);
            let done = FactoryCreationActionView::<C, E>::Finished { outcome: Ok(()) };
            let failed = FactoryCreationActionView::<C, E>::Finished { outcome: Err(error) };
            &&& after(FactoryCreationEventView::Scanned { found: None }) == done
            &&& after(FactoryCreationEventView::Inserted { created, stored: Err(error) }) == failed
            &&& after(FactoryCreationEventView::Indexed { asset_id, result: Err(error) }) == failed
            &&& after(FactoryCreationEventView::Indexed { asset_id, result: Ok(()) })
                == if tracker.asset_registration {
                FactoryCreationActionView::VerifyContract { asset_id }
            } else {
                done
            }
            &&& after(FactoryCreationEventView::Verified { asset_id, contract: Some(contract) })
                == (FactoryCreationActionView::<C, E>::RegisterAsset { asset_id, contract })
            &&& after(FactoryCreationEventView::Verified { asset_id, contract: None }) == done
            &&& after(FactoryCreationEventView::Registered) == done
        }),
{
}

/// A factory that was found says what its fields hold.
pub proof fn law_creation_says_what_it_holds(created: IssuanceFactoryCreation)
    ensures
        created@.parameters == created.parameters,
        created@.factory_asset_id == created.factory_asset_id,
        created@.auth_vout == created.auth_vout,
        created@.program_vout == created.program_vout,
        created@.auth_script_pubkey == created.auth_script_pubkey@,
{
}

/// Events say what their fields hold.
pub proof fn law_events_say_what_they_hold<C, E>(event: FactoryCreationEvent<C, E>)
    ensures
        match event {
            FactoryCreationEvent::Scanned { found: Some(created) } => event@
                == (FactoryCreationEventView::<C, E>::Scanned { found: Some(created@) }),
            FactoryCreationEvent::Scanned { found: None } => event@
                == (FactoryCreationEventView::<C, E>::Scanned { found: None }),
            FactoryCreationEvent::Inserted { created, stored } => event@
                == (FactoryCreationEventView::<C, E>::Inserted { created: created@, stored }),
            FactoryCreationEvent::Indexed { asset_id, result } => event@
                == (FactoryCreationEventView::<C, E>::Indexed { asset_id, result }),
            FactoryCreationEvent::Verified { asset_id, contract } => event@
                == (FactoryCreationEventView::<C, E>::Verified { asset_id, contract }),
            FactoryCreationEvent::Registered => event@ is Registered,
        },
{
}

/// Actions say what their fields hold, with their steps one for one and in order.
pub proof fn law_actions_say_what_they_hold<C, E>(action: FactoryCreationAction<C, E>, i: int)
    ensures
        match action {
            FactoryCreationAction::InsertFactory { created, txid, block_height } => action@
                == (FactoryCreationActionView::<C, E>::InsertFactory {
                created: created@,
                txid,
                block_height,
            }),
            FactoryCreationAction::Index { asset_id, steps } => {
                &&& action@ == (FactoryCreationActionView::<C, E>::Index {
                    asset_id,
                    steps: factory_steps_view(steps@),
                })
                &&& factory_steps_view(steps@).len() == steps@.len()
                &&& 0 <= i < steps@.len() ==> match steps@[i] {
                    FactoryStep::SeedAuthUtxo {
                        factory_id,
                        txid,
                        vout,
                        script_pubkey,
                        block_height,
                    } => factory_steps_view(steps@)[i] == (FactoryStepView::SeedAuthUtxo {
                        factory_id,
                        txid,
                        vout,
                        script_pubkey: script_pubkey@,
                        block_height,
                    }),
                    FactoryStep::SeedProgramUtxo { factory_id, txid, vout, block_height } =>
                    factory_steps_view(steps@)[i] == (FactoryStepView::SeedProgramUtxo {
                        factory_id,
                        txid,
                        vout,
                        block_height,
                    }),
                    FactoryStep::NotifyCreated { id, height, factory_auth_script_pubkey } =>
                    factory_steps_view(steps@)[i] == (FactoryStepView::NotifyCreated {
                        id,
                        height,
                        factory_auth_script_pubkey: factory_auth_script_pubkey@,
                    }),
                }
            },
            FactoryCreationAction::VerifyContract { asset_id } => action@
                == (FactoryCreationActionView::<C, E>::VerifyContract { asset_id }),
            FactoryCreationAction::RegisterAsset { asset_id, contract } => action@
                == (FactoryCreationActionView::<C, E>::RegisterAsset { asset_id, contract }),
            FactoryCreationAction::Finished { outcome } => action@
                == (FactoryCreationActionView::<C, E>::Finished { outcome }),
        },
{
}

} // verus!
