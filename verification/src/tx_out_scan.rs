//! Scanning the outputs of a transaction.

use crate::chain::{bytes_equal, op_return, AssetId, Transaction, TransactionView, TxOut, TxOutView};
use vstd::prelude::*;

verus! {

/// Optional filters for scanning explicit transaction outputs.
#[derive(Clone, Copy, Debug)]
pub struct TxOutFilter<'a> {
    pub asset: Option<AssetId>,
    pub amount: Option<u64>,
    /// Require at least this amount.
    pub min_amount: Option<u64>,
    pub script_pubkey: Option<&'a [u8]>,
    /// `Some(true)`: must be an `OP_RETURN`; `Some(false)`: must not be one;
    /// `None`: either.
    pub require_op_return: Option<bool>,
}

impl TxOutFilter<'_> {
    /// Whether the filter accepts an output: asset and value are explicit, and
    /// every condition that is set holds.
    pub open spec fn accepts(&self, output: TxOutView) -> bool {
        &&& output.asset is Some
        &&& output.value is Some
        &&& self.asset is Some ==> output.asset == self.asset
        &&& self.amount is Some ==> output.value == self.amount
        &&& self.min_amount matches Some(min) ==> output.value->0 >= min
        &&& self.script_pubkey matches Some(script) ==> output.script_pubkey == script@
        &&& self.require_op_return matches Some(wanted) ==> op_return(output.script_pubkey)
            == wanted
    }

    /// Whether the filter accepts the output of a transaction at an index.
    pub open spec fn accepts_at(&self, tx: TransactionView, i: int) -> bool {
        0 <= i < tx.output.len() && self.accepts(tx.output[i])
    }

    /// Whether the filter accepts the output at an index and no other.
    pub open spec fn accepts_only(&self, tx: TransactionView, i: int) -> bool {
        &&& self.accepts_at(tx, i)
        &&& forall|j: int| #[trigger] self.accepts_at(tx, j) ==> j == i
    }
}

impl<'a> TxOutFilter<'a> {
    /// A filter with no condition set.
    pub fn new() -> (r: Self)
        ensures
            r == (TxOutFilter::<'a> {
                asset: None,
                amount: None,
                min_amount: None,
                script_pubkey: None,
                require_op_return: None,
            }),
    {
        Self {
            asset: None,
            amount: None,
            min_amount: None,
            script_pubkey: None,
            require_op_return: None,
        }
    }

    /// The filter with the asset required.
    pub fn asset(self, asset: AssetId) -> (r: Self)
        ensures
            r == (TxOutFilter::<'a> { asset: Some(asset), ..self }),
    {
        Self { asset: Some(asset), ..self }
    }

    /// The filter with the exact amount required.
    pub fn amount(self, amount: u64) -> (r: Self)
        ensures
            r == (TxOutFilter::<'a> { amount: Some(amount), ..self }),
    {
        Self { amount: Some(amount), ..self }
    }

    /// The filter with a least amount required.
    pub fn min_amount(self, min_amount: u64) -> (r: Self)
        ensures
            r == (TxOutFilter::<'a> { min_amount: Some(min_amount), ..self }),
    {
        Self { min_amount: Some(min_amount), ..self }
    }

    /// The filter with the script required.
    pub fn script_pubkey(self, script_pubkey: &'a [u8]) -> (r: Self)
        ensures
            r == (TxOutFilter::<'a> { script_pubkey: Some(script_pubkey), ..self }),
    {
        Self { script_pubkey: Some(script_pubkey), ..self }
    }

    /// The filter with being, or not being, an `OP_RETURN` required.
    pub fn require_op_return(self, require_op_return: bool) -> (r: Self)
        ensures
            r == (TxOutFilter::<'a> { require_op_return: Some(require_op_return), ..self }),
    {
        Self { require_op_return: Some(require_op_return), ..self }
    }
}

impl Default for TxOutFilter<'_> {
    fn default() -> (r: Self)
        ensures
            r.asset is None,
            r.amount is None,
            r.min_amount is None,
            r.script_pubkey is None,
            r.require_op_return is None,
    {
        TxOutFilter::new()
    }
}

impl TxOutFilter<'_> {
    /// Whether an output meets the filter.
    pub fn matches(&self, output: &TxOut) -> (r: bool)
        ensures
            r == self.accepts(output@),
    {
        let (asset, amount) = match (output.asset, output.value) {
            (Some(asset), Some(amount)) => (asset, amount),
            _ => {
                return false;
            },
        };
        if let Some(expected) = self.asset {
            if asset != expected {
                return false;
            }
        }
        if let Some(expected) = self.amount {
            if amount != expected {
                return false;
            }
        }
        if let Some(min) = self.min_amount {
            if amount < min {
                return false;
            }
        }
        if let Some(script) = self.script_pubkey {
            if !bytes_equal(output.script_pubkey.as_slice(), script) {
                return false;
            }
        }
        if let Some(require_op_return) = self.require_op_return {
            if output.is_op_return() != require_op_return {
                return false;
            }
        }
        true
    }
}

/// Finds the only explicit output that meets `filter`.
///
/// Returns its index and amount where exactly one output meets it.
pub fn find_unique_vout(tx: &Transaction, filter: TxOutFilter<'_>) -> (r: Option<(u32, u64)>)
    ensures
        r is Some <==> exists|i: int| #[trigger] filter.accepts_only(tx@, i),
        forall|i: int| #[trigger]
            filter.accepts_only(tx@, i) ==> r == Some((i as u32, tx@.output[i].value->0)),
{
    let mut found: Option<(usize, u64)> = None;
    let mut i: usize = 0;
    while i < tx.output.len()
        invariant
            i <= tx.output.len(),
            match found {
                Some((at, amount)) => {
                    &&& at < i
                    &&& filter.accepts_at(tx@, at as int)
                    &&& tx@.output[at as int].value == Some(amount)
                    &&& forall|j: int| j < i && #[trigger] filter.accepts_at(tx@, j) ==> j == at
                },
                None => forall|j: int| j < i ==> !#[trigger] filter.accepts_at(tx@, j),
            },
        decreases tx.output.len() - i,
    {
        assert(tx@.output[i as int] == tx.output[i as int]@);
        if filter.matches(&tx.output[i]) {
            assert(filter.accepts_at(tx@, i as int));
            if found.is_some() {
                return None;
            }
            if let Some(amount) = tx.output[i].value {
                found = Some((i, amount));
            }
        }
        i = i + 1;
    }
    match found {
        Some((at, amount)) => {
            assert(filter.accepts_only(tx@, at as int));
            Some((at as u32, amount))
        },
        None => None,
    }
}

/// Whether any explicit output meets `filter`.
pub fn has_matching_vout(tx: &Transaction, filter: TxOutFilter<'_>) -> (r: bool)
    ensures
        r <==> exists|i: int| #[trigger] filter.accepts_at(tx@, i),
{
    let mut i: usize = 0;
    while i < tx.output.len()
        invariant
            i <= tx.output.len(),
            forall|j: int| j < i ==> !#[trigger] filter.accepts_at(tx@, j),
        decreases tx.output.len() - i,
    {
        assert(tx@.output[i as int] == tx.output[i as int]@);
        if filter.matches(&tx.output[i]) {
            assert(filter.accepts_at(tx@, i as int));
            return true;
        }
        i = i + 1;
    }
    false
}

/// With no condition set, a filter accepts exactly the outputs whose asset and value
/// are explicit.
pub proof fn law_unset_filter_accepts_explicit_outputs(filter: TxOutFilter<'_>, output: TxOutView)
    requires
        filter.asset is None,
        filter.amount is None,
        filter.min_amount is None,
        filter.script_pubkey is None,
        filter.require_op_return is None,
    ensures
        filter.accepts(output) <==> output.asset is Some && output.value is Some,
{
}

/// A condition that is newly set narrows a filter by exactly that condition.
pub proof fn law_conditions_narrow_a_filter<'a>(
    filter: TxOutFilter<'a>,
    output: TxOutView,
    asset: AssetId,
    amount: u64,
    script: &'a [u8],
    wanted: bool,
)
    ensures
        filter.asset is None ==> (TxOutFilter::<'a> { asset: Some(asset), ..filter }.accepts(output)
            <==> filter.accepts(output) && output.asset == Some(asset)),
        filter.amount is None ==> (TxOutFilter::<'a> { amount: Some(amount), ..filter }.accepts(
            output,
        ) <==> filter.accepts(output) && output.value == Some(amount)),
        filter.min_amount is None ==> (TxOutFilter::<'a> {
            min_amount: Some(amount),
            ..filter
        }.accepts(output) <==> filter.accepts(output) && output.value->0 >= amount),
        filter.script_pubkey is None ==> (TxOutFilter::<'a> {
            script_pubkey: Some(script),
            ..filter
        }.accepts(output) <==> filter.accepts(output) && output.script_pubkey == script@),
        filter.require_op_return is None ==> (TxOutFilter::<'a> {
            require_op_return: Some(wanted),
            ..filter
        }.accepts(output) <==> filter.accepts(output) && op_return(output.script_pubkey)
            == wanted),
{
}

/// Where there is an only output that meets a filter, there is one that meets it;
/// and where a filter's only output is known, it is the same however it was found.
pub proof fn law_unique_output_is_a_match(
    tx: TransactionView,
    filter: TxOutFilter<'_>,
    i: int,
    j: int,
)
    requires
        filter.accepts_only(tx, i),
    ensures
        filter.accepts_at(tx, i),
        filter.accepts_at(tx, j) ==> i == j,
{
}

/// An output is the only one that a filter accepts exactly where the filter accepts it and
/// no other output of the transaction; an index behind the outputs is never accepted.
pub proof fn law_only_output_is_accepted_alone(
    tx: TransactionView,
    filter: TxOutFilter<'_>,
    i: int,
)
    ensures
        filter.accepts_at(tx, i) <==> 0 <= i < tx.output.len() && filter.accepts(tx.output[i]),
        filter.accepts_only(tx, i) <==> 0 <= i < tx.output.len() && filter.accepts(tx.output[i])
            && forall|j: int|
            0 <= j < tx.output.len() && j != i ==> !filter.accepts(#[trigger] tx.output[j]),
{
    if filter.accepts_only(tx, i) {
        assert forall|j: int| 0 <= j < tx.output.len() && j != i implies !filter.accepts(
            #[trigger] tx.output[j],
        ) by {
            assert(!filter.accepts_at(tx, j));
        }
    }
}

} // verus!
