//! Transactions as the trackers read them.
//!
//! Decoding, transaction ids and script classification are the work of the
//! `elements` library; the types here hold the plain values that come out. What is
//! said of that library's functions is said of them on a 64-bit machine, where they
//! do not panic and the limits of the decoder are fixed.

use simplex::simplicityhl::elements;
use simplex::simplicityhl::elements::hex::ToHex;
use vstd::prelude::*;

verus! {

/// The opcode that makes an output unspendable.
pub const OP_RETURN: u8 = 0x6a;

/// The most bytes that a push can hold whose opcode is their number.
pub const MAX_SHORT_PUSH: u8 = 75;

/// The opcode of a push whose length is in one byte.
pub const OP_PUSHDATA1: u8 = 0x4c;

/// The opcode of a push whose length is in two bytes.
pub const OP_PUSHDATA2: u8 = 0x4d;

/// The opcode of a push whose length is in four bytes.
pub const OP_PUSHDATA4: u8 = 0x4e;

/// The last of the opcodes that push: it pushes the number sixteen.
pub const OP_PUSHNUM_16: u8 = 0x60;

/// Number of bytes in a transaction id or an asset id.
pub const HASH_LEN: usize = 32;

/// A transaction id, in the byte order in which it is hashed.
#[derive(Clone, Copy, Debug)]
pub struct Txid {
    pub bytes: [u8; 32],
}

/// An asset id, in the byte order in which it is committed to.
#[derive(Clone, Copy, Debug)]
pub struct AssetId {
    pub bytes: [u8; 32],
}

/// A reference to one output of a transaction.
#[derive(Clone, Copy, Debug)]
pub struct OutPoint {
    pub txid: Txid,
    pub vout: u32,
}

/// A transaction input, reduced to the output that it spends.
#[derive(Clone, Copy, Debug)]
pub struct TxIn {
    pub previous_output: OutPoint,
}

/// A transaction output. `asset` and `value` are `None` where they are null or
/// blinded.
#[derive(Clone, Debug)]
pub struct TxOut {
    pub asset: Option<AssetId>,
    pub value: Option<u64>,
    pub script_pubkey: Vec<u8>,
}

/// A transaction with its id.
#[derive(Clone, Debug)]
pub struct Transaction {
    pub txid: Txid,
    pub input: Vec<TxIn>,
    pub output: Vec<TxOut>,
}

/// What a [`TxOut`] says.
pub struct TxOutView {
    pub asset: Option<AssetId>,
    pub value: Option<u64>,
    pub script_pubkey: Seq<u8>,
}

/// What a [`Transaction`] says.
pub struct TransactionView {
    pub txid: Txid,
    pub input: Seq<TxIn>,
    pub output: Seq<TxOutView>,
}

impl View for TxOut {
    type V = TxOutView;

    open spec fn view(&self) -> TxOutView {
        TxOutView { asset: self.asset, value: self.value, script_pubkey: self.script_pubkey@ }
    }
}

/// The views of a list of outputs, in order.
pub open spec fn outputs_view(outputs: Seq<TxOut>) -> Seq<TxOutView> {
    Seq::new(outputs.len(), |i: int| outputs[i]@)
}

impl View for Transaction {
    type V = TransactionView;

    open spec fn view(&self) -> TransactionView {
        TransactionView {
            txid: self.txid,
            input: self.input@,
            output: outputs_view(self.output@),
        }
    }
}

/// Whether two arrays hold the same bytes.
fn same_bytes(a: &[u8; 32], b: &[u8; 32]) -> (r: bool)
    ensures
        r == (*a == *b),
{
    let mut i: usize = 0;
    while i < HASH_LEN
        invariant
            i <= HASH_LEN,
            forall|j: int| 0 <= j < i ==> a@[j] == b@[j],
        decreases HASH_LEN - i,
    {
        if a[i] != b[i] {
            assert(a@[i as int] != b@[i as int]);
            return false;
        }
        i = i + 1;
    }
    assert(a@ =~= b@);
    assert(*a =~= *b);
    true
}

impl PartialEq for Txid {
    fn eq(&self, other: &Txid) -> (r: bool) {
        same_bytes(&self.bytes, &other.bytes)
    }
}

impl vstd::std_specs::cmp::PartialEqSpecImpl for Txid {
    open spec fn obeys_eq_spec() -> bool {
        true
    }

    open spec fn eq_spec(&self, other: &Txid) -> bool {
        self.bytes == other.bytes
    }
}

impl Eq for Txid {

}

impl PartialEq for AssetId {
    fn eq(&self, other: &AssetId) -> (r: bool) {
        same_bytes(&self.bytes, &other.bytes)
    }
}

impl vstd::std_specs::cmp::PartialEqSpecImpl for AssetId {
    open spec fn obeys_eq_spec() -> bool {
        true
    }

    open spec fn eq_spec(&self, other: &AssetId) -> bool {
        self.bytes == other.bytes
    }
}

impl Eq for AssetId {

}

impl PartialEq for OutPoint {
    fn eq(&self, other: &OutPoint) -> (r: bool) {
        self.vout == other.vout && self.txid == other.txid
    }
}

impl vstd::std_specs::cmp::PartialEqSpecImpl for OutPoint {
    open spec fn obeys_eq_spec() -> bool {
        true
    }

    open spec fn eq_spec(&self, other: &OutPoint) -> bool {
        self.vout == other.vout && self.txid.bytes == other.txid.bytes
    }
}

impl Eq for OutPoint {

}

/// Whether two byte strings are the same.
pub fn bytes_equal(a: &[u8], b: &[u8]) -> (r: bool)
    ensures
        r == (a@ == b@),
{
    if a.len() != b.len() {
        return false;
    }
    let mut i: usize = 0;
    while i < a.len()
        invariant
            i <= a@.len(),
            a@.len() == b@.len(),
            forall|j: int| 0 <= j < i ==> a@[j] == b@[j],
        decreases a@.len() - i,
    {
        if a[i] != b[i] {
            return false;
        }
        i = i + 1;
    }
    assert(a@ =~= b@);
    true
}

impl Txid {
    /// Reads an id from stored bytes: `None` unless there are exactly
    /// [`HASH_LEN`] of them.
    pub fn from_slice(bytes: &[u8]) -> (r: Option<Txid>)
        ensures
            r is Some <==> bytes@.len() == HASH_LEN,
            r matches Some(txid) ==> txid.bytes@ == bytes@,
    {
        if bytes.len() != HASH_LEN {
            return None;
        }
        let mut id: [u8; 32] = [0;32];
        let mut i: usize = 0;
        while i < HASH_LEN
            invariant
                i <= HASH_LEN,
                bytes@.len() == HASH_LEN,
                forall|j: int| 0 <= j < i ==> id@[j] == bytes@[j],
            decreases HASH_LEN - i,
        {
            id[i] = bytes[i];
            i = i + 1;
        }
        assert(id@ =~= bytes@);
        Some(Txid { bytes: id })
    }
}

/// A copy of a byte string.
pub fn copy_bytes(bytes: &[u8]) -> (r: Vec<u8>)
    ensures
        r@ == bytes@,
{
    let mut r: Vec<u8> = Vec::new();
    let mut i: usize = 0;
    while i < bytes.len()
        invariant
            i <= bytes@.len(),
            r@ == bytes@.take(i as int),
        decreases bytes@.len() - i,
    {
        r.push(bytes[i]);
        i = i + 1;
    }
    assert(bytes@.take(bytes@.len() as int) == bytes@);
    r
}

/// The inputs and outputs that an encoded transaction holds, or `None` where
/// the bytes do not decode: what `elements::encode::deserialize` makes of them.
pub uninterp spec fn transaction_contents(raw: Seq<u8>) -> Option<(Seq<TxIn>, Seq<TxOutView>)>;

/// The id of an encoded transaction, or `None` where the bytes do not decode:
/// what `elements::Transaction::txid` returns for it.
pub uninterp spec fn transaction_id(raw: Seq<u8>) -> Option<Seq<u8>>;

/// Whether a locking script starts with the opcode that makes it unspendable.
pub open spec fn op_return(script: Seq<u8>) -> bool {
    script.len() > 0 && script[0] == OP_RETURN
}

/// How many bytes at the start of a script tell how much data its first opcode
/// pushes, the opcode included.
pub open spec fn push_header_len(op: u8) -> int {
    if op == OP_PUSHDATA1 {
        2
    } else if op == OP_PUSHDATA2 {
        3
    } else if op == OP_PUSHDATA4 {
        5
    } else {
        1
    }
}

/// How many bytes of a script the first opcode pushes as data, given that its length
/// is there to be read. Lengths are little-endian.
pub open spec fn push_data_len(script: Seq<u8>) -> int {
    let op = script[0];
    if op <= MAX_SHORT_PUSH {
        op as int
    } else if op == OP_PUSHDATA1 {
        script[1] as int
    } else if op == OP_PUSHDATA2 {
        script[1] + script[2] * 0x100
    } else if op == OP_PUSHDATA4 {
        script[1] + script[2] * 0x100 + script[3] * 0x1_0000 + script[4] * 0x100_0000
    } else {
        0
    }
}

/// Whether a script holds nothing but complete pushes: of data, of small numbers, and
/// the reserved opcode among those.
pub open spec fn only_pushes(script: Seq<u8>) -> bool
    decreases script.len(),
{
    script.len() == 0 || {
        let header = push_header_len(script[0]);
        let len = header + push_data_len(script);
        &&& script[0] <= OP_PUSHNUM_16
        &&& header <= script.len()
        &&& header <= len <= script.len()
        &&& only_pushes(script.skip(len))
    }
}

/// Whether a locking script is null data: an [`OP_RETURN`] followed by pushes, not
/// necessarily minimal.
pub open spec fn null_data(script: Seq<u8>) -> bool {
    op_return(script) && only_pushes(script.skip(1))
}

/// The lower-case hexadecimal digit of a number below sixteen.
pub open spec fn hex_digit(n: int) -> char {
    if n < 10 {
        (n + '0' as int) as char
    } else {
        (n - 10 + 'a' as int) as char
    }
}

/// The lower-case hexadecimal form of a byte string, two digits to a byte.
pub open spec fn hex_of(bytes: Seq<u8>) -> Seq<char> {
    Seq::new(
        2 * bytes.len(),
        |i: int| hex_digit(if i % 2 == 0 { bytes[i / 2] as int / 16 } else { bytes[i / 2] as int % 16 }),
    )
}

/// Calls `elements::encode::deserialize` for a transaction and reads the outputs
/// that its inputs spend and, of each of its outputs, the explicit asset and
/// value (`confidential::Asset::explicit`, `confidential::Value::explicit`) and
/// the script's bytes. The contract claims that the same bytes always give the
/// same inputs and outputs, which [`transaction_contents`] names.
#[verifier::external_body]
fn decode_contents(raw: &[u8]) -> (r: Option<(Vec<TxIn>, Vec<TxOut>)>)
    ensures
        match r {
            Some(contents) => transaction_contents(raw@) == Some(
                (contents.0@, outputs_view(contents.1@)),
            ),
            None => transaction_contents(raw@) is None,
        },
{
    let tx: elements::Transaction = elements::encode::deserialize(raw).ok()?;
    let input = tx.input.iter().map(|i| TxIn {
        previous_output: OutPoint {
            txid: Txid { bytes: elements::hashes::Hash::to_byte_array(i.previous_output.txid) },
            vout: i.previous_output.vout,
        },
    });
    let output = tx.output.iter().map(|o| TxOut {
        asset: o.asset.explicit().map(|a| AssetId { bytes: a.into_inner().0 }),
        value: o.value.explicit(),
        script_pubkey: o.script_pubkey.to_bytes(),
    });
    Some((input.collect(), output.collect()))
}

/// Calls `elements::Transaction::txid` on the transaction that the bytes encode.
/// The contract claims that the same bytes always give the same id, which
/// [`transaction_id`] names, and that there is one exactly where the bytes decode.
#[verifier::external_body]
fn decode_txid(raw: &[u8]) -> (r: Option<Txid>)
    ensures
        r is Some <==> transaction_contents(raw@) is Some,
        match r {
            Some(txid) => transaction_id(raw@) == Some(txid.bytes@),
            None => transaction_id(raw@) is None,
        },
{
    let tx: elements::Transaction = elements::encode::deserialize(raw).ok()?;
    Some(Txid { bytes: elements::hashes::Hash::to_byte_array(tx.txid()) })
}

/// Calls `elements::Script::is_op_return`. The contract claims that the script is
/// one where it has a first byte and that byte is [`OP_RETURN`].
#[verifier::external_body]
fn script_is_op_return(script: &[u8]) -> (r: bool)
    ensures
        r == op_return(script@),
{
    elements::Script::from(script.to_vec()).is_op_return()
}

/// Calls `elements::TxOut::is_null_data` on an output with this script. The
/// contract claims that the script alone decides, and that it is null data where it
/// is an [`OP_RETURN`] followed by complete pushes, as [`null_data`] says.
#[verifier::external_body]
fn script_is_null_data(script: &[u8]) -> (r: bool)
    ensures
        r == null_data(script@),
{
    let script_pubkey = elements::Script::from(script.to_vec());
    elements::TxOut { script_pubkey, ..Default::default() }.is_null_data()
}

/// Calls `elements::hex::ToHex::to_hex` on a byte string. The contract claims that
/// the result is its lower-case hexadecimal form.
#[verifier::external_body]
pub(crate) fn bytes_to_hex(bytes: &[u8]) -> (r: String)
    ensures
        r@ == hex_of(bytes@),
{
    bytes.to_hex()
}

impl TxOut {
    /// Whether the output's script is an `OP_RETURN`.
    pub fn is_op_return(&self) -> (r: bool)
        ensures
            r == op_return(self.script_pubkey@),
    {
        script_is_op_return(self.script_pubkey.as_slice())
    }

    /// Whether the output is null data: an `OP_RETURN` followed by pushes.
    pub fn is_null_data(&self) -> (r: bool)
        ensures
            r == null_data(self.script_pubkey@),
    {
        script_is_null_data(self.script_pubkey.as_slice())
    }
}

impl Transaction {
    /// Reads a transaction from its consensus encoding: `None` exactly where the
    /// bytes do not decode.
    pub fn decode(raw: &[u8]) -> (r: Option<Transaction>)
        ensures
            r is Some <==> transaction_contents(raw@) is Some,
            r matches Some(tx) ==> {
                &&& transaction_contents(raw@) == Some((tx@.input, tx@.output))
                &&& transaction_id(raw@) == Some(tx@.txid.bytes@)
            },
    {
        match (decode_txid(raw), decode_contents(raw)) {
            (Some(txid), Some((input, output))) => Some(Transaction { txid, input, output }),
            _ => None,
        }
    }
}

/// A transaction says what its fields hold, with its outputs one for one and in order.
pub proof fn law_transaction_says_what_it_holds(tx: Transaction, i: int)
    ensures
        tx@.txid == tx.txid,
        tx@.input == tx.input@,
        tx@.output.len() == tx.output@.len(),
        0 <= i < tx.output@.len() ==> {
            &&& tx@.output[i].asset == tx.output@[i].asset
            &&& tx@.output[i].value == tx.output@[i].value
            &&& tx@.output[i].script_pubkey == tx.output@[i].script_pubkey@
        },
{
}

/// Pushes behind pushes are pushes, and behind pushes nothing else is.
pub proof fn law_pushes_compose(first: Seq<u8>, second: Seq<u8>)
    requires
        only_pushes(first),
    ensures
        only_pushes(first + second) <==> only_pushes(second),
    decreases first.len(),
{
    if first.len() == 0 {
        assert(first + second =~= second);
    } else {
        let len = push_header_len(first[0]) + push_data_len(first);
        assert((first + second).skip(len) =~= first.skip(len) + second);
        law_pushes_compose(first.skip(len), second);
    }
}

/// An `OP_RETURN` alone is null data; null data starts with an `OP_RETURN`; and null data
/// stays null data exactly where what is put behind it is pushes.
pub proof fn law_null_data_is_extended_by_pushes(script: Seq<u8>, more: Seq<u8>)
    ensures
        null_data(seq![0x6au8]),
        null_data(script) ==> script.len() > 0 && script[0] == 0x6a,
        null_data(script) ==> (null_data(script + more) <==> only_pushes(more)),
{
    assert(seq![0x6au8].skip(1) =~= seq![]);
    if null_data(script) {
        assert((script + more).skip(1) =~= script.skip(1) + more);
        law_pushes_compose(script.skip(1), more);
    }
}

/// An `OP_RETURN` is told by the first byte of a script, whatever follows it.
pub proof fn law_op_return_is_told_by_the_first_byte(first: u8, rest: Seq<u8>)
    ensures
        op_return(seq![first] + rest) <==> first == 0x6a,
        !op_return(seq![]),
{
}

} // verus!
