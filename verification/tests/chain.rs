use lending_indexer::chain::{
    bytes_equal, copy_bytes, AssetId, OutPoint, Transaction, TxOut, Txid,
};
use simplex::simplicityhl::elements;

fn script(bytes: &[u8]) -> elements::Script {
    elements::Script::from(bytes.to_vec())
}

fn sample() -> elements::Transaction {
    let asset = elements::AssetId::from_slice(&[7u8; 32]).unwrap();
    let spent: elements::Txid = elements::hashes::Hash::from_byte_array([9u8; 32]);
    elements::Transaction {
        version: 2,
        lock_time: elements::LockTime::ZERO,
        input: vec![elements::TxIn {
            previous_output: elements::OutPoint::new(spent, 3),
            ..Default::default()
        }],
        output: vec![
            elements::TxOut {
                asset: elements::confidential::Asset::Explicit(asset),
                value: elements::confidential::Value::Explicit(1_500),
                script_pubkey: script(&[0x51]),
                ..Default::default()
            },
            elements::TxOut {
                asset: elements::confidential::Asset::Null,
                value: elements::confidential::Value::Null,
                script_pubkey: script(&[0x6a, 0x01, 0x02]),
                ..Default::default()
            },
        ],
    }
}

fn output(script_pubkey: &[u8]) -> TxOut {
    TxOut { asset: None, value: None, script_pubkey: script_pubkey.to_vec() }
}

#[test]
fn decode_reads_inputs_and_outputs() {
    let tx = Transaction::decode(&elements::encode::serialize(&sample())).unwrap();
    assert_eq!(tx.input.len(), 1);
    assert_eq!(tx.input[0].previous_output, OutPoint { txid: Txid { bytes: [9; 32] }, vout: 3 });
    assert_eq!(tx.output.len(), 2);
    assert_eq!(tx.output[0].asset, Some(AssetId { bytes: [7; 32] }));
    assert_eq!(tx.output[0].value, Some(1_500));
    assert_eq!(tx.output[0].script_pubkey, vec![0x51]);
    assert_eq!(tx.output[1].asset, None);
    assert_eq!(tx.output[1].value, None);
    assert_eq!(tx.output[1].script_pubkey, vec![0x6a, 0x01, 0x02]);
}

#[test]
fn decode_reads_the_txid() {
    let sent = sample();
    let tx = Transaction::decode(&elements::encode::serialize(&sent)).unwrap();
    let expected: [u8; 32] = elements::hashes::Hash::to_byte_array(sent.txid());
    assert_eq!(tx.txid, Txid { bytes: expected });

    let mut other = sample();
    other.version = 3;
    let other = Transaction::decode(&elements::encode::serialize(&other)).unwrap();
    assert_ne!(tx.txid, other.txid);
}

#[test]
fn decode_refuses_bytes_that_are_no_transaction() {
    assert!(Transaction::decode(&[]).is_none());
    let mut raw = elements::encode::serialize(&sample());
    raw.push(0);
    assert!(Transaction::decode(&raw).is_none());
    raw.pop();
    raw.pop();
    assert!(Transaction::decode(&raw).is_none());
}

#[test]
fn op_return_is_told_by_the_first_byte() {
    assert!(output(&[0x6a]).is_op_return());
    assert!(output(&[0x6a, 0xac]).is_op_return());
    assert!(!output(&[0x51, 0x6a]).is_op_return());
    assert!(!output(&[]).is_op_return());
}

#[test]
fn null_data_is_an_op_return_with_pushes() {
    assert!(output(&[0x6a]).is_null_data());
    assert!(output(&[0x6a, 0x02, 0xaa, 0xbb]).is_null_data());
    // Followed by an opcode that pushes nothing.
    assert!(!output(&[0x6a, 0xac]).is_null_data());
    // A push that runs past the end.
    assert!(!output(&[0x6a, 0x02, 0xaa]).is_null_data());
    assert!(!output(&[0x51]).is_null_data());
    assert!(!output(&[]).is_null_data());
}

#[test]
fn txid_is_read_from_thirty_two_bytes() {
    let mut bytes = [0u8; 32];
    bytes[0] = 1;
    bytes[31] = 2;
    assert_eq!(Txid::from_slice(&bytes), Some(Txid { bytes }));
    assert_eq!(Txid::from_slice(&bytes[..31]), None);
    assert_eq!(Txid::from_slice(&[0u8; 33]), None);
}

#[test]
fn ids_and_outpoints_compare_by_content() {
    let a = Txid { bytes: [1; 32] };
    let mut other = [1u8; 32];
    other[31] = 0;
    assert!(a == Txid { bytes: [1; 32] });
    assert!(a != Txid { bytes: other });
    assert!(AssetId { bytes: [1; 32] } != AssetId { bytes: other });
    assert!(OutPoint { txid: a, vout: 0 } != OutPoint { txid: a, vout: 1 });
    assert!(OutPoint { txid: a, vout: 4 } == OutPoint { txid: a, vout: 4 });
}

#[test]
fn byte_strings_are_compared_and_copied() {
    assert!(bytes_equal(&[1, 2, 3], &[1, 2, 3]));
    assert!(!bytes_equal(&[1, 2, 3], &[1, 2]));
    assert!(!bytes_equal(&[1, 2, 3], &[1, 2, 4]));
    assert!(bytes_equal(&[], &[]));
    assert_eq!(copy_bytes(&[4, 5]), vec![4, 5]);
}

#[test]
fn null_data_takes_one_push_of_every_short_length() {
    for n in 0u8..=75 {
        let mut script = vec![0x6a, n];
        script.resize(2 + n as usize, 0xff);
        assert!(output(&script).is_null_data());
        script.push(0xff);
        assert!(!output(&script).is_null_data());
    }
}

#[test]
fn null_data_takes_pushes_with_a_length() {
    let with = |header: &[u8], n: usize| {
        let mut script = vec![0x6a];
        script.extend_from_slice(header);
        script.resize(script.len() + n, 0xff);
        output(&script)
    };
    assert!(with(&[0x4c, 3], 3).is_null_data());
    assert!(!with(&[0x4c, 3], 2).is_null_data());
    assert!(!with(&[0x4c], 0).is_null_data());
    assert!(with(&[0x4d, 0x02, 0x01], 0x102).is_null_data());
    assert!(!with(&[0x4d, 0x02, 0x01], 0x101).is_null_data());
    assert!(!with(&[0x4d, 0x02], 0).is_null_data());
    assert!(with(&[0x4e, 0x01, 0x00, 0x01, 0x00], 0x1_0001).is_null_data());
    assert!(!with(&[0x4e, 0x01, 0x00, 0x01, 0x00], 0x1_0000).is_null_data());
    assert!(!with(&[0x4e, 0x00, 0x00, 0x00, 0x01], 9).is_null_data());
    assert!(!with(&[0x4e, 0x00, 0x00, 0x00], 0).is_null_data());
}

#[test]
fn null_data_takes_the_opcodes_up_to_the_last_that_pushes() {
    for op in 0u8..=255 {
        let taken = op == 0x00 || (0x4f <= op && op <= 0x60);
        assert_eq!(output(&[0x6a, op]).is_null_data(), taken);
        assert_eq!(output(&[op]).is_null_data(), op == 0x6a);
    }
    assert!(output(&[0x6a, 0x51, 0x01, 0xff, 0x60]).is_null_data());
    assert!(!output(&[0x6a, 0x51, 0x01, 0xff, 0x61]).is_null_data());
}
