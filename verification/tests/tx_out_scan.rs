use lending_indexer::chain::{AssetId, Transaction, TxOut, Txid};
use lending_indexer::tx_out_scan::{find_unique_vout, has_matching_vout, TxOutFilter};

const GOLD: AssetId = AssetId { bytes: [1; 32] };
const SILVER: AssetId = AssetId { bytes: [2; 32] };

fn output(asset: Option<AssetId>, value: Option<u64>, script: &[u8]) -> TxOut {
    TxOut { asset, value, script_pubkey: script.to_vec() }
}

fn sample() -> Transaction {
    Transaction {
        txid: Txid { bytes: [0; 32] },
        input: vec![],
        output: vec![
            output(Some(GOLD), Some(100), &[0x51]),
            output(Some(SILVER), Some(100), &[0x6a, 0x01]),
            output(Some(GOLD), Some(250), &[0x52]),
            output(None, Some(999), &[0x53]),
            output(Some(SILVER), None, &[0x54]),
        ],
    }
}

#[test]
fn unset_filter_matches_explicit_outputs_only() {
    let tx = sample();
    let filter = TxOutFilter::new();
    let matching: Vec<bool> = tx.output.iter().map(|o| filter.matches(o)).collect();
    assert_eq!(matching, vec![true, true, true, false, false]);
    assert!(TxOutFilter::default().matches(&tx.output[0]));
    assert!(!TxOutFilter::default().matches(&tx.output[3]));
}

#[test]
fn every_condition_is_applied() {
    let tx = sample();
    let gold = &tx.output[0];
    assert!(TxOutFilter::new().asset(GOLD).matches(gold));
    assert!(!TxOutFilter::new().asset(SILVER).matches(gold));
    assert!(TxOutFilter::new().amount(100).matches(gold));
    assert!(!TxOutFilter::new().amount(101).matches(gold));
    assert!(TxOutFilter::new().min_amount(100).matches(gold));
    assert!(!TxOutFilter::new().min_amount(101).matches(gold));
    assert!(TxOutFilter::new().script_pubkey(&[0x51]).matches(gold));
    assert!(!TxOutFilter::new().script_pubkey(&[0x51, 0x00]).matches(gold));
    assert!(TxOutFilter::new().require_op_return(false).matches(gold));
    assert!(!TxOutFilter::new().require_op_return(true).matches(gold));
    assert!(TxOutFilter::new().require_op_return(true).matches(&tx.output[1]));
    assert!(!TxOutFilter::new().require_op_return(false).matches(&tx.output[1]));
}

#[test]
fn unique_output_is_found_with_its_amount() {
    let tx = sample();
    assert_eq!(find_unique_vout(&tx, TxOutFilter::new().amount(250)), Some((2, 250)));
    assert_eq!(find_unique_vout(&tx, TxOutFilter::new().asset(SILVER)), Some((1, 100)));
    assert_eq!(
        find_unique_vout(&tx, TxOutFilter::new().asset(GOLD).min_amount(101)),
        Some((2, 250))
    );
}

#[test]
fn several_or_no_matches_are_not_unique() {
    let tx = sample();
    assert_eq!(find_unique_vout(&tx, TxOutFilter::new().asset(GOLD)), None);
    assert_eq!(find_unique_vout(&tx, TxOutFilter::new().amount(999)), None);
    assert!(has_matching_vout(&tx, TxOutFilter::new().asset(GOLD)));
    assert!(!has_matching_vout(&tx, TxOutFilter::new().amount(999)));
}

#[test]
fn unique_output_is_also_a_match() {
    let tx = sample();
    let filter = TxOutFilter::new().amount(250);
    assert!(find_unique_vout(&tx, filter).is_some());
    assert!(has_matching_vout(&tx, filter));
}

#[test]
fn a_further_condition_narrows_the_filter() {
    let tx = sample();
    let wide = TxOutFilter::new().asset(GOLD);
    let narrow = wide.min_amount(200);
    for o in &tx.output {
        assert_eq!(narrow.matches(o), wide.matches(o) && o.value.unwrap_or(0) >= 200);
    }
}
