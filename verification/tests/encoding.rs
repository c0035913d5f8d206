use sign_txs::parse::resolve_prevout;
use sign_txs::request::{
    build_signing_request, decode_command, fetch_command, prevouts_to_json, sign_command,
};
use sign_txs::types::{PrevOut, VoutInfo};

fn prevout(txid: &str, vout: u32, amount: &str, script: &str) -> PrevOut {
    PrevOut {
        txid: txid.to_string(),
        vout,
        amount: amount.to_string(),
        script_pubkey: script.to_string(),
    }
}

#[test]
fn serializes_one_prevout_exactly() {
    let ps = vec![prevout("ab", 12345, "0.5", "51aa")];
    assert_eq!(
        prevouts_to_json(&ps),
        r#"[{"txid":"ab","vout":12345,"amount":0.5,"scriptPubKey":"51aa"}]"#
    );
}

#[test]
fn serializes_empty_and_many() {
    assert_eq!(prevouts_to_json(&Vec::new()), "[]");
    let ps = vec![prevout("a", 0, "1", "00"), prevout("b", 4294967295, "2", "01")];
    assert_eq!(
        prevouts_to_json(&ps),
        r#"[{"txid":"a","vout":0,"amount":1,"scriptPubKey":"00"},{"txid":"b","vout":4294967295,"amount":2,"scriptPubKey":"01"}]"#
    );
}

#[test]
fn escapes_quotes_backslashes_and_controls() {
    let ps = vec![prevout("a\"b\\c\nd", 7, "1", "00")];
    assert_eq!(
        prevouts_to_json(&ps),
        "[{\"txid\":\"a\\\"b\\\\c\\u000ad\",\"vout\":7,\"amount\":1,\"scriptPubKey\":\"00\"}]"
    );
}

#[test]
fn builds_request_only_when_something_resolved() {
    let raw = "beef".to_string();
    assert!(build_signing_request(&raw, Vec::new()).is_none());
    let req = build_signing_request(&raw, vec![prevout("a", 0, "1", "00")]).unwrap();
    assert_eq!(req.raw_tx, "beef");
    assert_eq!(req.prevouts.len(), 1);
}

#[test]
fn resolver_finds_output_in_range() {
    let vouts = vec![
        VoutInfo { amount: "1".to_string(), script_hex: "00".to_string() },
        VoutInfo { amount: "0.25".to_string(), script_hex: "51".to_string() },
    ];
    let p = resolve_prevout(&"aa".to_string(), 1, &vouts).unwrap();
    assert_eq!(p.txid, "aa");
    assert_eq!(p.vout, 1);
    assert_eq!(p.amount, "0.25");
    assert_eq!(p.script_pubkey, "51");
}

#[test]
fn resolver_reports_absent_index_as_none() {
    let vouts = vec![VoutInfo { amount: "1".to_string(), script_hex: "00".to_string() }];
    assert!(resolve_prevout(&"aa".to_string(), 1, &vouts).is_none());
    assert!(resolve_prevout(&"aa".to_string(), 7, &Vec::new()).is_none());
}

#[test]
fn command_shapes_match_the_service() {
    let c = decode_command(&"beef".to_string());
    assert_eq!(c.name, "decoderawtransaction");
    assert_eq!(c.args, vec!["beef".to_string()]);
    assert!(!c.wallet);

    let c = fetch_command(&"aa".to_string());
    assert_eq!(c.name, "getrawtransaction");
    assert_eq!(c.args, vec!["aa".to_string(), "true".to_string()]);
    assert!(!c.wallet);

    let req = build_signing_request(&"beef".to_string(), vec![prevout("a", 2, "3", "04")])
        .unwrap();
    let c = sign_command(&req);
    assert_eq!(c.name, "signrawtransactionwithwallet");
    assert_eq!(c.args.len(), 2);
    assert_eq!(c.args[0], "beef");
    assert_eq!(c.args[1], r#"[{"txid":"a","vout":2,"amount":3,"scriptPubKey":"04"}]"#);
    assert!(c.wallet);
}
