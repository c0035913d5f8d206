use sign_txs::session::{Batch, Step};
use sign_txs::types::{GatewayReply, RunError};

fn out(s: &str) -> GatewayReply {
    GatewayReply::Output(s.to_string())
}

#[test]
fn scenario_a_all_witnessed_passthrough() {
    let (mut batch, step) = Batch::new(vec!["aaaa".to_string()]);
    let cmd = match step {
        Step::Call(c) => c,
        _ => panic!("expected the decode call"),
    };
    assert_eq!(cmd.name, "decoderawtransaction");
    assert_eq!(cmd.args, vec!["aaaa".to_string()]);
    assert!(!cmd.wallet);
    // One input, already carrying a witness: no resolver call, no signer call.
    let step = batch.on_reply(out(r#"{"vin":[{"txid":"bb","vout":0,"txinwitness":["00"]}]}"#));
    assert!(matches!(step, Step::Done));
    assert!(batch.finished());
    assert_eq!(batch.into_results(), vec!["aaaa".to_string()]);
}

#[test]
fn scenario_a_zero_inputs_passthrough() {
    let (mut batch, step) = Batch::new(vec!["cafe".to_string()]);
    assert!(matches!(step, Step::Call(_)));
    let step = batch.on_reply(out(r#"{"vin":[]}"#));
    assert!(matches!(step, Step::Done));
    assert_eq!(batch.into_results(), vec!["cafe".to_string()]);
}

#[test]
fn scenario_b_one_input_signs() {
    let (mut batch, step) = Batch::new(vec!["beef01".to_string()]);
    let cmd = match step {
        Step::Call(c) => c,
        _ => panic!("expected the decode call"),
    };
    assert_eq!(cmd.name, "decoderawtransaction");

    // One unwitnessed input referencing output 1 of transaction "aa".
    let step = batch.on_reply(out(r#"{"vin":[{"txid":"aa","vout":1}]}"#));
    let cmd = match step {
        Step::Call(c) => c,
        _ => panic!("expected the fetch call"),
    };
    assert_eq!(cmd.name, "getrawtransaction");
    assert_eq!(cmd.args, vec!["aa".to_string(), "true".to_string()]);
    assert!(!cmd.wallet);

    // The node knows the output: the signer is invoked with exactly one
    // previous output, serialized exactly.
    let step = batch.on_reply(out(
        r#"{"vout":[{"value":1,"scriptPubKey":{"hex":"00"}},{"value":0.5,"scriptPubKey":{"hex":"51"}}]}"#,
    ));
    let cmd = match step {
        Step::Call(c) => c,
        _ => panic!("expected the sign call"),
    };
    assert_eq!(cmd.name, "signrawtransactionwithwallet");
    assert!(cmd.wallet);
    assert_eq!(cmd.args.len(), 2);
    assert_eq!(cmd.args[0], "beef01");
    assert_eq!(
        cmd.args[1],
        r#"[{"txid":"aa","vout":1,"amount":0.5,"scriptPubKey":"51"}]"#
    );

    let step = batch.on_reply(out(r#"{"hex":"cafe","complete":true}"#));
    assert!(matches!(step, Step::Done));
    assert!(batch.warnings.is_empty());
    let results = batch.into_results();
    assert_eq!(results, vec!["cafe".to_string()]);
    assert_ne!(results[0], "beef01");
}

#[test]
fn scenario_c_absent_prevout_is_skipped_not_fatal() {
    let (mut batch, step) = Batch::new(vec!["dd00".to_string()]);
    assert!(matches!(step, Step::Call(_)));

    // Two unwitnessed inputs; the second references an output of a sibling
    // transaction the node has not seen.
    let step = batch.on_reply(out(
        r#"{"vin":[{"txid":"bb","vout":0},{"txid":"cc","vout":3}]}"#,
    ));
    let cmd = match step {
        Step::Call(c) => c,
        _ => panic!("expected the first fetch call"),
    };
    assert_eq!(cmd.args[0], "bb");

    let step = batch.on_reply(out(r#"{"vout":[{"value":2,"scriptPubKey":{"hex":"52"}}]}"#));
    let cmd = match step {
        Step::Call(c) => c,
        _ => panic!("expected the second fetch call"),
    };
    assert_eq!(cmd.args[0], "cc");

    // The node's reply has no output 3: resolved as absent, excluded from the
    // request, and the transaction still goes to the signer with the rest.
    let step = batch.on_reply(out(r#"{"vout":[{"value":9,"scriptPubKey":{"hex":"99"}}]}"#));
    let cmd = match step {
        Step::Call(c) => c,
        _ => panic!("expected the sign call"),
    };
    assert_eq!(
        cmd.args[1],
        r#"[{"txid":"bb","vout":0,"amount":2,"scriptPubKey":"52"}]"#
    );

    // The signer reports incomplete with one error record: not fatal, the
    // output is still emitted and the record is kept as a warning.
    let step = batch.on_reply(out(
        r#"{"hex":"dd99","complete":false,"errors":[{"error":"missing","txid":"cc"}]}"#,
    ));
    assert!(matches!(step, Step::Done));
    assert_eq!(batch.warnings.len(), 1);
    assert_eq!(batch.warnings[0], r#"{"error":"missing","txid":"cc"}"#);
    assert_eq!(batch.into_results(), vec!["dd99".to_string()]);
}

#[test]
fn scenario_d_gateway_failure_aborts_whole_batch() {
    let txs = vec!["01".to_string(), "02".to_string(), "03".to_string()];
    let (mut batch, step) = Batch::new(txs);
    assert!(matches!(step, Step::Call(_)));
    // First transaction passes through.
    let step = batch.on_reply(out(r#"{"vin":[]}"#));
    assert!(matches!(step, Step::Call(_)));
    // The gateway fails on the second transaction's decode: the whole run
    // aborts, the diagnostic text is carried verbatim, and no output exists.
    let step = batch.on_reply(GatewayReply::Failure(
        "bitcoin-cli failed: connection refused".to_string(),
    ));
    match step {
        Step::Abort(RunError::Gateway(m)) => {
            assert_eq!(m, "bitcoin-cli failed: connection refused");
        }
        _ => panic!("expected the gateway abort"),
    }
    assert!(!batch.finished());
}

#[test]
fn output_keeps_length_and_order() {
    let txs = vec!["0a".to_string(), "0b".to_string()];
    let (mut batch, step) = Batch::new(txs.clone());
    assert!(matches!(step, Step::Call(_)));
    let step = batch.on_reply(out(r#"{"vin":[]}"#));
    assert!(matches!(step, Step::Call(_)));
    let step = batch.on_reply(out(r#"{"vin":[]}"#));
    assert!(matches!(step, Step::Done));
    assert_eq!(batch.into_results(), txs);
}

#[test]
fn empty_batch_is_complete_at_once() {
    let (batch, step) = Batch::new(Vec::new());
    assert!(matches!(step, Step::Done));
    assert!(batch.finished());
    assert!(batch.into_results().is_empty());
}

#[test]
fn malformed_decode_reply_aborts() {
    let (mut batch, _) = Batch::new(vec!["aa".to_string()]);
    let step = batch.on_reply(out("not json at all"));
    match step {
        Step::Abort(RunError::Parse(m)) => {
            assert_eq!(m, "Failed to parse decoded transaction");
        }
        _ => panic!("expected the parse abort"),
    }
}

#[test]
fn wrong_shape_decode_reply_aborts() {
    // Well-formed JSON without the expected input list is still a parse
    // error, with the decoder's own message.
    let (mut batch, _) = Batch::new(vec!["aa".to_string()]);
    let step = batch.on_reply(out(r#"{"version":2}"#));
    match step {
        Step::Abort(RunError::Parse(m)) => {
            assert_eq!(m, "Failed to parse decoded transaction");
        }
        _ => panic!("expected the parse abort"),
    }
}

#[test]
fn malformed_fetch_reply_aborts() {
    let (mut batch, _) = Batch::new(vec!["aa".to_string()]);
    let step = batch.on_reply(out(r#"{"vin":[{"txid":"bb","vout":0}]}"#));
    assert!(matches!(step, Step::Call(_)));
    let step = batch.on_reply(out(r#"{"vout":[{"value":1}]}"#));
    match step {
        Step::Abort(RunError::Parse(m)) => {
            assert_eq!(m, "Failed to parse transaction info");
        }
        _ => panic!("expected the parse abort"),
    }
}

#[test]
fn malformed_sign_reply_aborts() {
    let (mut batch, _) = Batch::new(vec!["aa".to_string()]);
    let step = batch.on_reply(out(r#"{"vin":[{"txid":"bb","vout":0}]}"#));
    assert!(matches!(step, Step::Call(_)));
    let step = batch.on_reply(out(r#"{"vout":[{"value":1,"scriptPubKey":{"hex":"00"}}]}"#));
    assert!(matches!(step, Step::Call(_)));
    let step = batch.on_reply(out(r#"{"hex":"zz"}"#));
    match step {
        Step::Abort(RunError::Parse(m)) => {
            assert_eq!(m, "Failed to parse sign result");
        }
        _ => panic!("expected the parse abort"),
    }
}

#[test]
fn oversized_vout_index_aborts() {
    let (mut batch, _) = Batch::new(vec!["aa".to_string()]);
    let step = batch.on_reply(out(r#"{"vin":[{"txid":"bb","vout":4294967296}]}"#));
    assert!(matches!(step, Step::Abort(RunError::Parse(_))));
}

#[test]
fn all_witnessed_prevouts_of_earlier_inputs_absent_passthrough() {
    // Every unwitnessed input resolves as absent: nothing to sign, the
    // original hex passes through unchanged.
    let (mut batch, _) = Batch::new(vec!["feed".to_string()]);
    let step = batch.on_reply(out(r#"{"vin":[{"txid":"bb","vout":5}]}"#));
    assert!(matches!(step, Step::Call(_)));
    let step = batch.on_reply(out(r#"{"vout":[]}"#));
    assert!(matches!(step, Step::Done));
    assert_eq!(batch.into_results(), vec!["feed".to_string()]);
}

#[test]
fn unknown_prevout_transaction_is_skipped_not_fatal() {
    // The node does not know the referenced transaction of the first input
    // (it comes from a sibling of the same batch, not yet broadcast): the
    // report is absence, the input is skipped, and signing proceeds with
    // the remaining resolvable input only.
    let (mut batch, _) = Batch::new(vec!["f00d".to_string()]);
    let step = batch.on_reply(out(r#"{"vin":[{"txid":"bb","vout":0},{"txid":"cc","vout":0}]}"#));
    let cmd = match step {
        Step::Call(c) => c,
        _ => panic!("expected the first fetch call"),
    };
    assert_eq!(cmd.args[0], "bb");
    let step = batch.on_reply(GatewayReply::NotFound(
        "bitcoin-cli failed: No such mempool or blockchain transaction".to_string(),
    ));
    let cmd = match step {
        Step::Call(c) => c,
        _ => panic!("expected the second fetch call"),
    };
    assert_eq!(cmd.name, "getrawtransaction");
    assert_eq!(cmd.args[0], "cc");
    let step = batch.on_reply(out(r#"{"vout":[{"value":3,"scriptPubKey":{"hex":"53"}}]}"#));
    let cmd = match step {
        Step::Call(c) => c,
        _ => panic!("expected the sign call"),
    };
    assert_eq!(
        cmd.args[1],
        r#"[{"txid":"cc","vout":0,"amount":3,"scriptPubKey":"53"}]"#
    );
    let step = batch.on_reply(out(r#"{"hex":"f00dd","complete":true}"#));
    assert!(matches!(step, Step::Done));
    assert_eq!(batch.into_results(), vec!["f00dd".to_string()]);
}

#[test]
fn unknown_transaction_alone_passes_through() {
    // A single unwitnessed input whose referenced transaction the node does
    // not know: nothing resolvable, so the original hex passes through.
    let (mut batch, _) = Batch::new(vec!["abcd".to_string()]);
    let step = batch.on_reply(out(r#"{"vin":[{"txid":"bb","vout":0}]}"#));
    assert!(matches!(step, Step::Call(_)));
    let step = batch.on_reply(GatewayReply::NotFound(
        "No such mempool or blockchain transaction".to_string(),
    ));
    assert!(matches!(step, Step::Done));
    assert_eq!(batch.into_results(), vec!["abcd".to_string()]);
}

#[test]
fn unknown_report_outside_a_fetch_aborts() {
    // The "unknown" classification is meaningful only while a fetch is
    // awaited; for a decode call it is a failed call like any other.
    let (mut batch, _) = Batch::new(vec!["aa".to_string()]);
    let step = batch.on_reply(GatewayReply::NotFound("odd complaint".to_string()));
    match step {
        Step::Abort(RunError::Gateway(m)) => assert_eq!(m, "odd complaint"),
        _ => panic!("expected the gateway abort"),
    }
    assert!(!batch.finished());
}

#[test]
fn round_trip_witness_set_consistent_with_request() {
    // After a signing run, decoding the signer's output again must show
    // witnesses on a set of inputs consistent with what the request held.
    let (mut batch, _) = Batch::new(vec!["beef".to_string()]);
    let step = batch.on_reply(out(r#"{"vin":[{"txid":"aa","vout":0},{"txid":"cc","vout":0}]}"#));
    assert!(matches!(step, Step::Call(_)));
    let step = batch.on_reply(out(r#"{"vout":[{"value":1,"scriptPubKey":{"hex":"51"}}]}"#));
    assert!(matches!(step, Step::Call(_)));
    // Only input 0 resolved; the request held exactly input 0's prevout.
    let step = batch.on_reply(out(r#"{"vout":[]}"#));
    let cmd = match step {
        Step::Call(c) => c,
        _ => panic!("expected the sign call"),
    };
    assert_eq!(
        cmd.args[1],
        r#"[{"txid":"aa","vout":0,"amount":1,"scriptPubKey":"51"}]"#
    );
    let step = batch.on_reply(out(r#"{"hex":"beefed","complete":false,"errors":[]}"#));
    assert!(matches!(step, Step::Done));

    // The signer's output, decoded again (scripted as the node would decode
    // it): input 0 now carries a witness, input 1 still does not — the
    // witnessed set matches the set the request covered.
    let redecoded = sign_txs::parse::parse_decode_response(
        r#"{"vin":[{"txid":"aa","vout":0,"txinwitness":["30"]},{"txid":"cc","vout":0}]}"#,
    )
    .unwrap();
    assert!(redecoded[0].has_witness);
    assert!(!redecoded[1].has_witness);
}
