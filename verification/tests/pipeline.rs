use serde_json::{Number, Value};
use txpipe::amount::{Amount, FeeRate};
use txpipe::error::ErrorKind;
use txpipe::sink::{record_line, ResultSink};
use txpipe::tx::OutputSpec;
use txpipe::workflow::{Action, Config, Event, Pipeline, Stage};

const PAYMENT_ADDRESS: &str = "bcrt1qq2yshcmzdlznnpxx258xswqlmqcxjs4dssfxt2";
const DATA_PAYLOAD: &str = "57652061726520616c6c205361746f7368692121";

fn config() -> Config {
    Config {
        wallet_name: "testwallet".to_string(),
        payment_address: PAYMENT_ADDRESS.to_string(),
        payment_amount: Amount::from_units(100).unwrap(),
        data_payload_hex: DATA_PAYLOAD.to_string(),
        fee_rate: FeeRate::new(21).unwrap(),
        blocks_to_mine: 103,
        input_limit: 3,
    }
}

fn obj(entries: Vec<(&str, Value)>) -> Value {
    let mut m = serde_json::Map::new();
    for (k, v) in entries {
        m.insert(k.to_string(), v);
    }
    Value::Object(m)
}

fn text(s: &str) -> Value {
    Value::String(s.to_string())
}

fn listing_txid(tag: char) -> String {
    std::iter::repeat(tag).take(64).collect()
}

fn unspent_listing(count: usize) -> Value {
    let tags = ['a', 'b', 'c', 'd', 'e', 'f'];
    let mut elems = Vec::new();
    for i in 0..count {
        elems.push(obj(vec![
            ("txid", text(&listing_txid(tags[i % tags.len()]))),
            ("vout", Value::Number(Number::from(i as u64))),
            ("amount", Value::Number(Number::from(50u64))),
        ]));
    }
    Value::Array(elems)
}

/// Drive a fresh pipeline up to the point where it awaits the signing result.
fn advance_to_signing() -> (Pipeline, String) {
    let pipeline = Pipeline::new(config());
    assert!(matches!(pipeline.first_action(), Action::GetBlockchainInfo));

    let (pipeline, action) = pipeline.step(Event::CallOk);
    match &action {
        Action::CreateWallet { name } => assert_eq!(name, "testwallet"),
        _ => panic!("expected the wallet-creation action"),
    }

    let (pipeline, action) = pipeline.step(Event::CallOk);
    assert!(matches!(action, Action::GetNewAddress));

    let (pipeline, action) = pipeline.step(Event::CallText { text: PAYMENT_ADDRESS.to_string() });
    match &action {
        Action::MineBlocks { count, address } => {
            assert_eq!(*count, 103);
            assert_eq!(address, PAYMENT_ADDRESS);
        },
        _ => panic!("expected the mining action"),
    }

    let (pipeline, action) = pipeline.step(Event::CallOk);
    assert!(matches!(action, Action::ListUnspent));

    let (pipeline, action) = pipeline.step(Event::CallJson { value: unspent_listing(5) });
    match &action {
        Action::CreateRawTransaction { request } => {
            assert_eq!(request.inputs.len(), 3);
            assert_eq!(request.inputs[0].txid, listing_txid('a'));
            assert_eq!(request.inputs[1].txid, listing_txid('b'));
            assert_eq!(request.inputs[2].txid, listing_txid('c'));
            assert_eq!(request.inputs[2].vout, 2);
            assert_eq!(request.outputs.len(), 2);
            match &request.outputs[0] {
                OutputSpec::Payment { address, amount } => {
                    assert_eq!(address, PAYMENT_ADDRESS);
                    assert_eq!(amount.to_decimal_text(), "100.00000000");
                },
                _ => panic!("expected the payment output first"),
            }
            match &request.outputs[1] {
                OutputSpec::Data { payload_hex } => assert_eq!(payload_hex, DATA_PAYLOAD),
                _ => panic!("expected the data-carrier output second"),
            }
        },
        _ => panic!("expected the raw-transaction action"),
    }

    let (pipeline, action) = pipeline.step(Event::CallJson { value: text("0200aa") });
    match &action {
        Action::FundRawTransaction { tx_hex, fee_rate_sat_per_vb } => {
            assert_eq!(tx_hex, "0200aa");
            assert_eq!(*fee_rate_sat_per_vb, 21);
        },
        _ => panic!("expected the funding action"),
    }

    let (pipeline, action) =
        pipeline.step(Event::CallJson { value: obj(vec![("hex", text("0200bb"))]) });
    let funded_hex = match action {
        Action::SignRawTransaction { tx_hex } => tx_hex,
        _ => panic!("expected the signing action"),
    };
    assert_eq!(funded_hex, "0200bb");
    (pipeline, funded_hex)
}

#[test]
fn full_run_persists_one_hex_line() {
    let (pipeline, _) = advance_to_signing();

    let (pipeline, action) = pipeline.step(Event::CallJson {
        value: obj(vec![("hex", text("0200cc")), ("complete", Value::Bool(true))]),
    });
    match &action {
        Action::SendRawTransaction { tx_hex } => assert_eq!(tx_hex, "0200cc"),
        _ => panic!("expected the broadcast action"),
    }

    let txid = listing_txid('d');
    let (pipeline, action) = pipeline.step(Event::CallJson { value: text(&txid) });
    let mut sink = ResultSink::new();
    match action {
        Action::PersistRecord { record } => {
            assert_eq!(record, format!("{}\n", txid));
            assert_eq!(record.lines().count(), 1);
            let line = record.lines().next().unwrap();
            assert_eq!(line.len(), 64);
            assert!(line.chars().all(|c| c.is_ascii_hexdigit()));
            assert_eq!(line, txid);
            sink.write_record(record);
        },
        _ => panic!("expected the persist action"),
    }

    let (pipeline, action) = pipeline.step(Event::WriteOk);
    assert!(matches!(action, Action::Finish));
    match &pipeline.stage {
        Stage::Done { txid: done } => assert_eq!(done, &txid),
        _ => panic!("expected the pipeline to be done"),
    }
    assert_eq!(sink.content, format!("{}\n", txid));
}

#[test]
fn incomplete_signing_halts_before_broadcast() {
    let (pipeline, _) = advance_to_signing();
    let (pipeline, action) = pipeline.step(Event::CallJson {
        value: obj(vec![("hex", text("0200cc")), ("complete", Value::Bool(false))]),
    });
    assert!(matches!(action, Action::Abort));
    match &pipeline.stage {
        Stage::Failed { error } => {
            assert_eq!(error.kind, ErrorKind::NodeLogic);
            assert_eq!(error.stage, "signing");
            assert_eq!(error.message, "signing incomplete");
        },
        _ => panic!("expected the pipeline to have failed"),
    }
}

#[test]
fn duplicate_broadcast_is_a_node_logic_error() {
    let (pipeline, _) = advance_to_signing();
    let (pipeline, action) = pipeline.step(Event::CallJson {
        value: obj(vec![("hex", text("0200cc")), ("complete", Value::Bool(true))]),
    });
    assert!(matches!(action, Action::SendRawTransaction { .. }));
    let (pipeline, action) = pipeline.step(Event::NodeError {
        message: "txn-already-in-mempool".to_string(),
    });
    assert!(matches!(action, Action::Abort));
    match &pipeline.stage {
        Stage::Failed { error } => {
            assert_eq!(error.kind, ErrorKind::NodeLogic);
            assert_ne!(error.kind, ErrorKind::Transport);
            assert_eq!(error.stage, "broadcast");
            assert_eq!(error.message, "txn-already-in-mempool");
        },
        _ => panic!("expected the pipeline to have failed"),
    }
}

#[test]
fn transport_failure_is_a_transport_error() {
    let pipeline = Pipeline::new(config());
    let (pipeline, action) =
        pipeline.step(Event::TransportError { message: "connection refused".to_string() });
    assert!(matches!(action, Action::Abort));
    match &pipeline.stage {
        Stage::Failed { error } => {
            assert_eq!(error.kind, ErrorKind::Transport);
            assert_eq!(error.stage, "connectivity check");
            assert_eq!(error.message, "connection refused");
        },
        _ => panic!("expected the pipeline to have failed"),
    }
}

#[test]
fn insufficient_funds_at_funding_is_terminal() {
    let pipeline = Pipeline::new(config());
    let (pipeline, _) = pipeline.step(Event::CallOk);
    let (pipeline, _) = pipeline.step(Event::CallOk);
    let (pipeline, _) = pipeline.step(Event::CallText { text: PAYMENT_ADDRESS.to_string() });
    let (pipeline, _) = pipeline.step(Event::CallOk);
    let (pipeline, _) = pipeline.step(Event::CallJson { value: unspent_listing(1) });
    let (pipeline, _) = pipeline.step(Event::CallJson { value: text("0200aa") });
    let (pipeline, action) =
        pipeline.step(Event::NodeError { message: "Insufficient funds".to_string() });
    assert!(matches!(action, Action::Abort));
    match &pipeline.stage {
        Stage::Failed { error } => {
            assert_eq!(error.kind, ErrorKind::NodeLogic);
            assert_eq!(error.stage, "funding");
            assert_eq!(error.message, "Insufficient funds");
        },
        _ => panic!("expected the pipeline to have failed"),
    }
}

#[test]
fn funding_response_without_hex_is_local_validation() {
    let pipeline = Pipeline::new(config());
    let (pipeline, _) = pipeline.step(Event::CallOk);
    let (pipeline, _) = pipeline.step(Event::CallOk);
    let (pipeline, _) = pipeline.step(Event::CallText { text: PAYMENT_ADDRESS.to_string() });
    let (pipeline, _) = pipeline.step(Event::CallOk);
    let (pipeline, _) = pipeline.step(Event::CallJson { value: unspent_listing(1) });
    let (pipeline, _) = pipeline.step(Event::CallJson { value: text("0200aa") });
    let (pipeline, action) =
        pipeline.step(Event::CallJson { value: obj(vec![("fee", text("0.0001"))]) });
    assert!(matches!(action, Action::Abort));
    match &pipeline.stage {
        Stage::Failed { error } => {
            assert_eq!(error.kind, ErrorKind::LocalValidation);
            assert_eq!(error.stage, "funding");
            assert_eq!(error.message, "hex");
        },
        _ => panic!("expected the pipeline to have failed"),
    }
}

#[test]
fn malformed_broadcast_identifier_is_rejected() {
    let (pipeline, _) = advance_to_signing();
    let (pipeline, _) = pipeline.step(Event::CallJson {
        value: obj(vec![("hex", text("0200cc")), ("complete", Value::Bool(true))]),
    });
    let (pipeline, action) = pipeline.step(Event::CallJson { value: text("not-a-txid") });
    assert!(matches!(action, Action::Abort));
    match &pipeline.stage {
        Stage::Failed { error } => {
            assert_eq!(error.kind, ErrorKind::LocalValidation);
            assert_eq!(error.message, "malformed transaction identifier");
        },
        _ => panic!("expected the pipeline to have failed"),
    }
}

#[test]
fn zero_unspent_outputs_still_build() {
    let pipeline = Pipeline::new(config());
    let (pipeline, _) = pipeline.step(Event::CallOk);
    let (pipeline, _) = pipeline.step(Event::CallOk);
    let (pipeline, _) = pipeline.step(Event::CallText { text: PAYMENT_ADDRESS.to_string() });
    let (pipeline, _) = pipeline.step(Event::CallOk);
    let (_, action) = pipeline.step(Event::CallJson { value: Value::Array(Vec::new()) });
    match &action {
        Action::CreateRawTransaction { request } => {
            assert_eq!(request.inputs.len(), 0);
            assert_eq!(request.outputs.len(), 2);
        },
        _ => panic!("expected the raw-transaction action"),
    }
}

#[test]
fn persist_overwrites_previous_record() {
    let first = record_line(&listing_txid('a'));
    let second = record_line(&listing_txid('b'));
    let mut sink = ResultSink::new();
    sink.write_record(first);
    sink.write_record(second);
    assert_eq!(sink.content, format!("{}\n", listing_txid('b')));
    assert_eq!(sink.content.lines().count(), 1);
}

#[test]
fn record_line_appends_exactly_one_newline() {
    assert_eq!(record_line("abc"), "abc\n");
}

#[test]
fn write_failure_is_an_io_error() {
    let (pipeline, _) = advance_to_signing();
    let (pipeline, _) = pipeline.step(Event::CallJson {
        value: obj(vec![("hex", text("0200cc")), ("complete", Value::Bool(true))]),
    });
    let (pipeline, _) = pipeline.step(Event::CallJson { value: text(&listing_txid('e')) });
    let (pipeline, action) =
        pipeline.step(Event::WriteError { message: "permission denied".to_string() });
    assert!(matches!(action, Action::Abort));
    match &pipeline.stage {
        Stage::Failed { error } => {
            assert_eq!(error.kind, ErrorKind::Io);
            assert_eq!(error.stage, "persist");
            assert_eq!(error.message, "permission denied");
        },
        _ => panic!("expected the pipeline to have failed"),
    }
}

#[test]
fn unusable_address_reported_locally_is_local_validation() {
    let pipeline = Pipeline::new(config());
    let (pipeline, _) = pipeline.step(Event::CallOk);
    let (pipeline, _) = pipeline.step(Event::CallOk);
    let (pipeline, _) = pipeline.step(Event::CallText { text: PAYMENT_ADDRESS.to_string() });
    let (pipeline, action) =
        pipeline.step(Event::LocalError { message: "unusable address".to_string() });
    assert!(matches!(action, Action::Abort));
    match &pipeline.stage {
        Stage::Failed { error } => {
            assert_eq!(error.kind, ErrorKind::LocalValidation);
            assert_eq!(error.stage, "block generation");
            assert_eq!(error.message, "unusable address");
        },
        _ => panic!("expected the pipeline to have failed"),
    }
}

#[test]
fn listing_with_malformed_identifier_fails_locally() {
    let pipeline = Pipeline::new(config());
    let (pipeline, _) = pipeline.step(Event::CallOk);
    let (pipeline, _) = pipeline.step(Event::CallOk);
    let (pipeline, _) = pipeline.step(Event::CallText { text: PAYMENT_ADDRESS.to_string() });
    let (pipeline, _) = pipeline.step(Event::CallOk);
    let bad = Value::Array(vec![obj(vec![
        ("txid", text("deadbeef")),
        ("vout", Value::Number(Number::from(0u64))),
    ])]);
    let (pipeline, action) = pipeline.step(Event::CallJson { value: bad });
    assert!(matches!(action, Action::Abort));
    match &pipeline.stage {
        Stage::Failed { error } => {
            assert_eq!(error.kind, ErrorKind::LocalValidation);
            assert_eq!(error.stage, "unspent listing");
            assert_eq!(error.message, "malformed transaction request");
        },
        _ => panic!("expected the pipeline to have failed"),
    }
}
