use txpipe::amount::{Amount, FeeRate};
use txpipe::error::BuildError;
use txpipe::tx::{build, OutputSpec, TxInputRef};

fn valid_txid() -> String {
    std::iter::repeat('f').take(64).collect()
}

fn payment_output() -> OutputSpec {
    OutputSpec::Payment {
        address: "bcrt1qq2yshcmzdlznnpxx258xswqlmqcxjs4dssfxt2".to_string(),
        amount: Amount::from_units(100).unwrap(),
    }
}

fn data_output() -> OutputSpec {
    OutputSpec::Data { payload_hex: "57652061726520616c6c205361746f7368692121".to_string() }
}

#[test]
fn build_with_zero_inputs_and_outputs_succeeds() {
    let request = build(Vec::new(), vec![payment_output(), data_output()]).unwrap();
    assert_eq!(request.inputs.len(), 0);
    assert_eq!(request.outputs.len(), 2);
}

#[test]
fn build_passes_inputs_and_outputs_through() {
    let inputs = vec![TxInputRef { txid: valid_txid(), vout: 1 }];
    let request = build(inputs, vec![payment_output()]).unwrap();
    assert_eq!(request.inputs.len(), 1);
    assert_eq!(request.inputs[0].txid, valid_txid());
    assert_eq!(request.inputs[0].vout, 1);
}

#[test]
fn build_with_no_outputs_fails() {
    let inputs = vec![TxInputRef { txid: valid_txid(), vout: 0 }];
    match build(inputs, Vec::new()) {
        Err(BuildError::NoOutputs) => {},
        _ => panic!("expected the no-outputs error"),
    }
}

#[test]
fn build_rejects_malformed_input_reference() {
    let inputs = vec![
        TxInputRef { txid: valid_txid(), vout: 0 },
        TxInputRef { txid: "deadbeef".to_string(), vout: 0 },
    ];
    match build(inputs, vec![payment_output()]) {
        Err(BuildError::MalformedInput { index }) => assert_eq!(index, 1),
        _ => panic!("expected the malformed-input error"),
    }
}

#[test]
fn build_rejects_odd_length_data_payload() {
    let outputs = vec![OutputSpec::Data { payload_hex: "abc".to_string() }];
    match build(Vec::new(), outputs) {
        Err(BuildError::MalformedOutput { index }) => assert_eq!(index, 0),
        _ => panic!("expected the malformed-output error"),
    }
}

#[test]
fn build_rejects_empty_payment_address() {
    let outputs = vec![
        OutputSpec::Payment { address: String::new(), amount: Amount::from_sats(1) },
    ];
    match build(Vec::new(), outputs) {
        Err(BuildError::MalformedOutput { index }) => assert_eq!(index, 0),
        _ => panic!("expected the malformed-output error"),
    }
}

#[test]
fn amount_renders_whole_units_with_eight_decimals() {
    assert_eq!(Amount::from_units(100).unwrap().to_decimal_text(), "100.00000000");
}

#[test]
fn amount_renders_one_satoshi() {
    assert_eq!(Amount::from_sats(1).to_decimal_text(), "0.00000001");
}

#[test]
fn amount_renders_mixed_value() {
    assert_eq!(Amount::from_sats(2_150_000_000).to_decimal_text(), "21.50000000");
}

#[test]
fn amount_renders_zero() {
    assert_eq!(Amount::from_sats(0).to_decimal_text(), "0.00000000");
}

#[test]
fn amount_from_units_rejects_overflow() {
    assert!(Amount::from_units(u64::MAX).is_none());
    assert_eq!(Amount::from_units(184_467_440_737).unwrap().sats, 18_446_744_073_700_000_000);
}

#[test]
fn fee_rate_must_be_positive() {
    assert!(FeeRate::new(0).is_none());
    assert_eq!(FeeRate::new(21).unwrap().sat_per_vb, 21);
}
