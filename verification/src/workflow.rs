//! The transaction-lifecycle pipeline as a state machine.
//!
//! Each stage issues one call against the node, and the next event — the
//! call's outcome, handed back by the surrounding driver — moves the pipeline
//! to its next stage and yields the next action to perform. Control flow is
//! strictly sequential, each stage consuming the prior stage's output; every
//! failure is terminal and aborts the remaining stages at once.
use vstd::prelude::*;
use crate::amount::{Amount, FeeRate};
use crate::error::{DecodeError, ErrorKind, StageError};
use crate::hexstr::{check_txid, is_payload_text, is_txid_text};
use crate::json;
use crate::sink::{record_line, record_text};
use crate::tx::{build, input_wf, output_wf, request_wf, BuildRequest, OutputSpec, TxInputRef};
use crate::utxo::{select, UnspentOutput};

verus! {

/// The fixed parameters of one workflow run.
pub struct Config {
    /// Name of the wallet to create or load.
    pub wallet_name: String,
    /// Destination address of the payment output.
    pub payment_address: String,
    /// Value of the payment output.
    pub payment_amount: Amount,
    /// Hex-encoded payload of the data-carrier output.
    pub data_payload_hex: String,
    /// Target fee rate handed to the funding stage.
    pub fee_rate: FeeRate,
    /// How many blocks to mine to the fresh address to fund the wallet.
    pub blocks_to_mine: u64,
    /// How many unspent outputs to reference as explicit inputs.
    pub input_limit: usize,
}

/// Where the pipeline stands: which call's outcome it is waiting for, or how
/// it ended.
pub enum Stage {
    /// Awaiting the connectivity check.
    Connectivity,
    /// Awaiting wallet creation.
    CreatingWallet,
    /// Awaiting the fresh receiving address.
    DerivingAddress,
    /// Awaiting block generation to the fresh address.
    Mining,
    /// Awaiting the unspent-output listing.
    ListingUnspent,
    /// Awaiting the unsigned raw transaction hex.
    CreatingRaw,
    /// Awaiting the funded transaction.
    Funding,
    /// Awaiting the signed transaction.
    Signing,
    /// Awaiting the broadcast's transaction identifier.
    Broadcasting,
    /// Awaiting the persisting of the identifier's record.
    Persisting { txid: String },
    /// The workflow completed; the identifier was broadcast and persisted.
    Done { txid: String },
    /// The workflow failed; every failure is terminal.
    Failed { error: StageError },
}

/// The outcome of the last action, handed back by the driver.
pub enum Event {
    /// The call succeeded; its payload, if any, is not read by this workflow.
    CallOk,
    /// The call succeeded with a text result (a fresh address).
    CallText { text: String },
    /// The call succeeded with a JSON result.
    CallJson { value: serde_json::Value },
    /// The node accepted the call and rejected it for a domain reason;
    /// its message is carried verbatim.
    NodeError { message: String },
    /// The transport failed: connection, authentication, response framing.
    TransportError { message: String },
    /// The driver found a node-supplied value unusable before any further
    /// call (a contract mismatch it detected locally).
    LocalError { message: String },
    /// The record was persisted.
    WriteOk,
    /// The record could not be persisted.
    WriteError { message: String },
}

/// What the driver is asked to perform next.
pub enum Action {
    /// Ask the node for its chain state, as a connectivity check.
    GetBlockchainInfo,
    /// Create (or load) the named wallet.
    CreateWallet { name: String },
    /// Derive a fresh receiving address.
    GetNewAddress,
    /// Mine `count` blocks to `address`.
    MineBlocks { count: u64, address: String },
    /// List the wallet's unspent outputs.
    ListUnspent,
    /// Ask the node to assemble the unsigned raw transaction.
    CreateRawTransaction { request: BuildRequest },
    /// Ask the node to fund `tx_hex` at the given fee rate.
    FundRawTransaction { tx_hex: String, fee_rate_sat_per_vb: u64 },
    /// Ask the node to sign all inputs of `tx_hex` with wallet-held keys.
    SignRawTransaction { tx_hex: String },
    /// Broadcast the fully signed `tx_hex`.
    SendRawTransaction { tx_hex: String },
    /// Write `record` over the result file's whole content.
    PersistRecord { record: String },
    /// The workflow completed; nothing further to perform.
    Finish,
    /// The workflow failed; surface the error held in the pipeline and stop.
    Abort,
}

/// The name under which a stage reports its errors.
pub open spec fn stage_text(s: Stage) -> Seq<char> {
    match s {
        Stage::Connectivity => "connectivity check"@,
        Stage::CreatingWallet => "wallet creation"@,
        Stage::DerivingAddress => "address derivation"@,
        Stage::Mining => "block generation"@,
        Stage::ListingUnspent => "unspent listing"@,
        Stage::CreatingRaw => "transaction build"@,
        Stage::Funding => "funding"@,
        Stage::Signing => "signing"@,
        Stage::Broadcasting => "broadcast"@,
        Stage::Persisting { .. } => "persist"@,
        Stage::Done { .. } => "done"@,
        Stage::Failed { .. } => "failed"@,
    }
}

/// The name under which a stage reports its errors.
pub fn stage_label(s: &Stage) -> (r: &'static str)
    ensures
        r@ == stage_text(*s),
{
    match s {
        Stage::Connectivity => "connectivity check",
        Stage::CreatingWallet => "wallet creation",
        Stage::DerivingAddress => "address derivation",
        Stage::Mining => "block generation",
        Stage::ListingUnspent => "unspent listing",
        Stage::CreatingRaw => "transaction build",
        Stage::Funding => "funding",
        Stage::Signing => "signing",
        Stage::Broadcasting => "broadcast",
        Stage::Persisting { .. } => "persist",
        Stage::Done { .. } => "done",
        Stage::Failed { .. } => "failed",
    }
}

/// The pipeline is still under way: neither completed nor failed.
pub open spec fn in_progress(s: Stage) -> bool {
    !(s is Done) && !(s is Failed)
}

/// The pipeline failed out of stage `from` with this kind and message.
pub open spec fn failed_with(p: Pipeline, from: Stage, kind: ErrorKind, message: Seq<char>) -> bool {
    match p.stage {
        Stage::Failed { error } => error.kind == kind && error.message@ == message && error.stage@
            == stage_text(from),
        _ => false,
    }
}

/// The pipeline failed out of stage `from` with this kind.
pub open spec fn failed_kind(p: Pipeline, from: Stage, kind: ErrorKind) -> bool {
    match p.stage {
        Stage::Failed { error } => error.kind == kind && error.stage@ == stage_text(from),
        _ => false,
    }
}

/// The outputs declared by the configuration are well formed: a non-empty
/// destination address and a data payload of whole-byte hex text.
pub open spec fn config_outputs_wf(c: Config) -> bool {
    c.payment_address@.len() > 0 && is_payload_text(c.data_payload_hex@)
}

/// The first `min(limit, n)` entries of a decoded unspent listing of length
/// `n` carry well-formed transaction identifiers.
pub open spec fn selected_inputs_wf(value: serde_json::Value, n: int, limit: int) -> bool {
    forall|i: int|
        #![trigger json::elem_of(value, i)]
        0 <= i < (if limit <= n {
            limit
        } else {
            n
        }) ==> (json::str_field(json::elem_of(value, i), "txid"@) matches Some(t)
            && is_txid_text(t))
}

/// The single linear workflow: the fixed configuration and where it stands.
pub struct Pipeline {
    pub config: Config,
    pub stage: Stage,
}

/// A copy of a string.
fn dup(s: &String) -> (r: String)
    ensures
        r == *s,
{
    s.clone()
}

/// A failed pipeline and the abort action.
fn fail(config: Config, label: String, kind: ErrorKind, message: String) -> (r: (Pipeline, Action))
    ensures
        r.0.config == config,
        (r.0.stage matches Stage::Failed { error } && error.kind == kind && error.stage@ == label@
            && error.message@ == message@),
        r.1 is Abort,
{
    (
        Pipeline { config, stage: Stage::Failed { error: StageError { stage: label, kind, message } } },
        Action::Abort,
    )
}

/// The message under which a response that could not be decoded is reported:
/// the missing field's name, or the shape that was expected.
pub open spec fn decode_error_text(e: DecodeError) -> Seq<char> {
    match e {
        DecodeError::NotText => "expected a text response"@,
        DecodeError::NotArray => "expected an array response"@,
        DecodeError::MissingField { name } => name@,
        DecodeError::ElementMissingField { name, .. } => name@,
    }
}

/// Render the message for a response that could not be decoded.
fn decode_error_message(e: DecodeError) -> (r: String)
    ensures
        r@ == decode_error_text(e),
{
    match e {
        DecodeError::NotText => ("expected a text response").to_owned(),
        DecodeError::NotArray => ("expected an array response").to_owned(),
        DecodeError::MissingField { name } => name,
        DecodeError::ElementMissingField { name, .. } => name,
    }
}

impl Pipeline {
    /// A fresh pipeline, about to check connectivity.
    pub fn new(config: Config) -> (r: Pipeline)
        ensures
            r.config == config,
            r.stage is Connectivity,
    {
        Pipeline { config, stage: Stage::Connectivity }
    }

    /// The first action of every run: the connectivity check.
    pub fn first_action(&self) -> (a: Action)
        ensures
            a is GetBlockchainInfo,
    {
        Action::GetBlockchainInfo
    }

    /// Advance the pipeline by one stage on the outcome of the last action.
    ///
    /// Success moves to the next stage in the fixed order — connectivity,
    /// wallet, address, mining, listing, build, funding, signing, broadcast,
    /// persist — each stage consuming the prior stage's output. A node-logic
    /// error, a transport error, a response of an unexpected shape, an
    /// incomplete signing and a persisting failure are all terminal: the
    /// pipeline moves to `Failed` and asks the driver to abort. In particular
    /// a duplicate broadcast, which the node rejects as a domain error, fails
    /// with a node-logic error and never with a transport error; and an
    /// incomplete signing halts the pipeline before any broadcast is asked
    /// for.
    pub fn step(self, event: Event) -> (r: (Pipeline, Action))
        ensures
            r.0.config == self.config,
            // terminal stages stay put
            (self.stage matches Stage::Done { txid } ==> (r.0.stage matches Stage::Done {
                txid: t } && t == txid && r.1 is Abort)),
            self.stage is Failed ==> (r.0.stage is Failed && r.1 is Abort),
            r.0.stage is Failed ==> r.1 is Abort,
            // the pipeline completes only after its record was persisted
            r.0.stage is Done ==> (self.stage is Done || (self.stage is Persisting
                && event is WriteOk)),
            // a broadcast is asked for only out of a signing the node
            // reported complete, and carries the signed hex verbatim
            r.1 matches Action::SendRawTransaction { tx_hex } ==> (self.stage is Signing && (event
                matches Event::CallJson { value } && json::bool_field(value, "complete"@) == Some(
                true,
            ) && json::str_field(value, "hex"@) == Some(tx_hex@))),
            // a persist is asked for only out of a broadcast that returned a
            // well-formed identifier, and its record is that identifier's
            r.1 matches Action::PersistRecord { record } ==> (self.stage is Broadcasting && (event
                matches Event::CallJson { value } && (json::as_text(value) matches Some(t)
                && is_txid_text(t) && record@ == record_text(t)))),
            // a node-logic error is terminal at every stage, with the node's
            // message verbatim; never mistaken for a transport error
            in_progress(self.stage) ==> (event matches Event::NodeError { message } ==> (
            failed_with(r.0, self.stage, ErrorKind::NodeLogic, message@) && r.1 is Abort)),
            // a transport error is terminal at every stage
            in_progress(self.stage) ==> (event matches Event::TransportError { message } ==> (
            failed_with(r.0, self.stage, ErrorKind::Transport, message@) && r.1 is Abort)),
            // so is a contract mismatch the driver detected locally
            in_progress(self.stage) ==> (event matches Event::LocalError { message } ==> (
            failed_with(r.0, self.stage, ErrorKind::LocalValidation, message@) && r.1 is Abort)),
            // connectivity confirmed: create the wallet
            (self.stage is Connectivity && event is CallOk) ==> (r.0.stage is CreatingWallet && (
            r.1 matches Action::CreateWallet { name } && name@ == self.config.wallet_name@)),
            // wallet ready: derive the receiving address
            (self.stage is CreatingWallet && event is CallOk) ==> (r.0.stage is DerivingAddress
                && r.1 is GetNewAddress),
            // address derived: mine blocks to it; an empty address is malformed
            self.stage is DerivingAddress ==> (event matches Event::CallText { text } ==> ({
                if text@.len() > 0 {
                    r.0.stage is Mining && (r.1 matches Action::MineBlocks { count, address }
                        && count == self.config.blocks_to_mine && address@ == text@)
                } else {
                    failed_with(r.0, self.stage, ErrorKind::LocalValidation, "empty address"@)
                        && r.1 is Abort
                }
            })),
            // blocks mined: list the unspent outputs
            (self.stage is Mining && event is CallOk) ==> (r.0.stage is ListingUnspent
                && r.1 is ListUnspent),
            // listing received: a listing that does not decode, a selected
            // entry without a well-formed identifier, and malformed
            // configured outputs each fail locally; otherwise the build
            // request's inputs are exactly the first min(limit, n) entries of
            // the listing, in order, nothing fabricated, and its outputs are
            // the configured payment and data carrier
            self.stage is ListingUnspent ==> (event matches Event::CallJson { value } ==> ({
                &&& (!json::unspent_list_ok(value) ==> (failed_kind(
                    r.0,
                    self.stage,
                    ErrorKind::LocalValidation,
                ) && r.1 is Abort))
                &&& (json::unspent_list_ok(value) ==> (json::array_len(value) matches Some(n)
                    ==> ({
                    &&& ((selected_inputs_wf(value, n, self.config.input_limit as int)
                        && config_outputs_wf(self.config)) ==> (r.0.stage is CreatingRaw && (r.1
                        matches Action::CreateRawTransaction { request } && request.wf()
                        && request.inputs@.len() == (if self.config.input_limit <= n {
                        self.config.input_limit as int
                    } else {
                        n
                    }) && (forall|i: int|
                        #![trigger json::elem_of(value, i)]
                        0 <= i < request.inputs@.len() ==> (json::str_field(
                            json::elem_of(value, i),
                            "txid"@,
                        ) == Some(request.inputs@[i].txid@) && json::u64_field(
                            json::elem_of(value, i),
                            "vout"@,
                        ) == Some(request.inputs@[i].vout))) && request.outputs@.len() == 2 && (
                    request.outputs@[0] matches OutputSpec::Payment { address, amount } && address@
                        == self.config.payment_address@ && amount == self.config.payment_amount)
                        && (request.outputs@[1] matches OutputSpec::Data { payload_hex }
                        && payload_hex@ == self.config.data_payload_hex@))))
                    &&& (!(selected_inputs_wf(value, n, self.config.input_limit as int)
                        && config_outputs_wf(self.config)) ==> (failed_kind(
                        r.0,
                        self.stage,
                        ErrorKind::LocalValidation,
                    ) && r.1 is Abort))
                })))
            })),
            // unsigned transaction assembled by the node: fund it
            self.stage is CreatingRaw ==> (event matches Event::CallJson { value } ==> ({
                &&& (json::as_text(value) matches Some(h) ==> (r.0.stage is Funding && (r.1
                    matches Action::FundRawTransaction { tx_hex, fee_rate_sat_per_vb } && tx_hex@
                    == h && fee_rate_sat_per_vb == self.config.fee_rate.sat_per_vb)))
                &&& (json::as_text(value) is None ==> (failed_kind(
                    r.0,
                    self.stage,
                    ErrorKind::LocalValidation,
                ) && r.1 is Abort))
            })),
            // funded: sign it
            self.stage is Funding ==> (event matches Event::CallJson { value } ==> ({
                &&& (json::str_field(value, "hex"@) matches Some(h) ==> (r.0.stage is Signing && (
                r.1 matches Action::SignRawTransaction { tx_hex } && tx_hex@ == h)))
                &&& (json::str_field(value, "hex"@) is None ==> (failed_with(
                    r.0,
                    self.stage,
                    ErrorKind::LocalValidation,
                    "hex"@,
                ) && r.1 is Abort))
            })),
            // signed: broadcast only a complete signing; an incomplete one is
            // a terminal node-logic failure, and no broadcast is asked for
            self.stage is Signing ==> (event matches Event::CallJson { value } ==> ({
                &&& (json::str_field(value, "hex"@) matches Some(h) ==> (json::bool_field(
                    value,
                    "complete"@,
                ) matches Some(c) ==> ({
                    if c {
                        r.0.stage is Broadcasting && (r.1
                            matches Action::SendRawTransaction { tx_hex } && tx_hex@ == h)
                    } else {
                        failed_with(
                            r.0,
                            self.stage,
                            ErrorKind::NodeLogic,
                            "signing incomplete"@,
                        ) && r.1 is Abort
                    }
                })))
                &&& (json::str_field(value, "hex"@) is None ==> (failed_with(
                    r.0,
                    self.stage,
                    ErrorKind::LocalValidation,
                    "hex"@,
                ) && r.1 is Abort))
                &&& ((json::str_field(value, "hex"@) is Some && json::bool_field(
                    value,
                    "complete"@,
                ) is None) ==> (failed_with(
                    r.0,
                    self.stage,
                    ErrorKind::LocalValidation,
                    "complete"@,
                ) && r.1 is Abort))
            })),
            // broadcast accepted: persist the identifier's record
            self.stage is Broadcasting ==> (event matches Event::CallJson { value } ==> ({
                &&& (json::as_text(value) matches Some(t) ==> ({
                    if is_txid_text(t) {
                        (r.0.stage matches Stage::Persisting { txid } && txid@ == t) && (r.1
                            matches Action::PersistRecord { record } && record@ == record_text(t))
                    } else {
                        failed_with(
                            r.0,
                            self.stage,
                            ErrorKind::LocalValidation,
                            "malformed transaction identifier"@,
                        ) && r.1 is Abort
                    }
                }))
                &&& (json::as_text(value) is None ==> (failed_kind(
                    r.0,
                    self.stage,
                    ErrorKind::LocalValidation,
                ) && r.1 is Abort))
            })),
            // record persisted: the workflow is complete
            self.stage matches Stage::Persisting { txid } ==> ({
                &&& (event is WriteOk ==> (r.0.stage matches Stage::Done { txid: t } && t@ == txid@
                    && r.1 is Finish))
                &&& (event matches Event::WriteError { message } ==> (failed_with(
                    r.0,
                    self.stage,
                    ErrorKind::Io,
                    message@,
                ) && r.1 is Abort))
            }),
    {
        let Pipeline { config, stage } = self;
        let label = stage_label(&stage).to_owned();
        match (stage, event) {
            // terminal stages stay put
            (Stage::Done { txid }, _) => (
                Pipeline { config, stage: Stage::Done { txid } },
                Action::Abort,
            ),
            (Stage::Failed { error }, _) => (
                Pipeline { config, stage: Stage::Failed { error } },
                Action::Abort,
            ),
            // every node-logic or transport error is terminal
            (_, Event::NodeError { message }) => fail(config, label, ErrorKind::NodeLogic, message),
            (_, Event::TransportError { message }) => fail(
                config,
                label,
                ErrorKind::Transport,
                message,
            ),
            (_, Event::LocalError { message }) => fail(
                config,
                label,
                ErrorKind::LocalValidation,
                message,
            ),
            // the successful transitions, one per stage
            (Stage::Connectivity, Event::CallOk) => {
                let name = dup(&config.wallet_name);
                (
                    Pipeline { config, stage: Stage::CreatingWallet },
                    Action::CreateWallet { name },
                )
            },
            (Stage::CreatingWallet, Event::CallOk) => (
                Pipeline { config, stage: Stage::DerivingAddress },
                Action::GetNewAddress,
            ),
            (Stage::DerivingAddress, Event::CallText { text }) => {
                if text.as_str().unicode_len() == 0 {
                    fail(config, label, ErrorKind::LocalValidation, ("empty address").to_owned())
                } else {
                    let count = config.blocks_to_mine;
                    (
                        Pipeline { config, stage: Stage::Mining },
                        Action::MineBlocks { count, address: text },
                    )
                }
            },
            (Stage::Mining, Event::CallOk) => (
                Pipeline { config, stage: Stage::ListingUnspent },
                Action::ListUnspent,
            ),
            (Stage::ListingUnspent, Event::CallJson { value }) => {
                let listing = match json::decode_unspent_list(&value) {
                    Ok(l) => l,
                    Err(e) => {
                        return fail(
                            config,
                            label,
                            ErrorKind::LocalValidation,
                            decode_error_message(e),
                        );
                    },
                };
                let ghost list0 = listing@;
                let ghost lim: int = config.input_limit as int;
                let ghost m: int = if lim <= list0.len() {
                    lim
                } else {
                    list0.len() as int
                };
                let mut selected = select(listing, config.input_limit);
                let ghost sel = selected@;
                let mut inputs: Vec<TxInputRef> = Vec::new();
                while selected.len() > 0
                    invariant
                        inputs@.len() + selected@.len() == sel.len(),
                        forall|j: int|
                            0 <= j < selected@.len() ==> #[trigger] selected@[j] == sel[inputs@.len()
                                + j],
                        forall|k: int|
                            0 <= k < inputs@.len() ==> ((#[trigger] inputs@[k]).txid
                                == sel[k].txid && inputs@[k].vout == sel[k].vout),
                    decreases selected@.len(),
                {
                    let u = selected.remove(0);
                    inputs.push(TxInputRef { txid: u.txid, vout: u.vout });
                }
                proof {
                    assert(sel.len() == m);
                    assert forall|i: int| 0 <= i < m implies sel[i] == list0[i] by {}
                    assert forall|i: int|
                        #![trigger json::elem_of(value, i)]
                        0 <= i < m implies (json::str_field(json::elem_of(value, i), "txid"@)
                        == Some(inputs@[i].txid@) && json::u64_field(
                        json::elem_of(value, i),
                        "vout"@,
                    ) == Some(inputs@[i].vout)) by {
                        assert(json::unspent_entry_matches(value, i, list0[i]));
                        assert(inputs@[i].txid == list0[i].txid);
                        assert(inputs@[i].vout == list0[i].vout);
                    }
                }
                let mut outputs: Vec<OutputSpec> = Vec::new();
                outputs.push(
                    OutputSpec::Payment {
                        address: dup(&config.payment_address),
                        amount: config.payment_amount,
                    },
                );
                outputs.push(OutputSpec::Data { payload_hex: dup(&config.data_payload_hex) });
                let ghost inputs_v = inputs@;
                let ghost outputs_v = outputs@;
                match build(inputs, outputs) {
                    Ok(request) => {
                        proof {
                            // the build accepted every entry, so each selected
                            // identifier is well formed, and so are the
                            // configured outputs
                            assert forall|i: int|
                                #![trigger json::elem_of(value, i)]
                                0 <= i < m implies (json::str_field(
                                json::elem_of(value, i),
                                "txid"@,
                            ) matches Some(t) && is_txid_text(t)) by {
                                assert(input_wf(inputs_v[i]));
                            }
                            assert(selected_inputs_wf(value, list0.len() as int, lim));
                            assert(output_wf(outputs_v[0]));
                            assert(output_wf(outputs_v[1]));
                            assert(config_outputs_wf(config));
                        }
                        (
                            Pipeline { config, stage: Stage::CreatingRaw },
                            Action::CreateRawTransaction { request },
                        )
                    },
                    Err(_) => {
                        proof {
                            // had the selection and the configured outputs
                            // been well formed, the build could not have
                            // failed
                            if selected_inputs_wf(value, list0.len() as int, lim)
                                && config_outputs_wf(config) {
                                assert forall|k: int| 0 <= k < inputs_v.len() implies input_wf(
                                    #[trigger] inputs_v[k],
                                ) by {
                                    assert(json::elem_of(value, k) == json::elem_of(value, k));
                                }
                                assert(output_wf(outputs_v[0]));
                                assert(output_wf(outputs_v[1]));
                                assert(request_wf(inputs_v, outputs_v));
                                assert(false);
                            }
                        }
                        fail(
                            config,
                            label,
                            ErrorKind::LocalValidation,
                            ("malformed transaction request").to_owned(),
                        )
                    },
                }
            },
            (Stage::CreatingRaw, Event::CallJson { value }) => {
                match json::decode_text(&value) {
                    Ok(tx_hex) => {
                        let fee_rate_sat_per_vb = config.fee_rate.sat_per_vb;
                        (
                            Pipeline { config, stage: Stage::Funding },
                            Action::FundRawTransaction { tx_hex, fee_rate_sat_per_vb },
                        )
                    },
                    Err(e) => fail(
                        config,
                        label,
                        ErrorKind::LocalValidation,
                        decode_error_message(e),
                    ),
                }
            },
            (Stage::Funding, Event::CallJson { value }) => {
                match json::decode_fund_response(&value) {
                    Ok(tx_hex) => (
                        Pipeline { config, stage: Stage::Signing },
                        Action::SignRawTransaction { tx_hex },
                    ),
                    Err(e) => fail(
                        config,
                        label,
                        ErrorKind::LocalValidation,
                        decode_error_message(e),
                    ),
                }
            },
            (Stage::Signing, Event::CallJson { value }) => {
                match json::decode_sign_response(&value) {
                    Ok(outcome) => {
                        if outcome.complete {
                            (
                                Pipeline { config, stage: Stage::Broadcasting },
                                Action::SendRawTransaction { tx_hex: outcome.hex },
                            )
                        } else {
                            fail(
                                config,
                                label,
                                ErrorKind::NodeLogic,
                                ("signing incomplete").to_owned(),
                            )
                        }
                    },
                    Err(e) => fail(
                        config,
                        label,
                        ErrorKind::LocalValidation,
                        decode_error_message(e),
                    ),
                }
            },
            (Stage::Broadcasting, Event::CallJson { value }) => {
                match json::decode_text(&value) {
                    Ok(txid) => {
                        if check_txid(txid.as_str()) {
                            let record = record_line(txid.as_str());
                            (
                                Pipeline { config, stage: Stage::Persisting { txid } },
                                Action::PersistRecord { record },
                            )
                        } else {
                            fail(
                                config,
                                label,
                                ErrorKind::LocalValidation,
                                ("malformed transaction identifier").to_owned(),
                            )
                        }
                    },
                    Err(e) => fail(
                        config,
                        label,
                        ErrorKind::LocalValidation,
                        decode_error_message(e),
                    ),
                }
            },
            (Stage::Persisting { txid }, Event::WriteOk) => (
                Pipeline { config, stage: Stage::Done { txid } },
                Action::Finish,
            ),
            (Stage::Persisting { txid }, Event::WriteError { message }) => fail(
                config,
                label,
                ErrorKind::Io,
                message,
            ),
            // any other pairing is a response of an unexpected shape
            (_, _) => fail(
                config,
                label,
                ErrorKind::LocalValidation,
                ("unexpected response shape").to_owned(),
            ),
        }
    }
}

} // verus!
