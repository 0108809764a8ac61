//! Assembling the unsigned raw transaction request, and the funding balance
//! law.
use vstd::prelude::*;
use crate::amount::Amount;
use crate::error::BuildError;
use crate::hexstr::{check_payload, check_txid, is_payload_text, is_txid_text};

verus! {

/// A reference to a prior output to spend: the pair of the creating
/// transaction's identifier and the output's position within it.
pub struct TxInputRef {
    /// Hex-encoded identifier of the creating transaction.
    pub txid: String,
    /// Position of the output within that transaction.
    pub vout: u64,
}

/// One declared output of the transaction: either a value payment to an
/// address, or a data-carrier output embedding opaque bytes with no
/// spendable value.
pub enum OutputSpec {
    /// Pay `amount` to `address`.
    Payment { address: String, amount: Amount },
    /// Embed the bytes encoded by `payload_hex`; carries no value.
    Data { payload_hex: String },
}

/// An input reference is well formed: its transaction identifier has the
/// 64-digit hex shape. Its output index, being unsigned, is never negative.
pub open spec fn input_wf(i: TxInputRef) -> bool {
    is_txid_text(i.txid@)
}

/// An output specification is well formed: a payment names a non-empty
/// destination address, and a data payload is hex text encoding whole bytes.
pub open spec fn output_wf(o: OutputSpec) -> bool {
    match o {
        OutputSpec::Payment { address, amount } => address@.len() > 0,
        OutputSpec::Data { payload_hex } => is_payload_text(payload_hex@),
    }
}

/// A transaction request is well formed: there is at least one output and
/// every input reference and output specification is well formed. Zero
/// inputs are valid: the funding stage then sources all inputs itself.
pub open spec fn request_wf(inputs: Seq<TxInputRef>, outputs: Seq<OutputSpec>) -> bool {
    &&& outputs.len() > 0
    &&& forall|i: int| 0 <= i < inputs.len() ==> input_wf(#[trigger] inputs[i])
    &&& forall|i: int| 0 <= i < outputs.len() ==> output_wf(#[trigger] outputs[i])
}

/// The unsigned, unfunded raw transaction request: the validated inputs and
/// outputs the node is asked to assemble into transaction hex.
pub struct BuildRequest {
    pub inputs: Vec<TxInputRef>,
    pub outputs: Vec<OutputSpec>,
}

impl BuildRequest {
    /// The request is well formed.
    pub open spec fn wf(&self) -> bool {
        request_wf(self.inputs@, self.outputs@)
    }
}

/// Decide whether one output specification is well formed.
fn check_output(o: &OutputSpec) -> (r: bool)
    ensures
        r == output_wf(*o),
{
    match o {
        OutputSpec::Payment { address, amount } => address.as_str().unicode_len() > 0,
        OutputSpec::Data { payload_hex } => check_payload(payload_hex.as_str()),
    }
}

/// Assemble the unsigned raw transaction request from the chosen input
/// references and the declared outputs.
///
/// Succeeds exactly on well-formed requests and hands the inputs and outputs
/// through unchanged. With no outputs it fails; with malformed entries it
/// reports the first offending position, inputs checked before outputs.
pub fn build(inputs: Vec<TxInputRef>, outputs: Vec<OutputSpec>) -> (r: Result<
    BuildRequest,
    BuildError,
>)
    ensures
        request_wf(inputs@, outputs@) ==> (r matches Ok(b) && b.inputs@ == inputs@ && b.outputs@
            == outputs@),
        outputs@.len() == 0 ==> (r matches Err(e) && e is NoOutputs),
        (outputs@.len() > 0 && !(forall|i: int|
            0 <= i < inputs@.len() ==> input_wf(#[trigger] inputs@[i]))) ==> (r matches Err(e)
            && e matches BuildError::MalformedInput { index } && 0 <= index < inputs@.len()
            && !input_wf(inputs@[index as int]) && (forall|j: int|
            0 <= j < index ==> input_wf(#[trigger] inputs@[j]))),
        (outputs@.len() > 0 && (forall|i: int|
            0 <= i < inputs@.len() ==> input_wf(#[trigger] inputs@[i])) && !(forall|i: int|
            0 <= i < outputs@.len() ==> output_wf(#[trigger] outputs@[i]))) ==> (r matches Err(e)
            && e matches BuildError::MalformedOutput { index } && 0 <= index < outputs@.len()
            && !output_wf(outputs@[index as int]) && (forall|j: int|
            0 <= j < index ==> output_wf(#[trigger] outputs@[j]))),
{
    if outputs.len() == 0 {
        return Err(BuildError::NoOutputs);
    }
    let mut i: usize = 0;
    while i < inputs.len()
        invariant
            outputs@.len() > 0,
            i <= inputs@.len(),
            forall|j: int| 0 <= j < i ==> input_wf(#[trigger] inputs@[j]),
        decreases inputs@.len() - i,
    {
        if !check_txid(inputs[i].txid.as_str()) {
            return Err(BuildError::MalformedInput { index: i });
        }
        i = i + 1;
    }
    let mut k: usize = 0;
    while k < outputs.len()
        invariant
            outputs@.len() > 0,
            forall|j: int| 0 <= j < inputs@.len() ==> input_wf(#[trigger] inputs@[j]),
            k <= outputs@.len(),
            forall|j: int| 0 <= j < k ==> output_wf(#[trigger] outputs@[j]),
        decreases outputs@.len() - k,
    {
        if !check_output(&outputs[k]) {
            return Err(BuildError::MalformedOutput { index: k });
        }
        k = k + 1;
    }
    Ok(BuildRequest { inputs, outputs })
}

/// Funding balance law: when the node funds a transaction at a fee rate, the
/// fee it takes is the rate times the transaction's size in virtual bytes,
/// and the change output carries whatever the chosen inputs hold beyond the
/// declared outputs and that fee. Then the funded transaction's total input
/// value minus its total output value — declared outputs plus change — equals
/// exactly the fee implied by the requested rate.
pub proof fn lemma_funding_balance(
    input_total: int,
    output_total: int,
    fee_rate: int,
    vsize: int,
    change: int,
)
    requires
        fee_rate >= 0,
        vsize >= 0,
        change == input_total - output_total - fee_rate * vsize,
        change >= 0,
    ensures
        input_total - (output_total + change) == fee_rate * vsize,
{
}

} // verus!
