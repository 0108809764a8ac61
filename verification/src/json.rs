//! Decoding node responses.
//!
//! The node's answers arrive as `serde_json::Value` trees. The tree itself is
//! opaque here: what each accessor returns on a given tree is given a name,
//! each accessor is a trusted wrapper whose contract speaks over that name,
//! and the per-stage decoders are verified against those contracts.
use vstd::prelude::*;
use crate::error::DecodeError;
use crate::utxo::UnspentOutput;

verus! {

#[verifier::external_type_specification]
#[verifier::external_body]
pub struct ExValue(serde_json::Value);

/// The text under object key `key`, when `v` is a JSON object holding a JSON
/// string there; nothing otherwise.
pub uninterp spec fn str_field(v: serde_json::Value, key: Seq<char>) -> Option<Seq<char>>;

/// The boolean under object key `key`, when `v` is a JSON object holding a
/// JSON boolean there; nothing otherwise.
pub uninterp spec fn bool_field(v: serde_json::Value, key: Seq<char>) -> Option<bool>;

/// The unsigned integer under object key `key`, when `v` is a JSON object
/// holding one there; nothing otherwise.
pub uninterp spec fn u64_field(v: serde_json::Value, key: Seq<char>) -> Option<u64>;

/// The text of `v` itself, when `v` is a JSON string; nothing otherwise.
pub uninterp spec fn as_text(v: serde_json::Value) -> Option<Seq<char>>;

/// The element count of `v`, when `v` is a JSON array; nothing otherwise.
pub uninterp spec fn array_len(v: serde_json::Value) -> Option<int>;

/// Whether `v` is a JSON object with an entry under key `key`.
pub uninterp spec fn has_field(v: serde_json::Value, key: Seq<char>) -> bool;

/// The element at index `i`, when `v` is a JSON array with more than `i`
/// elements; unconstrained otherwise.
pub uninterp spec fn elem_of(v: serde_json::Value, i: int) -> serde_json::Value;

/// The value under object key `key`, when `v` is a JSON object with that key;
/// unconstrained otherwise.
pub uninterp spec fn field_of(v: serde_json::Value, key: Seq<char>) -> serde_json::Value;

/// Relies on `serde_json::Value::get` (with a string index) and
/// `Value::as_str`: yields the string under `key` exactly when `v` is an
/// object holding a string there.
#[verifier::external_body]
fn get_str_field(v: &serde_json::Value, key: &str) -> (r: Option<String>)
    ensures
        r matches Some(s) ==> str_field(*v, key@) == Some(s@),
        r is None ==> str_field(*v, key@) is None,
{
    match v.get(key) {
        Some(x) => match x.as_str() {
            Some(s) => Some(s.to_owned()),
            None => None,
        },
        None => None,
    }
}

/// Relies on `serde_json::Value::get` (with a string index) and
/// `Value::as_bool`: yields the boolean under `key` exactly when `v` is an
/// object holding a boolean there.
#[verifier::external_body]
fn get_bool_field(v: &serde_json::Value, key: &str) -> (r: Option<bool>)
    ensures
        r == bool_field(*v, key@),
{
    match v.get(key) {
        Some(x) => x.as_bool(),
        None => None,
    }
}

/// Relies on `serde_json::Value::get` (with a string index) and
/// `Value::as_u64`: yields the unsigned integer under `key` exactly when `v`
/// is an object holding one there.
#[verifier::external_body]
fn get_u64_field(v: &serde_json::Value, key: &str) -> (r: Option<u64>)
    ensures
        r == u64_field(*v, key@),
{
    match v.get(key) {
        Some(x) => x.as_u64(),
        None => None,
    }
}

/// Relies on `serde_json::Value::as_str`: yields the text of `v` exactly when
/// `v` is a JSON string.
#[verifier::external_body]
fn value_text(v: &serde_json::Value) -> (r: Option<String>)
    ensures
        r matches Some(s) ==> as_text(*v) == Some(s@),
        r is None ==> as_text(*v) is None,
{
    match v.as_str() {
        Some(s) => Some(s.to_owned()),
        None => None,
    }
}

/// Relies on `serde_json::Value::as_array` and `Vec::len`: yields the element
/// count exactly when `v` is a JSON array.
#[verifier::external_body]
fn value_array_len(v: &serde_json::Value) -> (r: Option<usize>)
    ensures
        r matches Some(n) ==> array_len(*v) == Some(n as int),
        r is None ==> array_len(*v) is None,
{
    match v.as_array() {
        Some(a) => Some(a.len()),
        None => None,
    }
}

/// Relies on `serde_json::Value::get` (with a `usize` index): yields a copy
/// of element `i` exactly when `v` is a JSON array with more than `i`
/// elements.
#[verifier::external_body]
fn value_array_elem(v: &serde_json::Value, i: usize) -> (r: Option<serde_json::Value>)
    ensures
        r is Some <==> (array_len(*v) matches Some(n) && i < n),
        r matches Some(e) ==> e == elem_of(*v, i as int),
{
    match v.get(i) {
        Some(x) => Some(x.clone()),
        None => None,
    }
}

/// Relies on `serde_json::Value::get` (with a string index): yields a copy of
/// the entry under `key` exactly when `v` is an object with that key.
#[verifier::external_body]
fn get_field(v: &serde_json::Value, key: &str) -> (r: Option<serde_json::Value>)
    ensures
        r is Some <==> has_field(*v, key@),
        r matches Some(x) ==> x == field_of(*v, key@),
{
    match v.get(key) {
        Some(x) => Some(x.clone()),
        None => None,
    }
}

/// What the signing stage hands back: the signed transaction hex and whether
/// every input could be satisfied.
pub struct SignOutcome {
    pub hex: String,
    pub complete: bool,
}

/// Decode the funding response: the funded transaction hex must stand under
/// `hex`; its absence is the local validation error naming that field.
pub fn decode_fund_response(v: &serde_json::Value) -> (r: Result<String, DecodeError>)
    ensures
        str_field(*v, "hex"@) matches Some(h) ==> (r matches Ok(s) && s@ == h),
        str_field(*v, "hex"@) is None ==> (r matches Err(e)
            && e matches DecodeError::MissingField { name } && name@ == "hex"@),
{
    match get_str_field(v, "hex") {
        Some(s) => Ok(s),
        None => Err(DecodeError::MissingField { name: ("hex").to_owned() }),
    }
}

/// Decode the signing response: the signed transaction hex under `hex` and
/// the completeness flag under `complete`; the absence of either is the
/// local validation error naming the missing field, `hex` checked first.
pub fn decode_sign_response(v: &serde_json::Value) -> (r: Result<SignOutcome, DecodeError>)
    ensures
        str_field(*v, "hex"@) matches Some(h) ==> bool_field(*v, "complete"@) matches Some(c)
            ==> (r matches Ok(o) && o.hex@ == h && o.complete == c),
        str_field(*v, "hex"@) is None ==> (r matches Err(e)
            && e matches DecodeError::MissingField { name } && name@ == "hex"@),
        (str_field(*v, "hex"@) is Some && bool_field(*v, "complete"@) is None) ==> (r matches Err(
            e,
        ) && e matches DecodeError::MissingField { name } && name@ == "complete"@),
{
    let hex = match get_str_field(v, "hex") {
        Some(s) => s,
        None => {
            return Err(DecodeError::MissingField { name: ("hex").to_owned() });
        },
    };
    match get_bool_field(v, "complete") {
        Some(complete) => Ok(SignOutcome { hex, complete }),
        None => Err(DecodeError::MissingField { name: ("complete").to_owned() }),
    }
}

/// Decode a response that is a bare JSON string (an unsigned transaction hex,
/// a broadcast transaction identifier).
pub fn decode_text(v: &serde_json::Value) -> (r: Result<String, DecodeError>)
    ensures
        as_text(*v) matches Some(t) ==> (r matches Ok(s) && s@ == t),
        as_text(*v) is None ==> (r matches Err(e) && e is NotText),
{
    match value_text(v) {
        Some(s) => Ok(s),
        None => Err(DecodeError::NotText),
    }
}

/// Element `i` of an unspent listing decodes: it carries a string under
/// `txid` and an unsigned integer under `vout`.
pub open spec fn unspent_elem_ok(v: serde_json::Value, i: int) -> bool {
    str_field(elem_of(v, i), "txid"@) is Some && u64_field(elem_of(v, i), "vout"@) is Some
}

/// The whole unspent listing decodes: it is a JSON array and every element
/// decodes.
pub open spec fn unspent_list_ok(v: serde_json::Value) -> bool {
    array_len(v) matches Some(n) && (forall|i: int| 0 <= i < n ==> unspent_elem_ok(v, i))
}

/// Entry `i` of a decoded listing carries exactly element `i`'s two fields.
pub open spec fn unspent_entry_matches(v: serde_json::Value, i: int, u: UnspentOutput) -> bool {
    str_field(elem_of(v, i), "txid"@) == Some(u.txid@) && u64_field(elem_of(v, i), "vout"@)
        == Some(u.vout)
}

/// Decode the unspent-output listing: a JSON array of records, each carrying
/// the creating transaction's identifier under `txid` and the output position
/// under `vout`.
///
/// Succeeds exactly when the response is an array whose every element carries
/// both fields; the result then lists, in order, one entry per element, built
/// from that element's two fields. A response that is not an array is
/// rejected as such; otherwise the first element lacking a field is reported
/// with its position and the missing field's name, `txid` checked first.
pub fn decode_unspent_list(v: &serde_json::Value) -> (r: Result<Vec<UnspentOutput>, DecodeError>)
    ensures
        r is Ok <==> unspent_list_ok(*v),
        (r matches Err(e) && e is NotArray) <==> array_len(*v) is None,
        r matches Ok(list) ==> (array_len(*v) == Some(list@.len() as int) && (forall|i: int|
            0 <= i < list@.len() ==> unspent_entry_matches(*v, i, #[trigger] list@[i]))),
        r matches Err(e) ==> e matches DecodeError::ElementMissingField { index, name } ==> (
        array_len(*v) matches Some(n) && index < n && !unspent_elem_ok(*v, index as int) && (
        forall|j: int| 0 <= j < index ==> unspent_elem_ok(*v, j)) && (str_field(
            elem_of(*v, index as int),
            "txid"@,
        ) is None ==> name@ == "txid"@) && (str_field(elem_of(*v, index as int), "txid"@) is Some
            ==> name@ == "vout"@)),
        r matches Err(e) ==> (e is NotArray || e is ElementMissingField),
{
    let n = match value_array_len(v) {
        Some(n) => n,
        None => {
            return Err(DecodeError::NotArray);
        },
    };
    let mut list: Vec<UnspentOutput> = Vec::new();
    let mut i: usize = 0;
    while i < n
        invariant
            array_len(*v) == Some(n as int),
            i <= n,
            list@.len() == i as int,
            forall|k: int| 0 <= k < i ==> unspent_elem_ok(*v, k),
            forall|k: int| 0 <= k < i ==> unspent_entry_matches(*v, k, #[trigger] list@[k]),
        decreases n - i,
    {
        let elem = match value_array_elem(v, i) {
            Some(e) => e,
            None => {
                proof {
                    assert(false);
                }
                return Err(DecodeError::ElementMissingField {
                    index: i,
                    name: ("txid").to_owned(),
                });
            },
        };
        let txid = match get_str_field(&elem, "txid") {
            Some(t) => t,
            None => {
                proof {
                    assert(!unspent_elem_ok(*v, i as int));
                }
                return Err(DecodeError::ElementMissingField {
                    index: i,
                    name: ("txid").to_owned(),
                });
            },
        };
        let vout = match get_u64_field(&elem, "vout") {
            Some(x) => x,
            None => {
                proof {
                    assert(!unspent_elem_ok(*v, i as int));
                }
                return Err(DecodeError::ElementMissingField {
                    index: i,
                    name: ("vout").to_owned(),
                });
            },
        };
        list.push(UnspentOutput { txid, vout });
        i = i + 1;
    }
    Ok(list)
}

/// Element `i` of the wallet-directory array names a wallet: it carries a
/// string under `name`.
pub open spec fn wallet_elem_ok(w: serde_json::Value, i: int) -> bool {
    str_field(elem_of(w, i), "name"@) is Some
}

/// The whole wallet directory decodes: the value carries under `wallets` a
/// JSON array whose every element names a wallet.
pub open spec fn wallet_dir_ok(v: serde_json::Value) -> bool {
    &&& has_field(v, "wallets"@)
    &&& array_len(field_of(v, "wallets"@)) matches Some(n) && (forall|i: int|
        0 <= i < n ==> wallet_elem_ok(field_of(v, "wallets"@), i))
}

/// Decode the wallet-directory listing: an object carrying under `wallets` an
/// array of records, each naming a wallet under `name`.
///
/// Succeeds exactly when that shape holds; the result then lists, in order,
/// the name of each element of the array, one per element. A value without
/// the `wallets` key, a `wallets` entry that is not an array, and the first
/// element without a name are each rejected with the matching error.
pub fn decode_wallet_dir(v: &serde_json::Value) -> (r: Result<Vec<String>, DecodeError>)
    ensures
        r is Ok <==> wallet_dir_ok(*v),
        r matches Ok(names) ==> (array_len(field_of(*v, "wallets"@)) == Some(
            names@.len() as int,
        ) && (forall|i: int|
            0 <= i < names@.len() ==> str_field(elem_of(field_of(*v, "wallets"@), i), "name"@)
                == Some(#[trigger] names@[i]@))),
        r matches Err(e) ==> e matches DecodeError::MissingField { name } ==> (!has_field(
            *v,
            "wallets"@,
        ) && name@ == "wallets"@),
        (r matches Err(e) && e is NotArray) <==> (has_field(*v, "wallets"@) && array_len(
            field_of(*v, "wallets"@),
        ) is None),
        r matches Err(e) ==> e matches DecodeError::ElementMissingField { index, name } ==> (
        has_field(*v, "wallets"@) && (array_len(field_of(*v, "wallets"@)) matches Some(n) && index
            < n) && !wallet_elem_ok(field_of(*v, "wallets"@), index as int) && (forall|j: int|
            0 <= j < index ==> wallet_elem_ok(field_of(*v, "wallets"@), j)) && name@ == "name"@),
        r matches Err(e) ==> (e is MissingField || e is NotArray || e is ElementMissingField),
{
    let wallets = match get_field(v, "wallets") {
        Some(w) => w,
        None => {
            return Err(DecodeError::MissingField { name: ("wallets").to_owned() });
        },
    };
    let n = match value_array_len(&wallets) {
        Some(n) => n,
        None => {
            return Err(DecodeError::NotArray);
        },
    };
    let mut names: Vec<String> = Vec::new();
    let mut i: usize = 0;
    while i < n
        invariant
            has_field(*v, "wallets"@),
            wallets == field_of(*v, "wallets"@),
            array_len(wallets) == Some(n as int),
            i <= n,
            names@.len() == i as int,
            forall|k: int| 0 <= k < i ==> wallet_elem_ok(wallets, k),
            forall|k: int|
                0 <= k < i ==> str_field(elem_of(wallets, k), "name"@) == Some(
                    #[trigger] names@[k]@,
                ),
        decreases n - i,
    {
        let elem = match value_array_elem(&wallets, i) {
            Some(e) => e,
            None => {
                proof {
                    assert(false);
                }
                return Err(DecodeError::ElementMissingField {
                    index: i,
                    name: ("name").to_owned(),
                });
            },
        };
        match get_str_field(&elem, "name") {
            Some(name) => names.push(name),
            None => {
                proof {
                    assert(!wallet_elem_ok(wallets, i as int));
                }
                return Err(DecodeError::ElementMissingField {
                    index: i,
                    name: ("name").to_owned(),
                });
            },
        }
        i = i + 1;
    }
    Ok(names)
}

/// What the node's own `send` call hands back: whether the transaction was
/// complete and broadcast, and its identifier.
pub struct SendOutcome {
    pub txid: String,
    pub complete: bool,
}

/// Accept the outcome of the node's `send` call: hand the transaction
/// identifier on exactly when the node reported the send complete; an
/// incomplete send is refused, with a fixed message, before anything is done
/// with the identifier.
pub fn accept_send_outcome(outcome: SendOutcome) -> (r: Result<String, String>)
    ensures
        outcome.complete ==> (r matches Ok(t) && t@ == outcome.txid@),
        !outcome.complete ==> (r matches Err(m) && m@ == "send incomplete"@),
{
    if outcome.complete {
        Ok(outcome.txid)
    } else {
        Err(("send incomplete").to_owned())
    }
}

/// Decode the response of the node's `send` call: the completeness flag under
/// `complete` and the transaction identifier under `txid`; the absence of
/// either is the local validation error naming the missing field, `complete`
/// checked first.
pub fn decode_send_response(v: &serde_json::Value) -> (r: Result<SendOutcome, DecodeError>)
    ensures
        bool_field(*v, "complete"@) matches Some(c) ==> str_field(*v, "txid"@) matches Some(t)
            ==> (r matches Ok(o) && o.complete == c && o.txid@ == t),
        bool_field(*v, "complete"@) is None ==> (r matches Err(e)
            && e matches DecodeError::MissingField { name } && name@ == "complete"@),
        (bool_field(*v, "complete"@) is Some && str_field(*v, "txid"@) is None) ==> (r matches Err(
            e,
        ) && e matches DecodeError::MissingField { name } && name@ == "txid"@),
{
    let complete = match get_bool_field(v, "complete") {
        Some(c) => c,
        None => {
            return Err(DecodeError::MissingField { name: ("complete").to_owned() });
        },
    };
    match get_str_field(v, "txid") {
        Some(txid) => Ok(SendOutcome { txid, complete }),
        None => Err(DecodeError::MissingField { name: ("txid").to_owned() }),
    }
}

} // verus!
