//! A verified client-side workflow that drives a Bitcoin-style node through
//! its JSON-RPC interface along one transaction lifecycle: check
//! connectivity, provision a wallet, derive a receiving address, mine blocks
//! to fund it, select unspent outputs, assemble a raw transaction with one
//! payment output and one data-carrier output, have the node fund, sign and
//! broadcast it, and persist the resulting transaction identifier.
//!
//! The library holds every decision of that workflow — selection, assembly,
//! response decoding, sequencing, error classification, record rendering —
//! with contracts; the surrounding driver only performs the calls and hands
//! their outcomes back as events.
pub mod amount;
pub mod error;
pub mod hexstr;
pub mod json;
pub mod sink;
pub mod tx;
pub mod utxo;
pub mod workflow;
