//! The result sink: rendering the broadcast transaction identifier as a
//! newline-terminated record, and the overwrite semantics of persisting it.
use vstd::prelude::*;
use crate::hexstr::{is_hex_digit, is_txid_text};

verus! {

/// The text record of one transaction identifier: the identifier followed by
/// a single newline.
pub open spec fn record_text(txid: Seq<char>) -> Seq<char> {
    txid + seq!['\n']
}

/// What the designated file holds after a record is written over previous
/// content: the new record alone — a full overwrite, never an append.
pub open spec fn overwritten(prev: Seq<char>, record: Seq<char>) -> Seq<char> {
    record
}

/// Overwrite law: writing one record and then another leaves only the second
/// in the file, whatever it held before.
pub proof fn lemma_second_write_wins(initial: Seq<char>, first: Seq<char>, second: Seq<char>)
    ensures
        overwritten(overwritten(initial, first), second) == second,
{
}

/// Render the record for one transaction identifier.
pub fn record_line(txid: &str) -> (r: String)
    ensures
        r@ == record_text(txid@),
{
    let mut r = txid.to_owned();
    r.append("\n");
    proof {
        reveal_strlit("\n");
        assert(r@ =~= record_text(txid@));
    }
    r
}

/// The record of a well-formed transaction identifier is exactly one
/// 64-character hex line: 65 characters, whose only newline stands at the
/// end, after the 64 hex digits.
pub proof fn lemma_record_single_line(txid: Seq<char>)
    requires
        is_txid_text(txid),
    ensures
        record_text(txid).len() == 65,
        record_text(txid)[64] == '\n',
        forall|i: int| 0 <= i < 64 ==> is_hex_digit(#[trigger] record_text(txid)[i]),
        forall|i: int| 0 <= i < 64 ==> #[trigger] record_text(txid)[i] != '\n',
{
    assert forall|i: int| 0 <= i < 64 implies is_hex_digit(#[trigger] record_text(txid)[i]) by {
        assert(record_text(txid)[i] == txid[i]);
    }
    assert forall|i: int| 0 <= i < 64 implies #[trigger] record_text(txid)[i] != '\n' by {
        assert(is_hex_digit(txid[i]));
        assert('\n' as u32 == 10);
    }
}

/// The in-memory model of the designated result file: its full content.
pub struct ResultSink {
    pub content: String,
}

impl ResultSink {
    /// A fresh, empty sink.
    pub fn new() -> (r: ResultSink)
        ensures
            r.content@ == Seq::<char>::empty(),
    {
        ResultSink { content: String::new() }
    }

    /// Persist a record: the sink then holds the record alone, whatever it
    /// held before.
    pub fn write_record(&mut self, record: String)
        ensures
            final(self).content@ == overwritten(old(self).content@, record@),
    {
        self.content = record;
    }
}

} // verus!
