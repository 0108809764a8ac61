//! Unspent outputs and the selection policy.
use vstd::prelude::*;

verus! {

/// An unspent output as reported by the node: the identifier of the
/// transaction that created it and the position of the output within it.
/// Its value stays implicit: the selection policy does not weigh values,
/// and the funding stage tops the transaction up as needed.
pub struct UnspentOutput {
    /// Hex-encoded identifier of the creating transaction.
    pub txid: String,
    /// Position of the output within that transaction.
    pub vout: u64,
}

/// What selection returns: the first `min(limit, len)` items of the listing,
/// in the order the node returned them.
pub open spec fn selection<T>(s: Seq<T>, limit: int) -> Seq<T>
    recommends
        limit >= 0,
{
    if limit <= s.len() {
        s.take(limit)
    } else {
        s
    }
}

/// Selection law: for every listing, selection returns exactly
/// `min(limit, len)` items, preserves the listing's order, and neither
/// fabricates nor duplicates entries — item `i` of the result is item `i`
/// of the listing.
pub proof fn lemma_selection<T>(s: Seq<T>, limit: int)
    requires
        limit >= 0,
    ensures
        selection(s, limit).len() == if limit <= s.len() {
            limit as int
        } else {
            s.len() as int
        },
        forall|i: int| 0 <= i < selection(s, limit).len() ==> selection(s, limit)[i] == s[i],
{
}

/// Pick the unspent outputs to reference as explicit transaction inputs:
/// the first `limit` items in the order the node returned them. An empty
/// listing yields an empty selection, and a zero limit yields an empty
/// selection; zero explicit inputs are valid downstream, since the funding
/// stage then sources all inputs itself.
pub fn select(available: Vec<UnspentOutput>, limit: usize) -> (r: Vec<UnspentOutput>)
    ensures
        r@ == selection(available@, limit as int),
{
    let mut v = available;
    let ghost orig = v@;
    v.truncate(limit);
    proof {
        if limit as int <= orig.len() {
            assert(v@ =~= orig.take(limit as int));
        }
    }
    v
}

} // verus!
