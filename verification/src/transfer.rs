use crate::pubkey::Pubkey;
use vstd::prelude::*;

verus! {

/// One entry of a batch: `amount` units for `recipient`. An amount of zero is allowed, and a
/// recipient may stand in a batch more than once: each entry is paid by itself.
#[derive(Clone, Copy, Debug, PartialEq, Eq)]
pub struct TransferInfo {
    pub recipient: Pubkey,
    pub amount: u64,
}

/// The amounts of `transfers` added up, as a mathematical integer.
pub open spec fn sum_amounts(transfers: Seq<TransferInfo>) -> nat
    decreases transfers.len(),
{
    if transfers.len() == 0 {
        0
    } else {
        sum_amounts(transfers.drop_last()) + transfers.last().amount as nat
    }
}

/// The recipients of `transfers`, in the order of the list.
pub open spec fn recipients_of(transfers: Seq<TransferInfo>) -> Seq<Pubkey> {
    Seq::new(transfers.len(), |i: int| transfers[i].recipient)
}

/// The amounts of `transfers`, in the order of the list.
pub open spec fn amounts_of(transfers: Seq<TransferInfo>) -> Seq<u64> {
    Seq::new(transfers.len(), |i: int| transfers[i].amount)
}

/// A list sums to at least as much as any of its prefixes.
pub proof fn lemma_sum_amounts_prefix(transfers: Seq<TransferInfo>, n: int)
    requires
        0 <= n <= transfers.len(),
    ensures
        sum_amounts(transfers.take(n)) <= sum_amounts(transfers),
    decreases transfers.len(),
{
    if n == transfers.len() {
        assert(transfers.take(n) =~= transfers);
    } else {
        lemma_sum_amounts_prefix(transfers.drop_last(), n);
        assert(transfers.drop_last().take(n) =~= transfers.take(n));
    }
}

/// Taking one more entry adds its amount to the sum.
pub proof fn lemma_sum_amounts_step(transfers: Seq<TransferInfo>, n: int)
    requires
        0 <= n < transfers.len(),
    ensures
        sum_amounts(transfers.take(n + 1)) == sum_amounts(transfers.take(n)) + transfers[n].amount,
{
    assert(transfers.take(n + 1).drop_last() =~= transfers.take(n));
}

} // verus!
