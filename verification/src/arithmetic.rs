use crate::error::ErrorCode;
use crate::transfer::{lemma_sum_amounts_prefix, lemma_sum_amounts_step, sum_amounts, TransferInfo};
use vstd::prelude::*;

verus! {

/// `a + b` where it fits in 64 bits, `ArithmeticOverflow` where it does not.
pub open spec fn checked_add(a: u64, b: u64) -> Result<u64, ErrorCode> {
    if a + b <= u64::MAX {
        Ok((a + b) as u64)
    } else {
        Err(ErrorCode::ArithmeticOverflow)
    }
}

/// The sum of the amounts where it fits in 64 bits, `ArithmeticOverflow` where it does not.
/// No amount is negative, so a partial sum leaves the range exactly when the whole sum does.
pub open spec fn checked_sum(transfers: Seq<TransferInfo>) -> Result<u64, ErrorCode> {
    if sum_amounts(transfers) <= u64::MAX {
        Ok(sum_amounts(transfers) as u64)
    } else {
        Err(ErrorCode::ArithmeticOverflow)
    }
}

/// A sum is refused exactly where some partial sum, taken from the left, leaves the range:
/// to stop at the first such partial sum is to refuse the whole.
pub proof fn lemma_checked_sum_partial(transfers: Seq<TransferInfo>)
    ensures
        checked_sum(transfers) is Err <==> exists|n: int|
            0 <= n <= transfers.len() && sum_amounts(#[trigger] transfers.take(n)) > u64::MAX,
        checked_sum(transfers) is Err ==> checked_sum(transfers) == Err::<u64, ErrorCode>(
            ErrorCode::ArithmeticOverflow,
        ),
{
    if checked_sum(transfers) is Err {
        assert(transfers.take(transfers.len() as int) =~= transfers);
    }
    assert forall|n: int|
        0 <= n <= transfers.len() && sum_amounts(
            #[trigger] transfers.take(n),
        ) > u64::MAX implies checked_sum(transfers) is Err by {
        lemma_sum_amounts_prefix(transfers, n);
    }
}

/// Adds two amounts without wrapping.
pub fn safe_add(a: u64, b: u64) -> (r: Result<u64, ErrorCode>)
    ensures
        r == checked_add(a, b),
{
    match a.checked_add(b) {
        Some(sum) => Ok(sum),
        None => Err(ErrorCode::ArithmeticOverflow),
    }
}

/// Adds up the amounts of a batch from the left, and stops at the first partial sum that
/// does not fit.
pub fn safe_sum_transfer_info(transfers: &Vec<TransferInfo>) -> (r: Result<u64, ErrorCode>)
    ensures
        r == checked_sum(transfers@),
{
    let mut acc: u64 = 0;
    let mut i: usize = 0;
    while i < transfers.len()
        invariant
            i <= transfers.len(),
            acc == sum_amounts(transfers@.take(i as int)),
        decreases transfers.len() - i,
    {
        proof {
            lemma_sum_amounts_step(transfers@, i as int);
        }
        match acc.checked_add(transfers[i].amount) {
            Some(sum) => {
                acc = sum;
            },
            None => {
                proof {
                    lemma_sum_amounts_prefix(transfers@, i + 1);
                }
                return Err(ErrorCode::ArithmeticOverflow);
            },
        }
        i += 1;
    }
    assert(transfers@.take(i as int) =~= transfers@);
    Ok(acc)
}

} // verus!
