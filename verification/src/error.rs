use vstd::prelude::*;

verus! {

/// Why a request was refused. The first violated rule decides, and nothing is retried.
#[derive(Clone, Copy, Debug, PartialEq, Eq, Structural)]
pub enum ErrorCode {
    /// The payer's native balance does not cover the transfers and the fee together.
    InsufficientFunds,
    /// A sum of amounts, or the total plus the fee, does not fit in 64 bits.
    ArithmeticOverflow,
    /// The caller is not the administrator that the request needs.
    Unauthorized,
    /// The list of transfers is empty.
    EmptyTransfers,
    /// The bank record was initialised before.
    AlreadyInitialized,
    /// The account handed in for a transfer is not the recipient that the transfer names.
    InvalidRecipient,
    /// The payer's token balance does not cover the transfers.
    InsufficientTokenBalance,
    /// The payer's native balance does not cover the fee of a token batch.
    InsufficientFundsForFee,
    /// Fewer accounts were handed in than there are transfers.
    NotEnoughAccountKeys,
}

} // verus!
