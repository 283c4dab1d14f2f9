use crate::accounts::{BatchTransferSol, BatchTransferToken};
use crate::arithmetic::{checked_add, checked_sum, safe_add, safe_sum_transfer_info};
use crate::error::ErrorCode;
use crate::event::{
    amounts, recipients, sol_transfer_event, token_transfer_event, SolTransferEvent,
    SolTransferEventView, TokenTransferEvent, TokenTransferEventView,
};
use crate::pubkey::Pubkey;
use crate::transfer::TransferInfo;
use vstd::prelude::*;

verus! {

/// How far one batch call has come. A call begins at `Start`; every move that the ledger
/// has carried out takes it to the `Progress` that came with the move.
#[derive(Clone, Copy, Debug, PartialEq, Eq, Structural)]
pub enum Progress {
    /// Nothing has been checked, nothing has been moved.
    Start,
    /// The checks that precede every move have passed with `total_amount` as the sum of the
    /// batch, the fee has been collected where one is due, and the first `paid` transfers
    /// have been carried out.
    Paying { paid: usize, total_amount: u64 },
}

/// What a batch call does next. The ledger carries out a move and the call goes on from
/// `next`; a move that the ledger refuses ends the call with the ledger's own error.
#[derive(Clone, Debug, PartialEq, Eq)]
pub enum Step<E> {
    /// Move `amount` native units from the payer to the bank record.
    CollectFee { amount: u64, next: Progress },
    /// Move `amount` units from the payer to the account at position `index` of the
    /// accounts that came with the request.
    Transfer { index: usize, amount: u64, next: Progress },
    /// Every move is done: the call succeeds and announces `event`.
    Finish { event: E },
}

impl<E: View> View for Step<E> {
    type V = Step<E::V>;

    open spec fn view(&self) -> Step<E::V> {
        match *self {
            Step::CollectFee { amount, next } => Step::CollectFee { amount, next },
            Step::Transfer { index, amount, next } => Step::Transfer { index, amount, next },
            Step::Finish { event } => Step::Finish { event: event@ },
        }
    }
}

/// The result of a step with the event, if there is one, as its view.
pub open spec fn step_view<E: View>(r: Result<Step<E>, ErrorCode>) -> Result<Step<E::V>, ErrorCode> {
    match r {
        Ok(step) => Ok(step@),
        Err(e) => Err(e),
    }
}

/// What the payer must hold for a batch of native transfers: the sum of the amounts and the
/// fee together, or `ArithmeticOverflow` where either sum does not fit in 64 bits.
pub open spec fn required_balance(transfers: Seq<TransferInfo>, fee: u64) -> Result<u64, ErrorCode> {
    match checked_sum(transfers) {
        Ok(total) => checked_add(total, fee),
        Err(e) => Err(e),
    }
}

/// The checks of a batch of native transfers that precede every move, in their order: the
/// list is not empty, the amounts and the fee add up without overflow, and the payer holds
/// what they add up to. Where they pass, the sum of the amounts.
pub open spec fn sol_preflight(lamports: u64, fee: u64, transfers: Seq<TransferInfo>) -> Result<
    u64,
    ErrorCode,
> {
    if transfers.len() == 0 {
        Err(ErrorCode::EmptyTransfers)
    } else {
        match required_balance(transfers, fee) {
            Ok(required) => if lamports < required {
                Err(ErrorCode::InsufficientFunds)
            } else {
                checked_sum(transfers)
            },
            Err(e) => Err(e),
        }
    }
}

/// The checks of a batch of token transfers that precede every move, in their order: the
/// list is not empty, the amounts add up without overflow, the token account holds the sum,
/// and the payer's native balance covers the fee. Where they pass, the sum of the amounts.
pub open spec fn token_preflight(
    token_amount: u64,
    lamports: u64,
    fee: u64,
    transfers: Seq<TransferInfo>,
) -> Result<u64, ErrorCode> {
    if transfers.len() == 0 {
        Err(ErrorCode::EmptyTransfers)
    } else {
        match checked_sum(transfers) {
            Ok(total) => if token_amount < total {
                Err(ErrorCode::InsufficientTokenBalance)
            } else if lamports < fee {
                Err(ErrorCode::InsufficientFundsForFee)
            } else {
                Ok(total)
            },
            Err(e) => Err(e),
        }
    }
}

/// The transfer at position `index` held against the accounts that came with the request:
/// there must be an account at that position, and it must be the recipient that the
/// transfer names. Where both hold, the amount to move. The pairing is strict and goes by
/// position alone: a batch never pays an account other than the one its transfer names,
/// and accounts beyond the last transfer are not looked at.
pub open spec fn paired(
    remaining_accounts: Seq<Pubkey>,
    transfers: Seq<TransferInfo>,
    index: int,
) -> Result<u64, ErrorCode> {
    if index >= remaining_accounts.len() {
        Err(ErrorCode::NotEnoughAccountKeys)
    } else if remaining_accounts[index] != transfers[index].recipient {
        Err(ErrorCode::InvalidRecipient)
    } else {
        Ok(transfers[index].amount)
    }
}

/// The step of a call whose checks have passed and whose fee is dealt with, after `paid`
/// transfers: the next transfer, once it is paired with its account, or the end of the call
/// with `event`.
pub open spec fn payout_step<V>(
    remaining_accounts: Seq<Pubkey>,
    transfers: Seq<TransferInfo>,
    paid: usize,
    total_amount: u64,
    event: V,
) -> Result<Step<V>, ErrorCode> {
    if paid < transfers.len() {
        match paired(remaining_accounts, transfers, paid as int) {
            Ok(amount) => Ok(
                Step::Transfer {
                    index: paid,
                    amount,
                    next: Progress::Paying { paid: (paid + 1) as usize, total_amount },
                },
            ),
            Err(e) => Err(e),
        }
    } else {
        Ok(Step::Finish { event })
    }
}

/// The step that follows the checks of a call, which gave `total_amount`: the fee where one
/// is due, else the first transfer.
pub open spec fn first_step<V>(
    fee: u64,
    remaining_accounts: Seq<Pubkey>,
    transfers: Seq<TransferInfo>,
    total_amount: u64,
    event: V,
) -> Result<Step<V>, ErrorCode> {
    if fee > 0 {
        Ok(Step::CollectFee { amount: fee, next: Progress::Paying { paid: 0, total_amount } })
    } else {
        payout_step(remaining_accounts, transfers, 0, total_amount, event)
    }
}

/// The step of a call at `progress`, where `checks` is what the checks that precede every
/// move gave and `event` is what the call announces for a given sum.
pub open spec fn batch_step<V>(
    checks: Result<u64, ErrorCode>,
    fee: u64,
    remaining_accounts: Seq<Pubkey>,
    transfers: Seq<TransferInfo>,
    event: spec_fn(u64) -> V,
    progress: Progress,
) -> Result<Step<V>, ErrorCode> {
    match progress {
        Progress::Start => match checks {
            Ok(total_amount) => first_step(
                fee,
                remaining_accounts,
                transfers,
                total_amount,
                event(total_amount),
            ),
            Err(e) => Err(e),
        },
        Progress::Paying { paid, total_amount } => payout_step(
            remaining_accounts,
            transfers,
            paid,
            total_amount,
            event(total_amount),
        ),
    }
}

/// What a batch of native transfers announces, for a given sum.
pub open spec fn sol_event(ctx: BatchTransferSol, transfers: Seq<TransferInfo>) -> spec_fn(
    u64,
) -> SolTransferEventView {
    |total_amount: u64|
        sol_transfer_event(ctx.sender.key, transfers, total_amount, ctx.bank_account.fee)
}

/// What a batch of token transfers announces, for a given sum.
pub open spec fn token_event(ctx: BatchTransferToken, transfers: Seq<TransferInfo>) -> spec_fn(
    u64,
) -> TokenTransferEventView {
    |total_amount: u64|
        token_transfer_event(
            ctx.sender.key,
            ctx.token_account.key,
            transfers,
            total_amount,
            ctx.bank_account.fee,
        )
}

/// The step of a batch of native transfers at `progress`.
pub open spec fn sol_step(
    ctx: BatchTransferSol,
    remaining_accounts: Seq<Pubkey>,
    transfers: Seq<TransferInfo>,
    progress: Progress,
) -> Result<Step<SolTransferEventView>, ErrorCode> {
    batch_step(
        sol_preflight(ctx.sender.lamports, ctx.bank_account.fee, transfers),
        ctx.bank_account.fee,
        remaining_accounts,
        transfers,
        sol_event(ctx, transfers),
        progress,
    )
}

/// The step of a batch of token transfers at `progress`.
pub open spec fn token_step(
    ctx: BatchTransferToken,
    remaining_accounts: Seq<Pubkey>,
    transfers: Seq<TransferInfo>,
    progress: Progress,
) -> Result<Step<TokenTransferEventView>, ErrorCode> {
    batch_step(
        token_preflight(
            ctx.token_account.amount,
            ctx.sender.lamports,
            ctx.bank_account.fee,
            transfers,
        ),
        ctx.bank_account.fee,
        remaining_accounts,
        transfers,
        token_event(ctx, transfers),
        progress,
    )
}

/// Pairs the transfer at position `index` with the account at the same position and gives
/// the amount to move.
pub fn pair_transfer(
    remaining_accounts: &Vec<Pubkey>,
    transfers: &Vec<TransferInfo>,
    index: usize,
) -> (r: Result<u64, ErrorCode>)
    requires
        index < transfers.len(),
    ensures
        r == paired(remaining_accounts@, transfers@, index as int),
{
    if index >= remaining_accounts.len() {
        return Err(ErrorCode::NotEnoughAccountKeys);
    }
    if remaining_accounts[index] != transfers[index].recipient {
        return Err(ErrorCode::InvalidRecipient);
    }
    Ok(transfers[index].amount)
}

/// One step of a batch of native transfers. At `Start` it checks the whole batch before
/// anything moves; after that it hands out, one call at a time, the fee, each transfer
/// once it is paired with its account, and at last the event.
pub fn batch_transfer_sol(
    ctx: &BatchTransferSol,
    remaining_accounts: &Vec<Pubkey>,
    transfers: &Vec<TransferInfo>,
    progress: Progress,
) -> (r: Result<Step<SolTransferEvent>, ErrorCode>)
    ensures
        step_view(r) == sol_step(*ctx, remaining_accounts@, transfers@, progress),
{
    let fee = ctx.bank_account.fee;
    let (paid, total_amount) = match progress {
        Progress::Start => {
            if transfers.len() == 0 {
                return Err(ErrorCode::EmptyTransfers);
            }
            let total_amount = match safe_sum_transfer_info(transfers) {
                Ok(total_amount) => total_amount,
                Err(e) => {
                    return Err(e);
                },
            };
            let required_balance = match safe_add(total_amount, fee) {
                Ok(required_balance) => required_balance,
                Err(e) => {
                    return Err(e);
                },
            };
            if ctx.sender.lamports < required_balance {
                return Err(ErrorCode::InsufficientFunds);
            }
            if fee > 0 {
                return Ok(
                    Step::CollectFee {
                        amount: fee,
                        next: Progress::Paying { paid: 0, total_amount },
                    },
                );
            }
            (0, total_amount)
        },
        Progress::Paying { paid, total_amount } => (paid, total_amount),
    };
    if paid < transfers.len() {
        let amount = match pair_transfer(remaining_accounts, transfers, paid) {
            Ok(amount) => amount,
            Err(e) => {
                return Err(e);
            },
        };
        Ok(
            Step::Transfer {
                index: paid,
                amount,
                next: Progress::Paying { paid: paid + 1, total_amount },
            },
        )
    } else {
        Ok(
            Step::Finish {
                event: SolTransferEvent {
                    from: ctx.sender.key,
                    recipients: recipients(transfers),
                    amounts: amounts(transfers),
                    total_amount,
                    fee,
                },
            },
        )
    }
}

/// One step of a batch of token transfers. The token account must hold the sum of the
/// batch and the payer's native balance must cover the fee, each checked by itself; the
/// fee moves in native units, the transfers in tokens.
pub fn batch_transfer_token(
    ctx: &BatchTransferToken,
    remaining_accounts: &Vec<Pubkey>,
    transfers: &Vec<TransferInfo>,
    progress: Progress,
) -> (r: Result<Step<TokenTransferEvent>, ErrorCode>)
    ensures
        step_view(r) == token_step(*ctx, remaining_accounts@, transfers@, progress),
{
    let fee = ctx.bank_account.fee;
    let (paid, total_amount) = match progress {
        Progress::Start => {
            if transfers.len() == 0 {
                return Err(ErrorCode::EmptyTransfers);
            }
            let total_amount = match safe_sum_transfer_info(transfers) {
                Ok(total_amount) => total_amount,
                Err(e) => {
                    return Err(e);
                },
            };
            if ctx.token_account.amount < total_amount {
                return Err(ErrorCode::InsufficientTokenBalance);
            }
            if ctx.sender.lamports < fee {
                return Err(ErrorCode::InsufficientFundsForFee);
            }
            if fee > 0 {
                return Ok(
                    Step::CollectFee {
                        amount: fee,
                        next: Progress::Paying { paid: 0, total_amount },
                    },
                );
            }
            (0, total_amount)
        },
        Progress::Paying { paid, total_amount } => (paid, total_amount),
    };
    if paid < transfers.len() {
        let amount = match pair_transfer(remaining_accounts, transfers, paid) {
            Ok(amount) => amount,
            Err(e) => {
                return Err(e);
            },
        };
        Ok(
            Step::Transfer {
                index: paid,
                amount,
                next: Progress::Paying { paid: paid + 1, total_amount },
            },
        )
    } else {
        Ok(
            Step::Finish {
                event: TokenTransferEvent {
                    from: ctx.sender.key,
                    token_account: ctx.token_account.key,
                    recipients: recipients(transfers),
                    amounts: amounts(transfers),
                    total_amount,
                    fee,
                },
            },
        )
    }
}

} // verus!
