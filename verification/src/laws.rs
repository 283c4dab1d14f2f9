use crate::accounts::{BatchTransferSol, BatchTransferToken};
use crate::call::{
    all_paired, batch_outcome, fee_moves, fees_in, first_unpaired, lemma_batch_run,
    lemma_first_unpaired, lemma_first_unpaired_is, lemma_moves_add_up, paid_in, pay_moves,
    sol_call, token_call, Move,
};
use crate::engine::{
    paired, required_balance, sol_event, sol_preflight, sol_step, token_event, token_preflight,
    token_step, Progress, Step,
};
use crate::error::ErrorCode;
use crate::event::{
    sol_transfer_event, token_transfer_event, SolTransferEventView, TokenTransferEventView,
};
use crate::pubkey::Pubkey;
use crate::transfer::{lemma_sum_amounts_prefix, sum_amounts, TransferInfo};
use vstd::prelude::*;

verus! {

/// A whole batch of native transfers, said at once: taken step by step it asks of the
/// ledger, and ends, as `batch_outcome` says.
pub proof fn lemma_sol_call(
    ctx: BatchTransferSol,
    remaining_accounts: Seq<Pubkey>,
    transfers: Seq<TransferInfo>,
)
    requires
        transfers.len() <= usize::MAX,
    ensures
        sol_call(ctx, remaining_accounts, transfers) == batch_outcome(
            sol_preflight(ctx.sender.lamports, ctx.bank_account.fee, transfers),
            ctx.bank_account.fee,
            remaining_accounts,
            transfers,
            sol_event(ctx, transfers),
        ),
{
    lemma_batch_run(
        sol_preflight(ctx.sender.lamports, ctx.bank_account.fee, transfers),
        ctx.bank_account.fee,
        remaining_accounts,
        transfers,
        sol_event(ctx, transfers),
    );
}

/// A whole batch of token transfers, said at once.
pub proof fn lemma_token_call(
    ctx: BatchTransferToken,
    remaining_accounts: Seq<Pubkey>,
    transfers: Seq<TransferInfo>,
)
    requires
        transfers.len() <= usize::MAX,
    ensures
        token_call(ctx, remaining_accounts, transfers) == batch_outcome(
            token_preflight(
                ctx.token_account.amount,
                ctx.sender.lamports,
                ctx.bank_account.fee,
                transfers,
            ),
            ctx.bank_account.fee,
            remaining_accounts,
            transfers,
            token_event(ctx, transfers),
        ),
{
    lemma_batch_run(
        token_preflight(
            ctx.token_account.amount,
            ctx.sender.lamports,
            ctx.bank_account.fee,
            transfers,
        ),
        ctx.bank_account.fee,
        remaining_accounts,
        transfers,
        token_event(ctx, transfers),
    );
}

/// For a batch that is not empty and whose amounts and fee add up without overflow, the
/// payer must hold the sum of the amounts plus the fee. A payer who holds less is refused
/// with `InsufficientFunds`, at the first step and before anything is asked of the ledger.
pub proof fn lemma_sol_insufficient_funds(
    ctx: BatchTransferSol,
    remaining_accounts: Seq<Pubkey>,
    transfers: Seq<TransferInfo>,
)
    requires
        0 < transfers.len() <= usize::MAX,
        sum_amounts(transfers) + ctx.bank_account.fee <= u64::MAX,
        ctx.sender.lamports < sum_amounts(transfers) + ctx.bank_account.fee,
    ensures
        required_balance(transfers, ctx.bank_account.fee) == Ok::<u64, ErrorCode>(
            (sum_amounts(transfers) + ctx.bank_account.fee) as u64,
        ),
        sol_step(ctx, remaining_accounts, transfers, Progress::Start) == Err::<
            Step<SolTransferEventView>,
            ErrorCode,
        >(ErrorCode::InsufficientFunds),
        sol_call(ctx, remaining_accounts, transfers).result == Err::<
            SolTransferEventView,
            ErrorCode,
        >(ErrorCode::InsufficientFunds),
        sol_call(ctx, remaining_accounts, transfers).moves == Seq::<Move>::empty(),
{
    lemma_sol_call(ctx, remaining_accounts, transfers);
}

/// An empty batch of native transfers is refused with `EmptyTransfers` before anything is
/// asked of the ledger, whatever the bank record, the payer and the accounts are.
pub proof fn lemma_sol_empty_transfers(
    ctx: BatchTransferSol,
    remaining_accounts: Seq<Pubkey>,
    transfers: Seq<TransferInfo>,
)
    requires
        transfers.len() == 0,
    ensures
        sol_step(ctx, remaining_accounts, transfers, Progress::Start) == Err::<
            Step<SolTransferEventView>,
            ErrorCode,
        >(ErrorCode::EmptyTransfers),
        sol_call(ctx, remaining_accounts, transfers).result == Err::<
            SolTransferEventView,
            ErrorCode,
        >(ErrorCode::EmptyTransfers),
        sol_call(ctx, remaining_accounts, transfers).moves == Seq::<Move>::empty(),
{
    lemma_sol_call(ctx, remaining_accounts, transfers);
}

/// A batch of native transfers that comes with fewer accounts than it has transfers fails
/// with `NotEnoughAccountKeys`, and the ledger keeps none of its moves. This holds where
/// no rule that is checked earlier refuses the call: the checks that precede every move
/// pass, and each account that did come is the recipient that its transfer names.
pub proof fn lemma_sol_not_enough_account_keys(
    ctx: BatchTransferSol,
    remaining_accounts: Seq<Pubkey>,
    transfers: Seq<TransferInfo>,
)
    requires
        transfers.len() <= usize::MAX,
        remaining_accounts.len() < transfers.len(),
        sol_preflight(ctx.sender.lamports, ctx.bank_account.fee, transfers) is Ok,
        forall|i: int|
            0 <= i < remaining_accounts.len() ==> (#[trigger] remaining_accounts[i])
                == transfers[i].recipient,
    ensures
        sol_call(ctx, remaining_accounts, transfers).result == Err::<
            SolTransferEventView,
            ErrorCode,
        >(ErrorCode::NotEnoughAccountKeys),
        sol_call(ctx, remaining_accounts, transfers).settled() == Seq::<Move>::empty(),
        sol_call(ctx, remaining_accounts, transfers).moves == fee_moves(ctx.bank_account.fee)
            + pay_moves(transfers, 0, remaining_accounts.len() as int),
{
    lemma_sol_call(ctx, remaining_accounts, transfers);
    lemma_first_unpaired_is(remaining_accounts, transfers, 0, remaining_accounts.len() as int);
}

/// A batch of native transfers succeeds exactly where the checks that precede every move
/// pass and the accounts pair with the transfers. It then has asked the ledger for the fee,
/// where one is due, and for every transfer once, in the order of the list, and it
/// announces the payer, the recipients, the amounts, their sum and the fee.
pub proof fn lemma_sol_success(
    ctx: BatchTransferSol,
    remaining_accounts: Seq<Pubkey>,
    transfers: Seq<TransferInfo>,
)
    requires
        transfers.len() <= usize::MAX,
    ensures
        sol_call(ctx, remaining_accounts, transfers).result is Ok <==> sol_preflight(
            ctx.sender.lamports,
            ctx.bank_account.fee,
            transfers,
        ) is Ok && all_paired(remaining_accounts, transfers),
        sol_call(ctx, remaining_accounts, transfers).result is Ok ==> {
            &&& sol_call(ctx, remaining_accounts, transfers).moves == fee_moves(
                ctx.bank_account.fee,
            ) + pay_moves(transfers, 0, transfers.len() as int)
            &&& sol_call(ctx, remaining_accounts, transfers).result == Ok::<
                SolTransferEventView,
                ErrorCode,
            >(
                sol_transfer_event(
                    ctx.sender.key,
                    transfers,
                    sum_amounts(transfers) as u64,
                    ctx.bank_account.fee,
                ),
            )
            &&& ctx.sender.lamports >= sum_amounts(transfers) + ctx.bank_account.fee
        },
{
    lemma_sol_call(ctx, remaining_accounts, transfers);
    lemma_first_unpaired(remaining_accounts, transfers, 0);
    if all_paired(remaining_accounts, transfers) {
        assert forall|i: int| 0 <= i < transfers.len() implies (#[trigger] paired(
            remaining_accounts,
            transfers,
            i,
        )) is Ok by {
            assert(remaining_accounts[i] == transfers[i].recipient);
        }
        lemma_first_unpaired_is(remaining_accounts, transfers, 0, transfers.len() as int);
    }
    if sol_call(ctx, remaining_accounts, transfers).result is Ok {
        assert(first_unpaired(remaining_accounts, transfers, 0) == transfers.len());
        assert forall|i: int| 0 <= i < transfers.len() implies remaining_accounts[i] == (
        #[trigger] transfers[i]).recipient by {
            assert(paired(remaining_accounts, transfers, i) is Ok);
        }
        if transfers.len() > 0 {
            assert(paired(remaining_accounts, transfers, transfers.len() - 1) is Ok);
        }
    }
}

/// A batch of native transfers never asks the ledger for more than the payer held when the
/// call began, however it ends: the checks that precede every move see to it. A batch that
/// succeeds has asked for exactly the fee and the sum of its amounts.
pub proof fn lemma_sol_payer_covers_every_move(
    ctx: BatchTransferSol,
    remaining_accounts: Seq<Pubkey>,
    transfers: Seq<TransferInfo>,
)
    requires
        transfers.len() <= usize::MAX,
    ensures
        fees_in(sol_call(ctx, remaining_accounts, transfers).moves) + paid_in(
            sol_call(ctx, remaining_accounts, transfers).moves,
        ) <= ctx.sender.lamports,
        sol_call(ctx, remaining_accounts, transfers).result is Ok ==> {
            &&& fees_in(sol_call(ctx, remaining_accounts, transfers).moves)
                == ctx.bank_account.fee
            &&& paid_in(sol_call(ctx, remaining_accounts, transfers).moves) == sum_amounts(
                transfers,
            )
            &&& required_balance(transfers, ctx.bank_account.fee) == Ok::<u64, ErrorCode>(
                (sum_amounts(transfers) + ctx.bank_account.fee) as u64,
            )
        },
{
    lemma_sol_call(ctx, remaining_accounts, transfers);
    lemma_sol_success(ctx, remaining_accounts, transfers);
    lemma_first_unpaired(remaining_accounts, transfers, 0);
    let stop = first_unpaired(remaining_accounts, transfers, 0);
    if sol_preflight(ctx.sender.lamports, ctx.bank_account.fee, transfers) is Ok {
        lemma_moves_add_up(ctx.bank_account.fee, transfers, stop);
        lemma_sum_amounts_prefix(transfers, stop);
        if stop == transfers.len() {
            assert(transfers.take(stop) =~= transfers);
        }
    }
}

/// A batch of token transfers never asks the token ledger for more than the token account
/// held, nor the native ledger for more than the payer held, however it ends. A batch that
/// succeeds has asked for exactly the sum of its amounts in tokens and the fee in native
/// units.
pub proof fn lemma_token_balances_cover_every_move(
    ctx: BatchTransferToken,
    remaining_accounts: Seq<Pubkey>,
    transfers: Seq<TransferInfo>,
)
    requires
        transfers.len() <= usize::MAX,
    ensures
        paid_in(token_call(ctx, remaining_accounts, transfers).moves)
            <= ctx.token_account.amount,
        fees_in(token_call(ctx, remaining_accounts, transfers).moves) <= ctx.sender.lamports,
        token_call(ctx, remaining_accounts, transfers).result is Ok ==> {
            &&& fees_in(token_call(ctx, remaining_accounts, transfers).moves)
                == ctx.bank_account.fee
            &&& paid_in(token_call(ctx, remaining_accounts, transfers).moves) == sum_amounts(
                transfers,
            )
        },
{
    lemma_token_call(ctx, remaining_accounts, transfers);
    lemma_token_success(ctx, remaining_accounts, transfers);
    lemma_first_unpaired(remaining_accounts, transfers, 0);
    let stop = first_unpaired(remaining_accounts, transfers, 0);
    if token_preflight(
        ctx.token_account.amount,
        ctx.sender.lamports,
        ctx.bank_account.fee,
        transfers,
    ) is Ok {
        lemma_moves_add_up(ctx.bank_account.fee, transfers, stop);
        lemma_sum_amounts_prefix(transfers, stop);
        if stop == transfers.len() {
            assert(transfers.take(stop) =~= transfers);
        }
    }
}

/// A batch of token transfers whose amounts add up without overflow to more than the token
/// account holds is refused with `InsufficientTokenBalance`, at the first step and before
/// anything is asked of either ledger.
pub proof fn lemma_token_insufficient_balance(
    ctx: BatchTransferToken,
    remaining_accounts: Seq<Pubkey>,
    transfers: Seq<TransferInfo>,
)
    requires
        0 < transfers.len() <= usize::MAX,
        sum_amounts(transfers) <= u64::MAX,
        ctx.token_account.amount < sum_amounts(transfers),
    ensures
        token_step(ctx, remaining_accounts, transfers, Progress::Start) == Err::<
            Step<TokenTransferEventView>,
            ErrorCode,
        >(ErrorCode::InsufficientTokenBalance),
        token_call(ctx, remaining_accounts, transfers).result == Err::<
            TokenTransferEventView,
            ErrorCode,
        >(ErrorCode::InsufficientTokenBalance),
        token_call(ctx, remaining_accounts, transfers).moves == Seq::<Move>::empty(),
{
    lemma_token_call(ctx, remaining_accounts, transfers);
}

/// A batch of token transfers that the token account covers, from a payer whose native
/// balance is less than the fee, is refused with `InsufficientFundsForFee` before anything
/// is asked of either ledger: the two balances are checked each by itself.
pub proof fn lemma_token_insufficient_funds_for_fee(
    ctx: BatchTransferToken,
    remaining_accounts: Seq<Pubkey>,
    transfers: Seq<TransferInfo>,
)
    requires
        0 < transfers.len() <= usize::MAX,
        sum_amounts(transfers) <= ctx.token_account.amount,
        ctx.sender.lamports < ctx.bank_account.fee,
    ensures
        token_call(ctx, remaining_accounts, transfers).result == Err::<
            TokenTransferEventView,
            ErrorCode,
        >(ErrorCode::InsufficientFundsForFee),
        token_call(ctx, remaining_accounts, transfers).moves == Seq::<Move>::empty(),
{
    lemma_token_call(ctx, remaining_accounts, transfers);
}

/// An empty batch of token transfers is refused with `EmptyTransfers` before anything is
/// asked of either ledger, whatever the bank record and the balances are.
pub proof fn lemma_token_empty_transfers(
    ctx: BatchTransferToken,
    remaining_accounts: Seq<Pubkey>,
    transfers: Seq<TransferInfo>,
)
    requires
        transfers.len() == 0,
    ensures
        token_call(ctx, remaining_accounts, transfers).result == Err::<
            TokenTransferEventView,
            ErrorCode,
        >(ErrorCode::EmptyTransfers),
        token_call(ctx, remaining_accounts, transfers).moves == Seq::<Move>::empty(),
{
    lemma_token_call(ctx, remaining_accounts, transfers);
}

/// A batch of token transfers that comes with fewer accounts than it has transfers fails
/// with `NotEnoughAccountKeys`, and neither ledger keeps any of its moves, where no rule
/// that is checked earlier refuses the call.
pub proof fn lemma_token_not_enough_account_keys(
    ctx: BatchTransferToken,
    remaining_accounts: Seq<Pubkey>,
    transfers: Seq<TransferInfo>,
)
    requires
        transfers.len() <= usize::MAX,
        remaining_accounts.len() < transfers.len(),
        token_preflight(
            ctx.token_account.amount,
            ctx.sender.lamports,
            ctx.bank_account.fee,
            transfers,
        ) is Ok,
        forall|i: int|
            0 <= i < remaining_accounts.len() ==> (#[trigger] remaining_accounts[i])
                == transfers[i].recipient,
    ensures
        token_call(ctx, remaining_accounts, transfers).result == Err::<
            TokenTransferEventView,
            ErrorCode,
        >(ErrorCode::NotEnoughAccountKeys),
        token_call(ctx, remaining_accounts, transfers).settled() == Seq::<Move>::empty(),
{
    lemma_token_call(ctx, remaining_accounts, transfers);
    lemma_first_unpaired_is(remaining_accounts, transfers, 0, remaining_accounts.len() as int);
}

/// A batch of token transfers succeeds exactly where the checks that precede every move
/// pass and the accounts pair with the transfers. It then has asked for the fee, where one
/// is due, and for every transfer once, in the order of the list.
pub proof fn lemma_token_success(
    ctx: BatchTransferToken,
    remaining_accounts: Seq<Pubkey>,
    transfers: Seq<TransferInfo>,
)
    requires
        transfers.len() <= usize::MAX,
    ensures
        token_call(ctx, remaining_accounts, transfers).result is Ok <==> token_preflight(
            ctx.token_account.amount,
            ctx.sender.lamports,
            ctx.bank_account.fee,
            transfers,
        ) is Ok && all_paired(remaining_accounts, transfers),
        token_call(ctx, remaining_accounts, transfers).result is Ok ==> {
            &&& token_call(ctx, remaining_accounts, transfers).moves == fee_moves(
                ctx.bank_account.fee,
            ) + pay_moves(transfers, 0, transfers.len() as int)
            &&& token_call(ctx, remaining_accounts, transfers).result == Ok::<
                TokenTransferEventView,
                ErrorCode,
            >(
                token_transfer_event(
                    ctx.sender.key,
                    ctx.token_account.key,
                    transfers,
                    sum_amounts(transfers) as u64,
                    ctx.bank_account.fee,
                ),
            )
            &&& ctx.token_account.amount >= sum_amounts(transfers)
            &&& ctx.sender.lamports >= ctx.bank_account.fee
        },
{
    lemma_token_call(ctx, remaining_accounts, transfers);
    lemma_first_unpaired(remaining_accounts, transfers, 0);
    if all_paired(remaining_accounts, transfers) {
        assert forall|i: int| 0 <= i < transfers.len() implies (#[trigger] paired(
            remaining_accounts,
            transfers,
            i,
        )) is Ok by {
            assert(remaining_accounts[i] == transfers[i].recipient);
        }
        lemma_first_unpaired_is(remaining_accounts, transfers, 0, transfers.len() as int);
    }
    if token_call(ctx, remaining_accounts, transfers).result is Ok {
        assert(first_unpaired(remaining_accounts, transfers, 0) == transfers.len());
        assert forall|i: int| 0 <= i < transfers.len() implies remaining_accounts[i] == (
        #[trigger] transfers[i]).recipient by {
            assert(paired(remaining_accounts, transfers, i) is Ok);
        }
        if transfers.len() > 0 {
            assert(paired(remaining_accounts, transfers, transfers.len() - 1) is Ok);
        }
    }
}

} // verus!
