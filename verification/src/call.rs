use crate::accounts::{BatchTransferSol, BatchTransferToken};
use crate::engine::{
    batch_step, paired, sol_event, sol_preflight, token_event, token_preflight, Progress, Step,
};
use crate::error::ErrorCode;
use crate::event::{SolTransferEventView, TokenTransferEventView};
use crate::pubkey::Pubkey;
use crate::transfer::{lemma_sum_amounts_step, sum_amounts, TransferInfo};
use vstd::prelude::*;

verus! {

/// One move that a call asks of the ledger.
pub enum Move {
    /// `amount` native units from the payer to the bank record.
    Fee { amount: u64 },
    /// `amount` units from the payer to the account at position `index`.
    Pay { index: int, amount: u64 },
}

/// A whole call: the moves that it asked of the ledger, in their order, and how it ended.
pub struct Outcome<V> {
    pub moves: Seq<Move>,
    pub result: Result<V, ErrorCode>,
}

impl<V> Outcome<V> {
    /// A call that ends with `result` and asks nothing more of the ledger.
    pub open spec fn ended(result: Result<V, ErrorCode>) -> Outcome<V> {
        Outcome { moves: Seq::empty(), result }
    }

    /// This call with `first` asked of the ledger before everything else.
    pub open spec fn after(self, first: Move) -> Outcome<V> {
        Outcome { moves: seq![first] + self.moves, result: self.result }
    }

    /// The moves that the ledger keeps. A call is all or nothing: the host discards every
    /// move of a call that ends in an error.
    pub open spec fn settled(self) -> Seq<Move> {
        if self.result is Ok {
            self.moves
        } else {
            Seq::empty()
        }
    }
}

/// A bound on the steps that a call at `progress` over `len` transfers still takes.
pub open spec fn steps_left(progress: Progress, len: nat) -> nat {
    match progress {
        Progress::Start => len + 2,
        Progress::Paying { paid, total_amount } => if paid <= len {
            (len - paid + 1) as nat
        } else {
            0
        },
    }
}

/// The call from `progress` on, where the ledger carries out every move that it is asked
/// for: the steps are taken one after the other, each from the `Progress` that the one
/// before handed out, until one is refused or the event is reached. It is defined for
/// lists that a vector can hold.
pub open spec fn batch_run<V>(
    checks: Result<u64, ErrorCode>,
    fee: u64,
    remaining_accounts: Seq<Pubkey>,
    transfers: Seq<TransferInfo>,
    event: spec_fn(u64) -> V,
    progress: Progress,
) -> Outcome<V>
    decreases steps_left(progress, transfers.len()),
    when transfers.len() <= usize::MAX
{
    match batch_step(checks, fee, remaining_accounts, transfers, event, progress) {
        Err(e) => Outcome::ended(Err(e)),
        Ok(Step::Finish { event: announced }) => Outcome::ended(Ok(announced)),
        Ok(Step::CollectFee { amount, next }) => batch_run(
            checks,
            fee,
            remaining_accounts,
            transfers,
            event,
            next,
        ).after(Move::Fee { amount }),
        Ok(Step::Transfer { index, amount, next }) => batch_run(
            checks,
            fee,
            remaining_accounts,
            transfers,
            event,
            next,
        ).after(Move::Pay { index: index as int, amount }),
    }
}

/// What `moves` take from the payer as fees, added up.
pub open spec fn fees_in(moves: Seq<Move>) -> nat
    decreases moves.len(),
{
    if moves.len() == 0 {
        0
    } else {
        fees_in(moves.drop_last()) + match moves.last() {
            Move::Fee { amount } => amount as nat,
            Move::Pay { index, amount } => 0,
        }
    }
}

/// What `moves` take from the payer for the recipients, added up.
pub open spec fn paid_in(moves: Seq<Move>) -> nat
    decreases moves.len(),
{
    if moves.len() == 0 {
        0
    } else {
        paid_in(moves.drop_last()) + match moves.last() {
            Move::Fee { amount } => 0,
            Move::Pay { index, amount } => amount as nat,
        }
    }
}

/// The moves of the fee: one where a fee is due, none where the fee is zero.
pub open spec fn fee_moves(fee: u64) -> Seq<Move> {
    if fee > 0 {
        seq![Move::Fee { amount: fee }]
    } else {
        Seq::empty()
    }
}

/// The moves of the transfers at the positions from `from` up to, not including, `to`.
pub open spec fn pay_moves(transfers: Seq<TransferInfo>, from: int, to: int) -> Seq<Move> {
    Seq::new(
        (to - from) as nat,
        |i: int| Move::Pay { index: from + i, amount: transfers[from + i].amount },
    )
}

/// The position of the first transfer, from `from` on, that has no account at its position
/// or another one than the recipient it names; the length of the list where there is none.
pub open spec fn first_unpaired(
    remaining_accounts: Seq<Pubkey>,
    transfers: Seq<TransferInfo>,
    from: int,
) -> int
    decreases transfers.len() - from,
{
    if from < 0 || from >= transfers.len() {
        transfers.len() as int
    } else if paired(remaining_accounts, transfers, from) is Err {
        from
    } else {
        first_unpaired(remaining_accounts, transfers, from + 1)
    }
}

/// How a call ends once its checks have passed with `total_amount`, where the ledger
/// carries out every move: with the error of the first transfer that is not paired with its
/// account, or, where every transfer is, with the event.
pub open spec fn payout_result<V>(
    remaining_accounts: Seq<Pubkey>,
    transfers: Seq<TransferInfo>,
    from: int,
    announced: V,
) -> Result<V, ErrorCode> {
    let stop = first_unpaired(remaining_accounts, transfers, from);
    if stop < transfers.len() {
        match paired(remaining_accounts, transfers, stop) {
            Err(e) => Err(e),
            Ok(amount) => Ok(announced),
        }
    } else {
        Ok(announced)
    }
}

/// A whole call said at once. Where the checks that precede every move fail, nothing is
/// asked of the ledger and their error is the result. Where they pass, the fee is asked for
/// where one is due, then every transfer in the order of the list up to the first that is
/// not paired with its account.
pub open spec fn batch_outcome<V>(
    checks: Result<u64, ErrorCode>,
    fee: u64,
    remaining_accounts: Seq<Pubkey>,
    transfers: Seq<TransferInfo>,
    event: spec_fn(u64) -> V,
) -> Outcome<V> {
    match checks {
        Err(e) => Outcome::ended(Err(e)),
        Ok(total_amount) => Outcome {
            moves: fee_moves(fee) + pay_moves(
                transfers,
                0,
                first_unpaired(remaining_accounts, transfers, 0),
            ),
            result: payout_result(remaining_accounts, transfers, 0, event(total_amount)),
        },
    }
}

/// A whole batch of native transfers, taken step by step from `Start`.
pub open spec fn sol_call(
    ctx: BatchTransferSol,
    remaining_accounts: Seq<Pubkey>,
    transfers: Seq<TransferInfo>,
) -> Outcome<SolTransferEventView> {
    batch_run(
        sol_preflight(ctx.sender.lamports, ctx.bank_account.fee, transfers),
        ctx.bank_account.fee,
        remaining_accounts,
        transfers,
        sol_event(ctx, transfers),
        Progress::Start,
    )
}

/// A whole batch of token transfers, taken step by step from `Start`.
pub open spec fn token_call(
    ctx: BatchTransferToken,
    remaining_accounts: Seq<Pubkey>,
    transfers: Seq<TransferInfo>,
) -> Outcome<TokenTransferEventView> {
    batch_run(
        token_preflight(
            ctx.token_account.amount,
            ctx.sender.lamports,
            ctx.bank_account.fee,
            transfers,
        ),
        ctx.bank_account.fee,
        remaining_accounts,
        transfers,
        token_event(ctx, transfers),
        Progress::Start,
    )
}

/// Whether the accounts that came with the request pair with the transfers: there are at
/// least as many, and each is the recipient that the transfer at its position names.
pub open spec fn all_paired(remaining_accounts: Seq<Pubkey>, transfers: Seq<TransferInfo>) -> bool {
    &&& remaining_accounts.len() >= transfers.len()
    &&& forall|i: int|
        0 <= i < transfers.len() ==> remaining_accounts[i] == (#[trigger] transfers[i]).recipient
}

/// `first_unpaired` is what its name says: it lies between `from` and the length of the
/// list, every transfer before it is paired, and the one at it, if there is one, is not.
pub proof fn lemma_first_unpaired(
    remaining_accounts: Seq<Pubkey>,
    transfers: Seq<TransferInfo>,
    from: int,
)
    requires
        0 <= from <= transfers.len(),
    ensures
        from <= first_unpaired(remaining_accounts, transfers, from) <= transfers.len(),
        forall|i: int|
            from <= i < first_unpaired(remaining_accounts, transfers, from) ==> (#[trigger] paired(
                remaining_accounts,
                transfers,
                i,
            )) is Ok,
        first_unpaired(remaining_accounts, transfers, from) < transfers.len() ==> paired(
            remaining_accounts,
            transfers,
            first_unpaired(remaining_accounts, transfers, from),
        ) is Err,
    decreases transfers.len() - from,
{
    if from < transfers.len() && paired(remaining_accounts, transfers, from) is Ok {
        lemma_first_unpaired(remaining_accounts, transfers, from + 1);
    }
}

/// Where every transfer before `stop` is paired and the one at `stop` is not, or `stop` is
/// the length of the list, `stop` is the first unpaired position.
pub proof fn lemma_first_unpaired_is(
    remaining_accounts: Seq<Pubkey>,
    transfers: Seq<TransferInfo>,
    from: int,
    stop: int,
)
    requires
        0 <= from <= stop <= transfers.len(),
        forall|i: int|
            from <= i < stop ==> (#[trigger] paired(remaining_accounts, transfers, i)) is Ok,
        stop < transfers.len() ==> paired(remaining_accounts, transfers, stop) is Err,
    ensures
        first_unpaired(remaining_accounts, transfers, from) == stop,
    decreases stop - from,
{
    if from < stop {
        assert(paired(remaining_accounts, transfers, from) is Ok);
        lemma_first_unpaired_is(remaining_accounts, transfers, from + 1, stop);
    }
}

/// The fee, where one is due, and the first `n` transfers take from the payer the fee and
/// the sum of those transfers, no more and no less.
pub proof fn lemma_moves_add_up(fee: u64, transfers: Seq<TransferInfo>, n: int)
    requires
        0 <= n <= transfers.len(),
    ensures
        fees_in(fee_moves(fee) + pay_moves(transfers, 0, n)) == fee,
        paid_in(fee_moves(fee) + pay_moves(transfers, 0, n)) == sum_amounts(transfers.take(n)),
    decreases n,
{
    let moves = fee_moves(fee) + pay_moves(transfers, 0, n);
    if n == 0 {
        assert(transfers.take(0) =~= Seq::<TransferInfo>::empty());
        assert(moves =~= fee_moves(fee));
        if fee > 0 {
            assert(moves.len() == 1);
            assert(moves.last() == Move::Fee { amount: fee });
            assert(moves.drop_last() =~= Seq::<Move>::empty());
            assert(fees_in(moves.drop_last()) == 0);
            assert(paid_in(moves.drop_last()) == 0);
        } else {
            assert(moves.len() == 0);
        }
    } else {
        lemma_moves_add_up(fee, transfers, n - 1);
        lemma_sum_amounts_step(transfers, n - 1);
        assert(moves.len() > 0);
        assert(moves.drop_last() =~= fee_moves(fee) + pay_moves(transfers, 0, n - 1));
        assert(moves.last() == Move::Pay { index: n - 1, amount: transfers[n - 1].amount });
    }
}

/// Step by step, the transfers of a call come to what `pay_moves` and `payout_result` say
/// at once.
pub proof fn lemma_batch_run_paying<V>(
    checks: Result<u64, ErrorCode>,
    fee: u64,
    remaining_accounts: Seq<Pubkey>,
    transfers: Seq<TransferInfo>,
    event: spec_fn(u64) -> V,
    paid: usize,
    total_amount: u64,
)
    requires
        transfers.len() <= usize::MAX,
        paid <= transfers.len(),
    ensures
        batch_run(
            checks,
            fee,
            remaining_accounts,
            transfers,
            event,
            Progress::Paying { paid, total_amount },
        ) == (Outcome {
            moves: pay_moves(
                transfers,
                paid as int,
                first_unpaired(remaining_accounts, transfers, paid as int),
            ),
            result: payout_result(remaining_accounts, transfers, paid as int, event(total_amount)),
        }),
    decreases transfers.len() - paid,
{
    let progress = Progress::Paying { paid, total_amount };
    let run = batch_run(checks, fee, remaining_accounts, transfers, event, progress);
    let stop = first_unpaired(remaining_accounts, transfers, paid as int);
    lemma_first_unpaired(remaining_accounts, transfers, paid as int);
    if paid < transfers.len() && paired(remaining_accounts, transfers, paid as int) is Ok {
        let next = (paid + 1) as usize;
        lemma_batch_run_paying(
            checks,
            fee,
            remaining_accounts,
            transfers,
            event,
            next,
            total_amount,
        );
        lemma_first_unpaired(remaining_accounts, transfers, next as int);
        assert(seq![
            Move::Pay { index: paid as int, amount: transfers[paid as int].amount },
        ] + pay_moves(transfers, next as int, stop) =~= pay_moves(transfers, paid as int, stop));
    } else {
        assert(run.moves =~= pay_moves(transfers, paid as int, stop));
    }
}

/// Taken step by step from `Start`, a call comes to what `batch_outcome` says at once.
pub proof fn lemma_batch_run<V>(
    checks: Result<u64, ErrorCode>,
    fee: u64,
    remaining_accounts: Seq<Pubkey>,
    transfers: Seq<TransferInfo>,
    event: spec_fn(u64) -> V,
)
    requires
        transfers.len() <= usize::MAX,
    ensures
        batch_run(checks, fee, remaining_accounts, transfers, event, Progress::Start)
            == batch_outcome(checks, fee, remaining_accounts, transfers, event),
{
    let run = batch_run(checks, fee, remaining_accounts, transfers, event, Progress::Start);
    let said = batch_outcome(checks, fee, remaining_accounts, transfers, event);
    match checks {
        Err(e) => {},
        Ok(total_amount) => {
            let paying = Progress::Paying { paid: 0, total_amount };
            lemma_batch_run_paying(
                checks,
                fee,
                remaining_accounts,
                transfers,
                event,
                0,
                total_amount,
            );
            let rest = batch_run(checks, fee, remaining_accounts, transfers, event, paying);
            if fee > 0 {
                assert(run == rest.after(Move::Fee { amount: fee }));
                assert(run.moves =~= said.moves);
            } else {
                lemma_first_unpaired(remaining_accounts, transfers, 0);
                if transfers.len() > 0 && paired(remaining_accounts, transfers, 0) is Ok {
                    lemma_batch_run_paying(
                        checks,
                        fee,
                        remaining_accounts,
                        transfers,
                        event,
                        1,
                        total_amount,
                    );
                }
                assert(run == rest);
                assert(run.moves =~= said.moves);
            }
        },
    }
}

} // verus!
