use crate::pubkey::Pubkey;
use crate::transfer::{amounts_of, recipients_of, TransferInfo};
use vstd::prelude::*;

verus! {

/// What a finished batch of native transfers announces.
#[derive(Clone, Debug, PartialEq, Eq)]
pub struct SolTransferEvent {
    pub from: Pubkey,
    pub recipients: Vec<Pubkey>,
    pub amounts: Vec<u64>,
    pub total_amount: u64,
    pub fee: u64,
}

/// A `SolTransferEvent` with its lists as sequences.
pub struct SolTransferEventView {
    pub from: Pubkey,
    pub recipients: Seq<Pubkey>,
    pub amounts: Seq<u64>,
    pub total_amount: u64,
    pub fee: u64,
}

impl View for SolTransferEvent {
    type V = SolTransferEventView;

    open spec fn view(&self) -> SolTransferEventView {
        SolTransferEventView {
            from: self.from,
            recipients: self.recipients@,
            amounts: self.amounts@,
            total_amount: self.total_amount,
            fee: self.fee,
        }
    }
}

/// What a finished batch of token transfers announces.
#[derive(Clone, Debug, PartialEq, Eq)]
pub struct TokenTransferEvent {
    pub from: Pubkey,
    pub token_account: Pubkey,
    pub recipients: Vec<Pubkey>,
    pub amounts: Vec<u64>,
    pub total_amount: u64,
    pub fee: u64,
}

/// A `TokenTransferEvent` with its lists as sequences.
pub struct TokenTransferEventView {
    pub from: Pubkey,
    pub token_account: Pubkey,
    pub recipients: Seq<Pubkey>,
    pub amounts: Seq<u64>,
    pub total_amount: u64,
    pub fee: u64,
}

impl View for TokenTransferEvent {
    type V = TokenTransferEventView;

    open spec fn view(&self) -> TokenTransferEventView {
        TokenTransferEventView {
            from: self.from,
            token_account: self.token_account,
            recipients: self.recipients@,
            amounts: self.amounts@,
            total_amount: self.total_amount,
            fee: self.fee,
        }
    }
}

/// The event of a batch of native transfers from `from`: every recipient and every amount
/// of `transfers` in the order of the list, with the total and the fee that were charged.
pub open spec fn sol_transfer_event(
    from: Pubkey,
    transfers: Seq<TransferInfo>,
    total_amount: u64,
    fee: u64,
) -> SolTransferEventView {
    SolTransferEventView {
        from,
        recipients: recipients_of(transfers),
        amounts: amounts_of(transfers),
        total_amount,
        fee,
    }
}

/// The event of a batch of token transfers from `from`, drawn on `token_account`.
pub open spec fn token_transfer_event(
    from: Pubkey,
    token_account: Pubkey,
    transfers: Seq<TransferInfo>,
    total_amount: u64,
    fee: u64,
) -> TokenTransferEventView {
    TokenTransferEventView {
        from,
        token_account,
        recipients: recipients_of(transfers),
        amounts: amounts_of(transfers),
        total_amount,
        fee,
    }
}

/// The recipients of a batch, in the order of the list.
pub fn recipients(transfers: &Vec<TransferInfo>) -> (keys: Vec<Pubkey>)
    ensures
        keys@ == recipients_of(transfers@),
{
    let mut keys: Vec<Pubkey> = Vec::new();
    let mut i: usize = 0;
    while i < transfers.len()
        invariant
            i <= transfers.len(),
            keys@ == recipients_of(transfers@.take(i as int)),
        decreases transfers.len() - i,
    {
        keys.push(transfers[i].recipient);
        i += 1;
        assert(keys@ =~= recipients_of(transfers@.take(i as int)));
    }
    assert(transfers@.take(i as int) =~= transfers@);
    keys
}

/// The amounts of a batch, in the order of the list.
pub fn amounts(transfers: &Vec<TransferInfo>) -> (values: Vec<u64>)
    ensures
        values@ == amounts_of(transfers@),
{
    let mut values: Vec<u64> = Vec::new();
    let mut i: usize = 0;
    while i < transfers.len()
        invariant
            i <= transfers.len(),
            values@ == amounts_of(transfers@.take(i as int)),
        decreases transfers.len() - i,
    {
        values.push(transfers[i].amount);
        i += 1;
        assert(values@ =~= amounts_of(transfers@.take(i as int)));
    }
    assert(transfers@.take(i as int) =~= transfers@);
    values
}

} // verus!
