use crate::bank::BankAccount;
use crate::pubkey::Pubkey;
use vstd::prelude::*;

verus! {

/// An account that signed the request: its identity, and the native balance that it held
/// when the request arrived.
#[derive(Clone, Copy, Debug, PartialEq, Eq)]
pub struct Signer {
    pub key: Pubkey,
    pub lamports: u64,
}

/// A token-holding account: its identity, and the token balance that it held when the
/// request arrived.
#[derive(Clone, Copy, Debug, PartialEq, Eq)]
pub struct TokenAccount {
    pub key: Pubkey,
    pub amount: u64,
}

/// The accounts of a request to initialise the bank record.
#[derive(Clone, Copy, Debug, PartialEq, Eq)]
pub struct Initialize {
    pub bank_account: BankAccount,
    pub deployer: Signer,
}

/// The accounts of a request to change the fee.
#[derive(Clone, Copy, Debug, PartialEq, Eq)]
pub struct SetFee {
    pub bank_account: BankAccount,
    pub admin: Signer,
}

/// The accounts of a batch of native transfers: the payer and the bank record.
#[derive(Clone, Copy, Debug, PartialEq, Eq)]
pub struct BatchTransferSol {
    pub sender: Signer,
    pub bank_account: BankAccount,
}

/// The accounts of a batch of token transfers: the payer, the bank record, and the
/// token-holding account that every transfer of the batch draws on.
#[derive(Clone, Copy, Debug, PartialEq, Eq)]
pub struct BatchTransferToken {
    pub sender: Signer,
    pub bank_account: BankAccount,
    pub token_account: TokenAccount,
}

} // verus!
