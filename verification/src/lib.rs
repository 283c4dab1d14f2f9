//! A batch-payment engine with a fee. One request moves a native balance, or a token
//! balance, from one payer to many recipients, and pays a flat fee into the bank record.
//!
//! The library decides; the ledger moves. `initialize` and `set_fee` keep the bank record.
//! `batch_transfer_sol` and `batch_transfer_token` take a batch one step at a time: each
//! call checks what is due next and hands out one move for the ledger to carry out, or the
//! event that ends the batch. The module `call` says what the steps of a whole batch come
//! to, and `laws` proves what holds of every batch.

pub mod accounts;
pub mod arithmetic;
pub mod bank;
pub mod call;
pub mod engine;
pub mod error;
pub mod event;
pub mod laws;
pub mod pubkey;
pub mod transfer;

pub use crate::accounts::{
    BatchTransferSol, BatchTransferToken, Initialize, SetFee, Signer, TokenAccount,
};
pub use crate::arithmetic::{safe_add, safe_sum_transfer_info};
pub use crate::bank::{initialize, set_fee, BankAccount, BANK_ACCOUNT_LEN};
pub use crate::engine::{batch_transfer_sol, batch_transfer_token, Progress, Step};
pub use crate::error::ErrorCode;
pub use crate::event::{SolTransferEvent, TokenTransferEvent};
pub use crate::pubkey::Pubkey;
pub use crate::transfer::TransferInfo;
