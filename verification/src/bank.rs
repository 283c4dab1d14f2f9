use crate::accounts::{Initialize, SetFee};
use crate::error::ErrorCode;
use crate::pubkey::Pubkey;
use vstd::prelude::*;

verus! {

/// The bank record, one per deployment: who may change the fee, the flat fee that every
/// batch pays in native units, and whether the record has been initialised.
#[derive(Clone, Copy, Debug, PartialEq, Eq)]
pub struct BankAccount {
    pub admin: Pubkey,
    pub fee: u64,
    pub is_initialized: bool,
}

/// The length in bytes of the record as the ledger stores it, after the host's own header:
/// thirty-two for the administrator, eight for the fee, one for the flag.
pub const BANK_ACCOUNT_LEN: usize = 32 + 8 + 1;

impl Default for BankAccount {
    /// The record before it is initialised: nobody is named, the fee is zero.
    fn default() -> (bank: BankAccount)
        ensures
            bank.admin.is_zero(),
            bank.fee == 0,
            !bank.is_initialized,
    {
        BankAccount { admin: Pubkey::default(), fee: 0, is_initialized: false }
    }
}

/// The answer to `deployer` asking that `bank` be initialised with `admin` as its
/// administrator: a record is initialised once, and only by the one it names.
pub open spec fn initialize_verdict(bank: BankAccount, deployer: Pubkey, admin: Pubkey) -> Result<
    (),
    ErrorCode,
> {
    if bank.is_initialized {
        Err(ErrorCode::AlreadyInitialized)
    } else if deployer != admin {
        Err(ErrorCode::Unauthorized)
    } else {
        Ok(())
    }
}

/// The record after `deployer` asked that `bank` be initialised with `admin`: a refused
/// request leaves it as it was.
pub open spec fn after_initialize(bank: BankAccount, deployer: Pubkey, admin: Pubkey) -> BankAccount {
    if initialize_verdict(bank, deployer, admin) is Ok {
        BankAccount { admin, fee: 0, is_initialized: true }
    } else {
        bank
    }
}

/// The answer to `caller` asking for a new fee: only the administrator may set it.
pub open spec fn set_fee_verdict(bank: BankAccount, caller: Pubkey) -> Result<(), ErrorCode> {
    if caller == bank.admin {
        Ok(())
    } else {
        Err(ErrorCode::Unauthorized)
    }
}

/// The record after `caller` asked for the fee `fee`: a refused request leaves it as it was.
pub open spec fn after_set_fee(bank: BankAccount, caller: Pubkey, fee: u64) -> BankAccount {
    if set_fee_verdict(bank, caller) is Ok {
        BankAccount { fee, ..bank }
    } else {
        bank
    }
}

/// Initialises the bank record of `ctx` with `admin` as its administrator and a fee of
/// zero. The deployer must name itself, and the record must not have been initialised.
pub fn initialize(ctx: &mut Initialize, admin: Pubkey) -> (r: Result<(), ErrorCode>)
    ensures
        r == initialize_verdict(old(ctx).bank_account, old(ctx).deployer.key, admin),
        final(ctx).bank_account == after_initialize(
            old(ctx).bank_account,
            old(ctx).deployer.key,
            admin,
        ),
        final(ctx).deployer == old(ctx).deployer,
        old(ctx).bank_account.is_initialized ==> r == Err::<(), ErrorCode>(
            ErrorCode::AlreadyInitialized,
        ) && *final(ctx) == *old(ctx),
        r is Ok ==> final(ctx).bank_account.is_initialized && final(ctx).bank_account.admin
            == admin && final(ctx).bank_account.fee == 0,
        r is Err ==> *final(ctx) == *old(ctx),
{
    if ctx.bank_account.is_initialized {
        return Err(ErrorCode::AlreadyInitialized);
    }
    if ctx.deployer.key != admin {
        return Err(ErrorCode::Unauthorized);
    }
    ctx.bank_account.admin = admin;
    ctx.bank_account.fee = 0;
    ctx.bank_account.is_initialized = true;
    Ok(())
}

/// Sets the fee of the bank record of `ctx` to `fee`, any value, where the signer is the
/// record's administrator.
pub fn set_fee(ctx: &mut SetFee, fee: u64) -> (r: Result<(), ErrorCode>)
    ensures
        r == set_fee_verdict(old(ctx).bank_account, old(ctx).admin.key),
        final(ctx).bank_account == after_set_fee(old(ctx).bank_account, old(ctx).admin.key, fee),
        final(ctx).admin == old(ctx).admin,
        old(ctx).admin.key != old(ctx).bank_account.admin ==> r == Err::<(), ErrorCode>(
            ErrorCode::Unauthorized,
        ) && *final(ctx) == *old(ctx),
        r is Ok ==> final(ctx).bank_account.fee == fee,
        final(ctx).bank_account.admin == old(ctx).bank_account.admin,
        final(ctx).bank_account.is_initialized == old(ctx).bank_account.is_initialized,
{
    if ctx.admin.key != ctx.bank_account.admin {
        return Err(ErrorCode::Unauthorized);
    }
    ctx.bank_account.fee = fee;
    Ok(())
}

/// A record is initialised exactly once. After a first request has succeeded, every further
/// request is refused with `AlreadyInitialized`, whoever makes it and whomever it names, and
/// the record keeps its administrator and its fee.
pub proof fn lemma_initialize_once(
    bank: BankAccount,
    deployer: Pubkey,
    admin: Pubkey,
    second_deployer: Pubkey,
    second_admin: Pubkey,
)
    requires
        initialize_verdict(bank, deployer, admin) is Ok,
    ensures
        initialize_verdict(after_initialize(bank, deployer, admin), second_deployer, second_admin)
            == Err::<(), ErrorCode>(ErrorCode::AlreadyInitialized),
        after_initialize(after_initialize(bank, deployer, admin), second_deployer, second_admin)
            == after_initialize(bank, deployer, admin),
{
}

/// A request for a new fee from anyone but the administrator is refused with `Unauthorized`
/// and leaves the record, its fee included, as it was.
pub proof fn lemma_set_fee_needs_admin(bank: BankAccount, caller: Pubkey, fee: u64)
    requires
        caller != bank.admin,
    ensures
        set_fee_verdict(bank, caller) == Err::<(), ErrorCode>(ErrorCode::Unauthorized),
        after_set_fee(bank, caller, fee) == bank,
{
}

/// Once a record is initialised it stays so and its administrator is fixed: no request,
/// granted or refused, changes either; and the fee changes only at the administrator's word.
pub proof fn lemma_admin_is_fixed(
    bank: BankAccount,
    caller: Pubkey,
    named: Pubkey,
    fee: u64,
)
    requires
        bank.is_initialized,
    ensures
        after_initialize(bank, caller, named) == bank,
        after_set_fee(bank, caller, fee).is_initialized,
        after_set_fee(bank, caller, fee).admin == bank.admin,
        after_set_fee(bank, caller, fee).fee != bank.fee ==> caller == bank.admin,
{
}

} // verus!
