use batch_transfer::{
    initialize, set_fee, BankAccount, ErrorCode, Initialize, Pubkey, SetFee, Signer,
};

const LAMPORTS_PER_SOL: u64 = 1_000_000_000;

fn key(n: u8) -> Pubkey {
    Pubkey::new_from_array([n; 32])
}

fn signer(n: u8) -> Signer {
    Signer { key: key(n), lamports: 100 * LAMPORTS_PER_SOL }
}

#[test]
fn initialize_basic_test_test_initialize() {
    let admin = signer(1);

    let bank = BankAccount { admin: Pubkey::default(), fee: 0, is_initialized: false };
    assert!(!bank.is_initialized);

    let mut ctx = Initialize { bank_account: bank, deployer: admin };
    assert_eq!(initialize(&mut ctx, admin.key), Ok(()));
    let bank = ctx.bank_account;

    assert_eq!(bank.admin, admin.key);
    assert_eq!(bank.fee, 0);
    assert!(bank.is_initialized);
}

#[test]
fn initialize_test_test_initialize() {
    let admin = signer(1);
    let mut ctx = Initialize { bank_account: BankAccount::default(), deployer: admin };
    initialize(&mut ctx, admin.key).unwrap();
    assert_eq!(ctx.bank_account, BankAccount { admin: admin.key, fee: 0, is_initialized: true });
}

#[test]
fn test_initialize_duplicate() {
    let admin = signer(1);

    let bank = BankAccount { admin: Pubkey::default(), fee: 0, is_initialized: false };

    let mut ctx = Initialize { bank_account: bank, deployer: admin };
    let first = initialize(&mut ctx, admin.key);
    assert!(first.is_ok());
    let bank = ctx.bank_account;

    assert!(bank.is_initialized);
    assert_eq!(bank.admin, admin.key);

    let mut ctx = Initialize { bank_account: bank, deployer: admin };
    let second_init_error = initialize(&mut ctx, admin.key).err();

    assert!(second_init_error.is_some());
    if let Some(error) = second_init_error {
        assert!(matches!(error, ErrorCode::AlreadyInitialized));
    }
    assert_eq!(ctx.bank_account, bank);
}

#[test]
fn test_initialize_unauthorized() {
    let admin = signer(1);
    let unauthorized_user = signer(2);

    let bank = BankAccount { admin: Pubkey::default(), fee: 0, is_initialized: false };

    let mut ctx = Initialize { bank_account: bank, deployer: unauthorized_user };
    let init_error = initialize(&mut ctx, admin.key).err();
    let bank = ctx.bank_account;

    assert!(init_error.is_some());
    if let Some(error) = init_error {
        assert!(matches!(error, ErrorCode::Unauthorized));
    }

    assert!(!bank.is_initialized);
    assert_eq!(bank.admin, Pubkey::default());
}

#[test]
fn test_set_fee_unauthorized() {
    let admin = signer(1);
    let unauthorized_user = signer(2);

    let bank_account_data = BankAccount { admin: admin.key, fee: 0, is_initialized: true };

    let admin_has_authority = admin.key == bank_account_data.admin;
    assert!(admin_has_authority);

    let unauthorized_has_authority = unauthorized_user.key == bank_account_data.admin;
    assert!(!unauthorized_has_authority);

    let new_fee = 1000;
    let mut ctx = SetFee { bank_account: bank_account_data, admin };
    assert_eq!(set_fee(&mut ctx, new_fee), Ok(()));
    let bank_account_data = ctx.bank_account;
    assert_eq!(bank_account_data.fee, new_fee);

    let test_fee = 2000;
    let mut ctx = SetFee { bank_account: bank_account_data, admin: unauthorized_user };
    assert_eq!(set_fee(&mut ctx, test_fee), Err(ErrorCode::Unauthorized));
    let bank_account_data = ctx.bank_account;

    assert_eq!(bank_account_data.fee, new_fee);
}

#[test]
fn test_unauthorized_set_fee() {
    let admin = signer(1);
    let sender = signer(2);

    let mut ctx = Initialize { bank_account: BankAccount::default(), deployer: admin };
    initialize(&mut ctx, admin.key).unwrap();

    let fee = LAMPORTS_PER_SOL / 100;
    let mut ctx = SetFee { bank_account: ctx.bank_account, admin: sender };
    let result = set_fee(&mut ctx, fee);
    assert!(result.is_err());
    assert_eq!(ctx.bank_account.fee, 0);
}

#[test]
fn a_record_starts_out_blank() {
    let bank = BankAccount::default();
    assert_eq!(bank.admin.to_bytes(), [0u8; 32]);
    assert_eq!(bank.fee, 0);
    assert!(!bank.is_initialized);
}

#[test]
fn initialize_sets_the_fee_to_zero_whatever_it_was() {
    let admin = signer(1);
    let bank = BankAccount { admin: key(9), fee: 77, is_initialized: false };
    let mut ctx = Initialize { bank_account: bank, deployer: admin };
    assert_eq!(initialize(&mut ctx, admin.key), Ok(()));
    assert_eq!(
        ctx.bank_account,
        BankAccount { admin: admin.key, fee: 0, is_initialized: true }
    );
    assert_eq!(ctx.deployer, admin);
}

#[test]
fn a_second_initialize_fails_for_every_caller_and_changes_nothing() {
    let admin = signer(1);
    let mut ctx = Initialize { bank_account: BankAccount::default(), deployer: admin };
    initialize(&mut ctx, admin.key).unwrap();
    let mut fee_ctx = SetFee { bank_account: ctx.bank_account, admin };
    set_fee(&mut fee_ctx, 4_000).unwrap();
    let bank = fee_ctx.bank_account;

    for (deployer, named) in [(1u8, 1u8), (2, 2), (2, 1), (1, 2), (0, 0)] {
        let mut again = Initialize { bank_account: bank, deployer: signer(deployer) };
        assert_eq!(initialize(&mut again, key(named)), Err(ErrorCode::AlreadyInitialized));
        assert_eq!(again.bank_account.admin, admin.key);
        assert_eq!(again.bank_account.fee, 4_000);
        assert_eq!(again.bank_account, bank);
    }
}

#[test]
fn an_initialised_record_is_checked_before_the_caller() {
    let bank = BankAccount { admin: key(1), fee: 5, is_initialized: true };
    let mut ctx = Initialize { bank_account: bank, deployer: signer(2) };
    assert_eq!(initialize(&mut ctx, key(3)), Err(ErrorCode::AlreadyInitialized));
}

#[test]
fn set_fee_from_anyone_else_fails_and_keeps_the_fee() {
    let bank = BankAccount { admin: key(1), fee: 250, is_initialized: true };
    for other in [0u8, 2, 3, 255] {
        let mut ctx = SetFee { bank_account: bank, admin: signer(other) };
        assert_eq!(set_fee(&mut ctx, 999), Err(ErrorCode::Unauthorized));
        assert_eq!(ctx.bank_account.fee, 250);
        assert_eq!(ctx.bank_account, bank);
    }
}

#[test]
fn the_admin_may_set_any_fee() {
    let admin = signer(1);
    let bank = BankAccount { admin: admin.key, fee: 250, is_initialized: true };
    for fee in [0u64, 1, 10_000_000, u64::MAX] {
        let mut ctx = SetFee { bank_account: bank, admin };
        assert_eq!(set_fee(&mut ctx, fee), Ok(()));
        assert_eq!(ctx.bank_account.fee, fee);
        assert_eq!(ctx.bank_account.admin, admin.key);
        assert!(ctx.bank_account.is_initialized);
    }
}

#[test]
fn set_fee_compares_the_whole_key() {
    let mut bytes = [1u8; 32];
    bytes[17] = 2;
    let near = Signer { key: Pubkey::new_from_array(bytes), lamports: 0 };
    let bank = BankAccount { admin: key(1), fee: 3, is_initialized: true };
    let mut ctx = SetFee { bank_account: bank, admin: near };
    assert_eq!(set_fee(&mut ctx, 4), Err(ErrorCode::Unauthorized));
    assert_eq!(ctx.bank_account.fee, 3);
}
