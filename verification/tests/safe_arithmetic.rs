use batch_transfer::{safe_add, safe_sum_transfer_info, ErrorCode, Pubkey, TransferInfo};

fn key(n: u8) -> Pubkey {
    Pubkey::new_from_array([n; 32])
}

fn to(n: u8, amount: u64) -> TransferInfo {
    TransferInfo { recipient: key(n), amount }
}

#[test]
fn test_safe_add() {
    let result = safe_add(10, 20);
    assert!(result.is_ok());
    assert_eq!(result.unwrap(), 30);

    let result = safe_add(u64::MAX, 1);
    assert!(result.is_err());
    assert_eq!(result.unwrap_err(), ErrorCode::ArithmeticOverflow);
}

#[test]
fn test_safe_sum_transfer_info() {
    let transfer1 = TransferInfo { recipient: key(1), amount: 100 };
    let transfer2 = TransferInfo { recipient: key(2), amount: 200 };
    let transfers = vec![transfer1.clone(), transfer2];

    let result = safe_sum_transfer_info(&transfers);
    assert!(result.is_ok());
    assert_eq!(result.unwrap(), 300);

    let transfer_overflow = TransferInfo { recipient: key(3), amount: u64::MAX };
    let transfers_overflow = vec![transfer1, transfer_overflow];

    let result = safe_sum_transfer_info(&transfers_overflow);
    assert!(result.is_err());
    assert_eq!(result.unwrap_err(), ErrorCode::ArithmeticOverflow);
}

#[test]
fn test_set_fee() {
    let result = safe_add(10, 20);
    assert!(result.is_ok());
    assert_eq!(result.unwrap(), 30);

    let result = safe_add(u64::MAX, 1);
    assert!(result.is_err());

    println!("done");
}

#[test]
fn safe_add_reaches_the_largest_value() {
    assert_eq!(safe_add(u64::MAX, 0), Ok(u64::MAX));
    assert_eq!(safe_add(0, u64::MAX), Ok(u64::MAX));
    assert_eq!(safe_add(u64::MAX - 1, 1), Ok(u64::MAX));
    assert_eq!(safe_add(0, 0), Ok(0));
}

#[test]
fn safe_add_refuses_every_sum_past_the_largest_value() {
    assert_eq!(safe_add(u64::MAX, u64::MAX), Err(ErrorCode::ArithmeticOverflow));
    assert_eq!(safe_add(1, u64::MAX), Err(ErrorCode::ArithmeticOverflow));
    assert_eq!(safe_add(1 << 63, 1 << 63), Err(ErrorCode::ArithmeticOverflow));
}

#[test]
fn sum_of_the_largest_value_and_one_overflows() {
    let transfers = vec![to(1, u64::MAX), to(2, 1)];
    assert_eq!(safe_sum_transfer_info(&transfers), Err(ErrorCode::ArithmeticOverflow));
    assert_eq!(safe_add(u64::MAX, 1), Err(ErrorCode::ArithmeticOverflow));
}

#[test]
fn sum_of_no_transfers_is_zero() {
    let transfers: Vec<TransferInfo> = Vec::new();
    assert_eq!(safe_sum_transfer_info(&transfers), Ok(0));
}

#[test]
fn sum_overflows_wherever_the_large_amount_stands() {
    assert_eq!(
        safe_sum_transfer_info(&vec![to(1, 1), to(2, u64::MAX)]),
        Err(ErrorCode::ArithmeticOverflow)
    );
    assert_eq!(
        safe_sum_transfer_info(&vec![to(1, u64::MAX - 5), to(2, 2), to(3, 3), to(4, 1)]),
        Err(ErrorCode::ArithmeticOverflow)
    );
    assert_eq!(
        safe_sum_transfer_info(&vec![to(1, u64::MAX - 5), to(2, 2), to(3, 3)]),
        Ok(u64::MAX)
    );
}

#[test]
fn sum_counts_a_recipient_that_stands_twice_twice() {
    assert_eq!(safe_sum_transfer_info(&vec![to(7, 40), to(7, 2), to(7, 0)]), Ok(42));
}

#[test]
fn keys_are_equal_byte_for_byte() {
    let mut bytes = [9u8; 32];
    assert_eq!(Pubkey::new_from_array(bytes), key(9));
    bytes[31] = 8;
    assert_ne!(Pubkey::new_from_array(bytes), key(9));
    assert_eq!(Pubkey::new_from_array(bytes).to_bytes(), bytes);
    assert_eq!(Pubkey::default(), key(0));
}
