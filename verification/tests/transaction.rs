use trade_math::TransactionType;

#[test]
fn sides_equal_themselves() {
    assert_eq!(TransactionType::Buy, TransactionType::Buy);
    assert_eq!(TransactionType::Sell, TransactionType::Sell);
}

#[test]
fn buy_differs_from_sell() {
    assert_ne!(TransactionType::Buy, TransactionType::Sell);
    assert!(TransactionType::Sell != TransactionType::Buy);
}

#[test]
fn sides_print_their_names() {
    assert_eq!(format!("{:?}", TransactionType::Buy), "Buy");
    assert_eq!(format!("{:?}", TransactionType::Sell), "Sell");
}

#[test]
fn a_side_is_passed_by_value_and_stays_usable() {
    let side: TransactionType = TransactionType::Sell;
    let copy: TransactionType = side;
    assert_eq!(side, copy);
    assert!(matches!(copy, TransactionType::Sell));
}
