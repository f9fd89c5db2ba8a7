use ipfs_ks::charging::cost;
use ipfs_ks::TxOp;

#[test]
fn base_prices_on_a_record_never_accessed() {
    assert_eq!(cost(TxOp::Create, 0), 3);
    assert_eq!(cost(TxOp::Read, 0), 2);
    assert_eq!(cost(TxOp::Write, 0), 3);
}

#[test]
fn write_prices_of_the_first_three_accesses() {
    assert_eq!(cost(TxOp::Write, 0), 3);
    assert_eq!(cost(TxOp::Write, 1), 4);
    assert_eq!(cost(TxOp::Write, 2), 5);
}

#[test]
fn read_price_after_five_accesses_is_seven() {
    assert_eq!(cost(TxOp::Read, 5), 7);
}

#[test]
fn read_price_after_three_accesses_is_five() {
    assert_eq!(cost(TxOp::Read, 3), 5);
}

#[test]
fn price_is_rounded_down_not_to_nearest() {
    // 3 + 1.07 * 14 = 17.98
    assert_eq!(cost(TxOp::Write, 14), 17);
    // 3 + 1.07 * 15 = 19.05
    assert_eq!(cost(TxOp::Write, 15), 19);
    // 2 + 1.07 * 99 = 107.93
    assert_eq!(cost(TxOp::Read, 99), 107);
    // 3 + 1.07 * 100 = 110
    assert_eq!(cost(TxOp::Create, 100), 110);
}

#[test]
fn price_is_exact_for_large_counts() {
    // 1.07 * 1_000_000_007 = 1_070_000_007.49
    assert_eq!(cost(TxOp::Write, 1_000_000_007), 1_070_000_010);
    // 1.07 * (2^64 - 1) = 19_738_016_158_869_220_228.05
    assert_eq!(cost(TxOp::Read, u64::MAX), 19_738_016_158_869_220_230);
    assert_eq!(cost(TxOp::Write, u64::MAX), 19_738_016_158_869_220_231);
}

#[test]
fn price_never_falls_as_the_count_grows() {
    let mut last: u128 = 0;
    let mut accesses: u64 = 0;
    while accesses < 500 {
        let price = cost(TxOp::Read, accesses);
        assert!(price >= last);
        assert!(price >= 2);
        assert!(100 * price <= 200 + 107 * (accesses as u128));
        assert!(200 + 107 * (accesses as u128) < 100 * (price + 1));
        last = price;
        accesses += 1;
    }
}

#[test]
fn operation_kinds_compare_by_variant() {
    assert_eq!(TxOp::Create, TxOp::Create);
    assert_ne!(TxOp::Read, TxOp::Write);
}
