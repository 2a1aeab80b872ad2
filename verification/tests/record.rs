use unbalanced_transfer_poc::{Prefix, PREFIX_LEN};

#[test]
fn record_is_bump_then_amount_least_significant_byte_first() {
    let record = Prefix { bump: 254, amount: 0x0102_0304_0506_0708 };
    assert_eq!(record.to_bytes(), vec![254u8, 8, 7, 6, 5, 4, 3, 2, 1]);
    assert_eq!(Prefix { bump: 0, amount: 1 }.to_bytes(), vec![0u8, 1, 0, 0, 0, 0, 0, 0, 0]);
    assert_eq!(PREFIX_LEN, 9);
}

#[test]
fn record_reads_back() {
    let records = [
        Prefix { bump: 0, amount: 0 },
        Prefix { bump: 255, amount: u64::MAX },
        Prefix { bump: 7, amount: 1_200 },
    ];
    for record in records {
        assert_eq!(Prefix::from_bytes(&record.to_bytes()), Some(record));
    }
}

#[test]
fn record_from_given_bytes() {
    assert_eq!(
        Prefix::from_bytes(&[3, 0xb0, 0x04, 0, 0, 0, 0, 0, 0]),
        Some(Prefix { bump: 3, amount: 1_200 })
    );
    assert_eq!(
        Prefix::from_bytes(&[9, 0, 0, 0, 0, 0, 0, 0, 0x80]),
        Some(Prefix { bump: 9, amount: 1u64 << 63 })
    );
}

#[test]
fn record_of_another_length_is_refused() {
    assert_eq!(Prefix::from_bytes(&[]), None);
    assert_eq!(Prefix::from_bytes(&[1, 2, 3, 4, 5, 6, 7, 8]), None);
    assert_eq!(Prefix::from_bytes(&[1, 2, 3, 4, 5, 6, 7, 8, 9, 10]), None);
}
