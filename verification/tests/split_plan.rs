use splitter::disburse::Disburser;
use splitter::split::{compute_split, ErrorCode};

#[test]
fn split_1000_over_3_matches_the_literal_formula() {
    let plan = compute_split(1000, 3);
    // remaining = ((1000 * 95 * 1000) / 100) / 1000 = 950
    // per_recipient = (950 * 1000 / 2) / 1000 = 475
    // first = 1000 - 475 * 2 = 50
    assert_eq!(plan.per_recipient_amount, 475);
    assert_eq!(plan.first_amount, 50);
    assert_eq!(plan.recipient_count, 3);
}

#[test]
fn split_7_over_4_matches_the_literal_formula() {
    let plan = compute_split(7, 4);
    // remaining = ((7 * 95 * 1000) / 100) / 1000 = (665000 / 100) / 1000 = 6
    // per_recipient = (6 * 1000 / 3) / 1000 = 2
    // first = 7 - 2 * 3 = 1
    assert_eq!(plan.per_recipient_amount, 2);
    assert_eq!(plan.first_amount, 1);
    assert_eq!(plan.recipient_count, 4);
}

#[test]
fn split_conserves_the_total_amount() {
    let cases: [(u64, u64); 6] = [
        (1000, 3),
        (7, 4),
        (0, 2),
        (1, 2),
        (999_999_999, 17),
        (u64::MAX / 95_000, 2),
    ];
    for (amount, recipients) in cases {
        let plan = compute_split(amount, recipients);
        let total = plan.first_amount + plan.per_recipient_amount * (recipients - 1);
        assert_eq!(total, amount);
    }
}

#[test]
fn split_is_deterministic() {
    let a = compute_split(123_456_789, 11);
    let b = compute_split(123_456_789, 11);
    assert_eq!(a, b);
}

#[test]
fn fewer_than_two_recipients_is_rejected() {
    assert_eq!(
        Disburser::new(1000, 0).err(),
        Some(ErrorCode::InsufficientRecipients)
    );
    assert_eq!(
        Disburser::new(1000, 1).err(),
        Some(ErrorCode::InsufficientRecipients)
    );
    assert!(Disburser::new(1000, 2).is_ok());
}

#[test]
fn scaled_amount_over_64_bits_is_rejected_not_wrapped() {
    assert_eq!(Disburser::new(u64::MAX, 3).err(), Some(ErrorCode::Overflow));
    let largest_ok = u64::MAX / (95 * 1000);
    assert!(Disburser::new(largest_ok, 3).is_ok());
    assert_eq!(
        Disburser::new(largest_ok + 1, 3).err(),
        Some(ErrorCode::Overflow)
    );
}
