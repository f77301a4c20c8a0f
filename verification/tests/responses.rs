use lending::{deposit_collateral, instantiate, Attribute, Decimal, InstantiateMsg, Payout, Response};

#[test]
fn new_response_is_empty() {
    let response = Response::new();
    assert_eq!(response.payouts, vec![]);
    assert_eq!(response.attributes, vec![]);
}

#[test]
fn attributes_and_payouts_keep_their_order() {
    let payout = Payout { to: "bob".to_string(), amount: 3, currency: "usdc".to_string() };
    let other = Payout { to: "carol".to_string(), amount: 4, currency: "usdc".to_string() };
    let response = Response::new()
        .add_attribute("first", "1".to_string())
        .add_payout(payout.clone())
        .add_attribute("second", "2".to_string())
        .add_payout(other.clone())
        .add_attribute("first", "3".to_string());
    assert_eq!(response.payouts, vec![payout, other]);
    assert_eq!(
        response.attributes,
        vec![
            Attribute { key: "first".to_string(), value: "1".to_string() },
            Attribute { key: "second".to_string(), value: "2".to_string() },
            Attribute { key: "first".to_string(), value: "3".to_string() },
        ]
    );
}

#[test]
fn amounts_are_written_in_decimal() {
    let msg = InstantiateMsg { owner: "owner".to_string(), base_interest_rate: Decimal::percent(3) };
    let (mut ledger, _) = instantiate(msg);
    let amounts: [(u128, &str); 6] = [
        (1, "1"),
        (9, "9"),
        (10, "10"),
        (1_000_000, "1000000"),
        (18_446_744_073_709_551_616, "18446744073709551616"),
        (u128::MAX, "340282366920938463463374607431768211455"),
    ];
    for (amount, text) in amounts {
        let response = deposit_collateral(&mut ledger, "alice", "A".to_string(), amount).unwrap();
        assert_eq!(response.attributes[1].key, "amount");
        assert_eq!(response.attributes[1].value, text);
    }
}
