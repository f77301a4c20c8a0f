use lending::{
    borrow, deposit_collateral, execute, instantiate, repay_loan, update_interest_rate,
    withdraw_collateral, Attribute, Collateral, ContractError, Decimal, ExecuteMsg,
    InstantiateMsg, Ledger, LoanInfo, Payout, Response,
};

fn new_ledger() -> Ledger {
    let msg = InstantiateMsg { owner: "owner".to_string(), base_interest_rate: Decimal::percent(3) };
    instantiate(msg).0
}

fn attr(key: &str, value: &str) -> Attribute {
    Attribute { key: key.to_string(), value: value.to_string() }
}

#[test]
fn instantiate_stores_the_configuration() {
    let msg = InstantiateMsg { owner: "owner".to_string(), base_interest_rate: Decimal::percent(3) };
    let (ledger, response) = instantiate(msg);
    assert_eq!(ledger.load_config().owner, "owner");
    assert_eq!(ledger.load_config().base_interest_rate, Decimal::raw(30_000_000_000_000_000));
    assert_eq!(
        response,
        Response { payouts: vec![], attributes: vec![attr("method", "instantiate")] }
    );
    assert_eq!(ledger.load_collateral("owner"), Err(ContractError::NotFound));
    assert_eq!(ledger.load_loan("owner"), Err(ContractError::NotFound));
}

#[test]
fn deposit_of_zero_is_rejected() {
    let mut ledger = new_ledger();
    let result = deposit_collateral(&mut ledger, "alice", "A".to_string(), 0);
    assert_eq!(result, Err(ContractError::InvalidAmount));
    assert_eq!(ledger.load_collateral("alice"), Err(ContractError::NotFound));
}

#[test]
fn deposit_of_zero_leaves_an_earlier_record() {
    let mut ledger = new_ledger();
    deposit_collateral(&mut ledger, "alice", "A".to_string(), 7).unwrap();
    let result = deposit_collateral(&mut ledger, "alice", "B".to_string(), 0);
    assert_eq!(result, Err(ContractError::InvalidAmount));
    assert_eq!(
        ledger.load_collateral("alice"),
        Ok(Collateral { token_address: "A".to_string(), amount: 7 })
    );
}

#[test]
fn deposit_creates_the_record() {
    let mut ledger = new_ledger();
    let response = deposit_collateral(&mut ledger, "alice", "A".to_string(), 100).unwrap();
    assert_eq!(
        response,
        Response {
            payouts: vec![],
            attributes: vec![attr("action", "deposit_collateral"), attr("amount", "100")],
        }
    );
    assert_eq!(
        ledger.load_collateral("alice"),
        Ok(Collateral { token_address: "A".to_string(), amount: 100 })
    );
}

#[test]
fn deposit_then_withdraw_all_removes_the_record() {
    let mut ledger = new_ledger();
    deposit_collateral(&mut ledger, "alice", "A".to_string(), 100).unwrap();
    let response = withdraw_collateral(&mut ledger, "alice", "A".to_string(), 100).unwrap();
    assert_eq!(
        response,
        Response {
            payouts: vec![],
            attributes: vec![
                attr("action", "withdraw_collateral"),
                attr("amount", "100"),
                attr("token_address", "A"),
            ],
        }
    );
    assert_eq!(ledger.load_collateral("alice"), Err(ContractError::NotFound));
}

#[test]
fn second_deposit_replaces_the_first() {
    let mut ledger = new_ledger();
    deposit_collateral(&mut ledger, "alice", "A".to_string(), 100).unwrap();
    deposit_collateral(&mut ledger, "alice", "B".to_string(), 30).unwrap();
    assert_eq!(
        ledger.load_collateral("alice"),
        Ok(Collateral { token_address: "B".to_string(), amount: 30 })
    );
}

#[test]
fn partial_withdrawal_reduces_the_amount() {
    let mut ledger = new_ledger();
    deposit_collateral(&mut ledger, "alice", "A".to_string(), 100).unwrap();
    withdraw_collateral(&mut ledger, "alice", "A".to_string(), 40).unwrap();
    assert_eq!(
        ledger.load_collateral("alice"),
        Ok(Collateral { token_address: "A".to_string(), amount: 60 })
    );
    withdraw_collateral(&mut ledger, "alice", "A".to_string(), 59).unwrap();
    assert_eq!(
        ledger.load_collateral("alice"),
        Ok(Collateral { token_address: "A".to_string(), amount: 1 })
    );
    withdraw_collateral(&mut ledger, "alice", "A".to_string(), 1).unwrap();
    assert_eq!(ledger.load_collateral("alice"), Err(ContractError::NotFound));
}

#[test]
fn withdrawal_of_nothing_keeps_the_record() {
    let mut ledger = new_ledger();
    deposit_collateral(&mut ledger, "alice", "A".to_string(), 5).unwrap();
    let response = withdraw_collateral(&mut ledger, "alice", "A".to_string(), 0).unwrap();
    assert_eq!(response.attributes[1], attr("amount", "0"));
    assert_eq!(
        ledger.load_collateral("alice"),
        Ok(Collateral { token_address: "A".to_string(), amount: 5 })
    );
}

#[test]
fn withdrawal_of_more_than_stored_is_rejected() {
    let mut ledger = new_ledger();
    deposit_collateral(&mut ledger, "alice", "A".to_string(), 100).unwrap();
    let result = withdraw_collateral(&mut ledger, "alice", "A".to_string(), 101);
    assert_eq!(result, Err(ContractError::InvalidState));
    assert_eq!(
        ledger.load_collateral("alice"),
        Ok(Collateral { token_address: "A".to_string(), amount: 100 })
    );
}

#[test]
fn withdrawal_of_another_token_is_rejected() {
    let mut ledger = new_ledger();
    deposit_collateral(&mut ledger, "alice", "A".to_string(), 100).unwrap();
    let result = withdraw_collateral(&mut ledger, "alice", "B".to_string(), 10);
    assert_eq!(result, Err(ContractError::InvalidState));
    assert_eq!(
        ledger.load_collateral("alice"),
        Ok(Collateral { token_address: "A".to_string(), amount: 100 })
    );
}

#[test]
fn withdrawal_without_collateral_is_not_found() {
    let mut ledger = new_ledger();
    deposit_collateral(&mut ledger, "bob", "A".to_string(), 100).unwrap();
    let result = withdraw_collateral(&mut ledger, "alice", "A".to_string(), 1);
    assert_eq!(result, Err(ContractError::NotFound));
    let result = withdraw_collateral(&mut ledger, "alice", "A".to_string(), 0);
    assert_eq!(result, Err(ContractError::NotFound));
}

#[test]
fn withdrawal_is_allowed_while_a_loan_is_open() {
    let mut ledger = new_ledger();
    deposit_collateral(&mut ledger, "alice", "A".to_string(), 100).unwrap();
    borrow(&mut ledger, "alice", 1, 1000).unwrap();
    withdraw_collateral(&mut ledger, "alice", "A".to_string(), 100).unwrap();
    assert_eq!(ledger.load_collateral("alice"), Err(ContractError::NotFound));
    assert!(ledger.load_loan("alice").is_ok());
}

#[test]
fn borrow_records_the_loan_and_asks_for_the_payout() {
    let mut ledger = new_ledger();
    let response = borrow(&mut ledger, "bob", 1_700_000_000, 1000).unwrap();
    assert_eq!(
        response,
        Response {
            payouts: vec![Payout {
                to: "bob".to_string(),
                amount: 1000,
                currency: "usdc".to_string(),
            }],
            attributes: vec![attr("action", "borrow"), attr("amount", "1000")],
        }
    );
    assert_eq!(
        ledger.load_loan("bob"),
        Ok(LoanInfo {
            amount_borrowed: 1000,
            interest_rate: Decimal::raw(50_000_000_000_000_000),
            loan_start_time: 1_700_000_000,
        })
    );
}

#[test]
fn borrow_needs_no_collateral_and_ignores_the_base_rate() {
    let mut ledger = new_ledger();
    update_interest_rate(&mut ledger, "owner", Decimal::percent(40)).unwrap();
    borrow(&mut ledger, "carol", 9, 10).unwrap();
    assert_eq!(ledger.load_loan("carol").unwrap().interest_rate, Decimal::percent(5));
}

#[test]
fn second_borrow_replaces_the_first() {
    let mut ledger = new_ledger();
    borrow(&mut ledger, "bob", 10, 1000).unwrap();
    borrow(&mut ledger, "bob", 20, 300).unwrap();
    assert_eq!(
        ledger.load_loan("bob"),
        Ok(LoanInfo {
            amount_borrowed: 300,
            interest_rate: Decimal::percent(5),
            loan_start_time: 20,
        })
    );
}

#[test]
fn repayment_below_the_total_is_rejected() {
    let mut ledger = new_ledger();
    borrow(&mut ledger, "bob", 10, 1000).unwrap();
    let result = repay_loan(&mut ledger, "bob", 1049);
    assert_eq!(result, Err(ContractError::InsufficientPayment));
    assert_eq!(ledger.load_loan("bob").unwrap().amount_borrowed, 1000);
}

#[test]
fn repayment_of_the_total_closes_the_loan() {
    let mut ledger = new_ledger();
    borrow(&mut ledger, "bob", 10, 1000).unwrap();
    let response = repay_loan(&mut ledger, "bob", 1050).unwrap();
    assert_eq!(
        response,
        Response {
            payouts: vec![],
            attributes: vec![
                attr("action", "repay_loan"),
                attr("amount", "1050"),
                attr("interest_paid", "50"),
            ],
        }
    );
    assert_eq!(ledger.load_loan("bob"), Err(ContractError::NotFound));
}

#[test]
fn overpayment_is_accepted_without_refund() {
    let mut ledger = new_ledger();
    borrow(&mut ledger, "bob", 10, 1000).unwrap();
    let response = repay_loan(&mut ledger, "bob", 5000).unwrap();
    assert_eq!(response.payouts, vec![]);
    assert_eq!(response.attributes[1], attr("amount", "5000"));
    assert_eq!(response.attributes[2], attr("interest_paid", "50"));
    assert_eq!(ledger.load_loan("bob"), Err(ContractError::NotFound));
}

#[test]
fn interest_is_rounded_down() {
    let mut ledger = new_ledger();
    borrow(&mut ledger, "bob", 10, 999).unwrap();
    assert_eq!(repay_loan(&mut ledger, "bob", 1047), Err(ContractError::InsufficientPayment));
    let response = repay_loan(&mut ledger, "bob", 1048).unwrap();
    assert_eq!(response.attributes[2], attr("interest_paid", "49"));
}

#[test]
fn loan_of_nothing_is_recorded_and_repaid_with_nothing() {
    let mut ledger = new_ledger();
    borrow(&mut ledger, "bob", 10, 0).unwrap();
    assert_eq!(ledger.load_loan("bob").unwrap().amount_borrowed, 0);
    let response = repay_loan(&mut ledger, "bob", 0).unwrap();
    assert_eq!(response.attributes[2], attr("interest_paid", "0"));
    assert_eq!(ledger.load_loan("bob"), Err(ContractError::NotFound));
}

#[test]
fn repayment_without_a_loan_is_not_found() {
    let mut ledger = new_ledger();
    borrow(&mut ledger, "bob", 10, 1000).unwrap();
    assert_eq!(repay_loan(&mut ledger, "alice", 1050), Err(ContractError::NotFound));
    repay_loan(&mut ledger, "bob", 1050).unwrap();
    assert_eq!(repay_loan(&mut ledger, "bob", 1050), Err(ContractError::NotFound));
}

#[test]
fn repayment_overflows_where_the_total_leaves_the_range() {
    let mut ledger = new_ledger();
    borrow(&mut ledger, "bob", 10, u128::MAX).unwrap();
    assert_eq!(repay_loan(&mut ledger, "bob", u128::MAX), Err(ContractError::Overflow));
    assert_eq!(ledger.load_loan("bob").unwrap().amount_borrowed, u128::MAX);
}

#[test]
fn repayment_overflows_where_the_interest_leaves_the_range() {
    let mut ledger = new_ledger();
    let loan = LoanInfo {
        amount_borrowed: u128::MAX,
        interest_rate: Decimal::percent(200),
        loan_start_time: 0,
    };
    ledger.save_loan("bob", loan);
    assert_eq!(repay_loan(&mut ledger, "bob", u128::MAX), Err(ContractError::Overflow));
    assert_eq!(ledger.load_loan("bob"), Ok(loan));
}

#[test]
fn largest_loan_that_can_be_repaid() {
    // The largest principal whose total, a + a / 20, stays within 128 bits.
    let a: u128 = 324078444686608060441309149935017344243;
    let mut ledger = new_ledger();
    borrow(&mut ledger, "bob", 10, a).unwrap();
    assert_eq!(repay_loan(&mut ledger, "bob", u128::MAX - 1), Err(ContractError::InsufficientPayment));
    let response = repay_loan(&mut ledger, "bob", u128::MAX).unwrap();
    assert_eq!(
        response.attributes[2],
        attr("interest_paid", "16203922234330403022065457496750867212")
    );
    borrow(&mut ledger, "bob", 10, a + 1).unwrap();
    assert_eq!(repay_loan(&mut ledger, "bob", u128::MAX), Err(ContractError::Overflow));
}

#[test]
fn rate_update_by_another_account_is_unauthorized() {
    let mut ledger = new_ledger();
    let result = update_interest_rate(&mut ledger, "mallory", Decimal::percent(50));
    assert_eq!(result, Err(ContractError::Unauthorized));
    assert_eq!(ledger.load_config().base_interest_rate, Decimal::percent(3));
    assert_eq!(ledger.load_config().owner, "owner");
}

#[test]
fn rate_update_by_the_owner_changes_the_base_rate_only() {
    let mut ledger = new_ledger();
    deposit_collateral(&mut ledger, "alice", "A".to_string(), 100).unwrap();
    borrow(&mut ledger, "bob", 10, 1000).unwrap();
    let response = update_interest_rate(&mut ledger, "owner", Decimal::percent(12)).unwrap();
    assert_eq!(
        response,
        Response {
            payouts: vec![],
            attributes: vec![attr("action", "update_interest_rate"), attr("new_rate", "0.12")],
        }
    );
    assert_eq!(ledger.load_config().base_interest_rate, Decimal::percent(12));
    assert_eq!(ledger.load_config().owner, "owner");
    assert_eq!(
        ledger.load_loan("bob"),
        Ok(LoanInfo { amount_borrowed: 1000, interest_rate: Decimal::percent(5), loan_start_time: 10 })
    );
    assert_eq!(
        ledger.load_collateral("alice"),
        Ok(Collateral { token_address: "A".to_string(), amount: 100 })
    );
    assert_eq!(repay_loan(&mut ledger, "bob", 1049), Err(ContractError::InsufficientPayment));
    repay_loan(&mut ledger, "bob", 1050).unwrap();
}

#[test]
fn execute_dispatches_every_action() {
    let mut ledger = new_ledger();
    let deposit = ExecuteMsg::DepositCollateral { token_address: "A".to_string(), amount: 100 };
    execute(&mut ledger, "alice", 1, deposit).unwrap();
    assert_eq!(ledger.load_collateral("alice").unwrap().amount, 100);

    let withdraw = ExecuteMsg::WithdrawCollateral { token_address: "A".to_string(), amount: 30 };
    execute(&mut ledger, "alice", 2, withdraw).unwrap();
    assert_eq!(ledger.load_collateral("alice").unwrap().amount, 70);

    let response = execute(&mut ledger, "alice", 3, ExecuteMsg::Borrow { amount: 200 }).unwrap();
    assert_eq!(response.payouts.len(), 1);
    assert_eq!(ledger.load_loan("alice").unwrap().loan_start_time, 3);

    let short = execute(&mut ledger, "alice", 4, ExecuteMsg::RepayLoan { amount: 209 });
    assert_eq!(short, Err(ContractError::InsufficientPayment));
    execute(&mut ledger, "alice", 5, ExecuteMsg::RepayLoan { amount: 210 }).unwrap();
    assert_eq!(ledger.load_loan("alice"), Err(ContractError::NotFound));

    let update = ExecuteMsg::UpdateInterestRate { new_rate: Decimal::percent(8) };
    assert_eq!(execute(&mut ledger, "alice", 6, update.clone()), Err(ContractError::Unauthorized));
    execute(&mut ledger, "owner", 7, update).unwrap();
    assert_eq!(ledger.load_config().base_interest_rate, Decimal::percent(8));
}

#[test]
fn execute_rejects_as_the_actions_do() {
    let mut ledger = new_ledger();
    let deposit = ExecuteMsg::DepositCollateral { token_address: "A".to_string(), amount: 0 };
    assert_eq!(execute(&mut ledger, "alice", 1, deposit), Err(ContractError::InvalidAmount));
    let withdraw = ExecuteMsg::WithdrawCollateral { token_address: "A".to_string(), amount: 1 };
    assert_eq!(execute(&mut ledger, "alice", 1, withdraw), Err(ContractError::NotFound));
    let repay = ExecuteMsg::RepayLoan { amount: 1 };
    assert_eq!(execute(&mut ledger, "alice", 1, repay), Err(ContractError::NotFound));
}

#[test]
fn actions_touch_the_sender_only() {
    let mut ledger = new_ledger();
    deposit_collateral(&mut ledger, "alice", "A".to_string(), 100).unwrap();
    borrow(&mut ledger, "alice", 1, 500).unwrap();
    deposit_collateral(&mut ledger, "bob", "B".to_string(), 9).unwrap();
    borrow(&mut ledger, "bob", 2, 40).unwrap();
    withdraw_collateral(&mut ledger, "bob", "B".to_string(), 9).unwrap();
    repay_loan(&mut ledger, "bob", 42).unwrap();
    assert_eq!(
        ledger.load_collateral("alice"),
        Ok(Collateral { token_address: "A".to_string(), amount: 100 })
    );
    assert_eq!(
        ledger.load_loan("alice"),
        Ok(LoanInfo { amount_borrowed: 500, interest_rate: Decimal::percent(5), loan_start_time: 1 })
    );
    assert_eq!(ledger.load_collateral("bob"), Err(ContractError::NotFound));
    assert_eq!(ledger.load_loan("bob"), Err(ContractError::NotFound));
}

#[test]
fn records_exist_exactly_while_their_amounts_are_positive() {
    let mut ledger = new_ledger();
    let accounts = ["alice", "bob", "carol"];
    let steps: Vec<(&str, ExecuteMsg)> = vec![
        ("alice", ExecuteMsg::DepositCollateral { token_address: "A".to_string(), amount: 10 }),
        ("bob", ExecuteMsg::DepositCollateral { token_address: "A".to_string(), amount: 0 }),
        ("bob", ExecuteMsg::Borrow { amount: 77 }),
        ("alice", ExecuteMsg::WithdrawCollateral { token_address: "A".to_string(), amount: 4 }),
        ("carol", ExecuteMsg::RepayLoan { amount: 1 }),
        ("alice", ExecuteMsg::WithdrawCollateral { token_address: "A".to_string(), amount: 6 }),
        ("bob", ExecuteMsg::RepayLoan { amount: 80 }),
        ("carol", ExecuteMsg::DepositCollateral { token_address: "C".to_string(), amount: 1 }),
        ("bob", ExecuteMsg::RepayLoan { amount: 81 }),
    ];
    let mut now = 0;
    for (sender, msg) in steps {
        now += 1;
        let _ = execute(&mut ledger, sender, now, msg);
        for account in accounts {
            if let Ok(collateral) = ledger.load_collateral(account) {
                assert!(collateral.amount > 0);
            }
            if let Ok(loan) = ledger.load_loan(account) {
                assert!(loan.amount_borrowed > 0);
            }
        }
    }
    assert_eq!(ledger.load_collateral("alice"), Err(ContractError::NotFound));
    assert_eq!(ledger.load_loan("bob"), Err(ContractError::NotFound));
    assert_eq!(ledger.load_collateral("carol").unwrap().amount, 1);
}

#[test]
fn accounts_are_told_apart_by_their_whole_name() {
    let mut ledger = new_ledger();
    deposit_collateral(&mut ledger, "alice", "A".to_string(), 1).unwrap();
    assert_eq!(ledger.load_collateral("alic"), Err(ContractError::NotFound));
    assert_eq!(ledger.load_collateral("alice "), Err(ContractError::NotFound));
    assert_eq!(ledger.load_collateral(""), Err(ContractError::NotFound));
    assert_eq!(update_interest_rate(&mut ledger, "Owner", Decimal::percent(1)), Err(ContractError::Unauthorized));
    assert_eq!(update_interest_rate(&mut ledger, "owner ", Decimal::percent(1)), Err(ContractError::Unauthorized));
}
