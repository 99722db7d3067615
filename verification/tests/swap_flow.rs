use swap_pool::batch::{CallOutcome, ParallelBatch};
use swap_pool::errors::PoolError;
use swap_pool::pool::{Contract, TransferAction, TRANSFER_DEPOSIT};

fn pool() -> Contract {
    let (pool, _plan) = Contract::new(
        "owner.near".to_string(),
        "token-a.near".to_string(),
        "token-b.near".to_string(),
    );
    pool
}

fn balances(balance_a: u128, balance_b: u128) -> ParallelBatch<u128> {
    let mut results = ParallelBatch::new();
    // The second query settles first; delivery still follows issue order.
    results.settle(1, CallOutcome::Success(balance_b));
    results.settle(0, CallOutcome::Success(balance_a));
    results
}

#[test]
fn owner_deposit_is_accepted_without_a_swap() {
    let action = pool().ft_on_transfer(
        "owner.near".to_string(),
        1_000,
        String::new(),
        "token-a.near".to_string(),
        "pool.near".to_string(),
    );
    assert!(matches!(action, Ok(TransferAction::Accept { refund: 0 })));
}

#[test]
fn unauthorized_caller_is_rejected_whatever_the_payload() {
    let action = pool().ft_on_transfer(
        "alice.near".to_string(),
        1_000,
        String::new(),
        "mallory.near".to_string(),
        "pool.near".to_string(),
    );
    assert!(matches!(action, Err(PoolError::Unauthorized)));
    // Even the owner's deposits are rejected when relayed by a stranger.
    let action = pool().ft_on_transfer(
        "owner.near".to_string(),
        0,
        "anything".to_string(),
        "mallory.near".to_string(),
        "pool.near".to_string(),
    );
    assert!(matches!(action, Err(PoolError::Unauthorized)));
}

#[test]
fn deposit_starts_swap_with_queries_in_issue_order() {
    let action = pool().ft_on_transfer(
        "alice.near".to_string(),
        100,
        String::new(),
        "token-a.near".to_string(),
        "pool.near".to_string(),
    );
    match action {
        Ok(TransferAction::Swap { queries, pending }) => {
            assert_eq!(queries.first_ledger, "token-a.near");
            assert_eq!(queries.second_ledger, "token-b.near");
            assert_eq!(queries.holder, "pool.near");
            assert_eq!(pending.counterparty, "alice.near");
            assert_eq!(pending.token_received, "token-a.near");
            assert_eq!(pending.amount_received, 100);
        }
        _ => panic!("expected a swap"),
    }
}

#[test]
fn completed_swap_of_asset_a_transfers_asset_b() {
    // Pool balances before the deposit: A = 1000, B = 500; deposit 100 of
    // asset A, so the queries report A = 1100, B = 500. The invariant
    // target is 1000 * 500 = 500000 and the payout 500 - 500000 / 1000 = 0.
    let transfer = pool()
        .cb_transfer_token(
            "alice.near".to_string(),
            "token-a.near".to_string(),
            100,
            balances(1100, 500),
        )
        .unwrap();
    assert_eq!(transfer.ledger, "token-b.near");
    assert_eq!(transfer.receiver, "alice.near");
    assert_eq!(transfer.amount, 0);
    assert_eq!(transfer.attached_deposit, TRANSFER_DEPOSIT);
    assert!(transfer.memo.is_none());
}

#[test]
fn completed_swap_of_asset_b_mirrors_asset_a() {
    // The mirrored deposit: 100 of asset B against balances A = 500,
    // B = 1100 as queried. Asset A pays out, same amount as the mirror.
    let transfer = pool()
        .cb_transfer_token(
            "alice.near".to_string(),
            "token-b.near".to_string(),
            100,
            balances(500, 1100),
        )
        .unwrap();
    assert_eq!(transfer.ledger, "token-a.near");
    assert_eq!(transfer.receiver, "alice.near");
    assert_eq!(transfer.amount, 0);
    assert_eq!(transfer.attached_deposit, TRANSFER_DEPOSIT);
    assert!(transfer.memo.is_none());
}

#[test]
fn unknown_asset_at_pricing_time_is_rejected() {
    let result = pool().cb_transfer_token(
        "alice.near".to_string(),
        "token-c.near".to_string(),
        100,
        balances(1100, 500),
    );
    assert!(matches!(result, Err(PoolError::UnknownAsset)));
}

#[test]
fn failed_balance_query_aborts_the_swap() {
    let mut results = ParallelBatch::new();
    results.settle(0, CallOutcome::Success(1100));
    results.settle(1, CallOutcome::Failed);
    let result = pool().cb_transfer_token(
        "alice.near".to_string(),
        "token-a.near".to_string(),
        100,
        results,
    );
    assert!(matches!(result, Err(PoolError::MalformedResult)));
}

#[test]
fn missing_balance_results_abort_the_swap() {
    let result = pool().cb_transfer_token(
        "alice.near".to_string(),
        "token-a.near".to_string(),
        100,
        ParallelBatch::new(),
    );
    assert!(matches!(result, Err(PoolError::MalformedResult)));
}

#[test]
fn undefined_pricing_aborts_the_swap() {
    // The deposit exceeds the queried balance: the pre-deposit balance
    // would be negative.
    let result = pool().cb_transfer_token(
        "alice.near".to_string(),
        "token-a.near".to_string(),
        2_000,
        balances(1100, 500),
    );
    assert!(matches!(result, Err(PoolError::Arithmetic)));
    // The deposit is the whole queried balance: the divisor would be zero.
    let result = pool().cb_transfer_token(
        "alice.near".to_string(),
        "token-a.near".to_string(),
        1_100,
        balances(1100, 500),
    );
    assert!(matches!(result, Err(PoolError::Arithmetic)));
    // The pool holds none of the asset it would pay out: no silent
    // zero-amount transfer is decided.
    let result = pool().cb_transfer_token(
        "alice.near".to_string(),
        "token-a.near".to_string(),
        100,
        balances(1100, 0),
    );
    assert!(matches!(result, Err(PoolError::Arithmetic)));
}
