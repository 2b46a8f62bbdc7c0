use nft_snipe::events::NearEvent;
use nft_snipe::events::SnipeNearEventKind;
use nft_snipe::external::MarketplaceCall;
use nft_snipe::Context;
use nft_snipe::Contract;
use nft_snipe::ResolveOutcome;
use nft_snipe::SnipeError;
use nft_snipe::SnipeStatus;

fn ctx(predecessor: &str, attached_deposit: u128, account_balance: u128) -> Context {
    Context {
        predecessor_account_id: predecessor.to_string(),
        current_account_id: "snipe.near".to_string(),
        attached_deposit,
        account_balance,
    }
}

#[test]
fn open_rejects_deposit_at_or_below_one_unit() {
    let mut c = Contract::init("operator.near".to_string());
    let r0 = c.snipe(&ctx("alice.near", 0, 0), "nft.near".to_string(), None, None);
    assert!(matches!(r0, Err(SnipeError::DepositTooLow)));
    let r1 = c.snipe(&ctx("alice.near", 1, 0), "nft.near".to_string(), None, None);
    assert!(matches!(r1, Err(SnipeError::DepositTooLow)));
    assert_eq!(c.snipe_by_id.len(), 0);
    assert_eq!(c.snipes_by_account_id.len(), 0);
    let r2 = c.snipe(&ctx("alice.near", 2, 0), "nft.near".to_string(), None, None);
    assert_eq!(r2.unwrap().snipe_id, 1);
}

#[test]
fn successive_opens_return_strictly_increasing_ids() {
    let mut c = Contract::init("operator.near".to_string());
    let mut last: u64 = 0;
    for k in 0..5u64 {
        let owner = if k % 2 == 0 { "alice.near" } else { "bob.near" };
        let r = c
            .snipe(&ctx(owner, 100 + k as u128, 0), "nft.near".to_string(), None, None)
            .unwrap();
        assert_eq!(r.snipe_id, k + 1);
        assert!(r.snipe_id > last);
        last = r.snipe_id;
    }
    assert_eq!(c.snipe_by_id.len(), 5);
}

#[test]
fn open_emits_versioned_snipe_event() {
    let mut c = Contract::init("operator.near".to_string());
    let out = c
        .snipe(
            &ctx("alice.near", 1000, 0),
            "nft.near".to_string(),
            Some("t1".to_string()),
            Some("note".to_string()),
        )
        .unwrap();
    let NearEvent::SnipeNear(env) = out.event;
    assert_eq!(env.version, "1.0.0");
    match env.event_kind {
        SnipeNearEventKind::Snipe(data) => {
            assert_eq!(data.snipe_id, 1);
            assert_eq!(data.account_id, "alice.near");
            assert_eq!(data.contract_id, "nft.near");
            assert_eq!(data.token_id.as_deref(), Some("t1"));
            assert_eq!(data.deposit, 1000);
            assert_eq!(data.status, SnipeStatus::Waiting);
            assert_eq!(data.memo.as_deref(), Some("note"));
        }
        _ => panic!("expected an opened-record event"),
    }
}

#[test]
fn snipe_then_buy_then_resolve_success_refunds_difference() {
    let mut c = Contract::init("operator.near".to_string());
    let opened = c
        .snipe(
            &ctx("alice.near", 1000, 0),
            "nft.near".to_string(),
            Some("t1".to_string()),
            None,
        )
        .unwrap();
    assert_eq!(opened.snipe_id, 1);
    assert_eq!(c.snipe_by_id[0].status, SnipeStatus::Waiting);

    let dispatch = c
        .buy_token(
            &ctx("operator.near", 0, 0),
            "marketplace.paras.mainnet".to_string(),
            600,
            1,
            None,
        )
        .unwrap();
    assert_eq!(c.snipe_by_id[0].status, SnipeStatus::Sniping);
    match dispatch.call {
        MarketplaceCall::ParasBuy {
            marketplace_contract_id,
            nft_contract_id,
            token_id,
            ft_token_id,
            price,
            attached_deposit,
            ..
        } => {
            assert_eq!(marketplace_contract_id, "marketplace.paras.mainnet");
            assert_eq!(nft_contract_id, "nft.near");
            assert_eq!(token_id, "t1");
            assert_eq!(ft_token_id, None);
            assert_eq!(price, Some(600));
            assert_eq!(attached_deposit, 600);
        }
        _ => panic!("a Paras account must dispatch a Paras-shaped call"),
    }
    assert_eq!(dispatch.callback.receiver_id, "snipe.near");
    assert_eq!(dispatch.callback.snipe_id, 1);
    assert_eq!(dispatch.callback.price, 600);
    assert_eq!(dispatch.callback.token_id, "t1");

    let resolved = c
        .resolve_buy(
            &ctx("snipe.near", 0, 10_000),
            "marketplace.paras.mainnet".to_string(),
            1,
            600,
            "t1".to_string(),
            true,
        )
        .unwrap();
    assert_eq!(c.snipe_by_id[0].status, SnipeStatus::Success);
    match resolved {
        ResolveOutcome::Success { refund, nft_transfer, event } => {
            let refund = refund.expect("refund owed when price < deposit");
            assert_eq!(refund.receiver_id, "alice.near");
            assert_eq!(refund.amount, 400);
            assert_eq!(nft_transfer.nft_contract_id, "nft.near");
            assert_eq!(nft_transfer.receiver_id, "alice.near");
            assert_eq!(nft_transfer.token_id, "t1");
            assert_eq!(nft_transfer.approval_id, None);
            assert_eq!(nft_transfer.attached_deposit, 1);
            let NearEvent::SnipeNear(env) = event;
            match env.event_kind {
                SnipeNearEventKind::BuyToken(data) => {
                    assert_eq!(data.status, SnipeStatus::Success);
                    assert_eq!(data.price, 600);
                    assert_eq!(data.token_id, "t1");
                    assert_eq!(data.account_id, "alice.near");
                }
                _ => panic!("expected a resolved-purchase event"),
            }
        }
        ResolveOutcome::Failure { .. } => panic!("a successful outcome must settle as Success"),
    }
}

#[test]
fn resolve_success_with_price_equal_to_deposit_issues_no_refund() {
    let mut c = Contract::init("operator.near".to_string());
    c.snipe(&ctx("alice.near", 700, 0), "nft.near".to_string(), Some("t9".to_string()), None)
        .unwrap();
    c.buy_token(
        &ctx("operator.near", 0, 0),
        "market.mintbase1.near".to_string(),
        700,
        1,
        None,
    )
    .unwrap();
    let resolved = c
        .resolve_buy(
            &ctx("snipe.near", 0, 0),
            "market.mintbase1.near".to_string(),
            1,
            700,
            "t9".to_string(),
            true,
        )
        .unwrap();
    match resolved {
        ResolveOutcome::Success { refund, .. } => assert!(refund.is_none()),
        ResolveOutcome::Failure { .. } => panic!("a successful outcome must settle as Success"),
    }
    assert_eq!(c.snipe_by_id[0].status, SnipeStatus::Success);
}

#[test]
fn dispatch_with_price_above_deposit_fails_without_mutation() {
    let mut c = Contract::init("operator.near".to_string());
    c.snipe(&ctx("alice.near", 1000, 0), "nft.near".to_string(), Some("t1".to_string()), None)
        .unwrap();
    let r = c.buy_token(
        &ctx("operator.near", 0, 0),
        "marketplace.paras.mainnet".to_string(),
        1200,
        1,
        None,
    );
    assert!(matches!(r, Err(SnipeError::PriceExceedsDeposit)));
    assert_eq!(c.snipe_by_id[0].status, SnipeStatus::Waiting);
}

#[test]
fn delete_refunds_full_deposit_and_is_final() {
    let mut c = Contract::init("operator.near".to_string());
    c.snipe(&ctx("alice.near", 500, 0), "nft.near".to_string(), None, None).unwrap();
    let out = c.delete_snipe(&ctx("alice.near", 1, 10_000), 1).unwrap();
    assert_eq!(out.refund.receiver_id, "alice.near");
    assert_eq!(out.refund.amount, 500);
    assert_eq!(c.snipe_by_id[0].status, SnipeStatus::Deleted);
    let NearEvent::SnipeNear(env) = out.event;
    match env.event_kind {
        SnipeNearEventKind::DeleteSnipe(data) => {
            assert_eq!(data.snipe_id, 1);
            assert_eq!(data.account_id, "alice.near");
        }
        _ => panic!("expected a deleted-record event"),
    }
    let again = c.delete_snipe(&ctx("alice.near", 1, 10_000), 1);
    assert!(matches!(again, Err(SnipeError::NotWaiting)));
    assert_eq!(c.snipe_by_id[0].status, SnipeStatus::Deleted);
}

#[test]
fn resolve_failure_locks_deposit_and_record_is_terminal() {
    let mut c = Contract::init("operator.near".to_string());
    c.snipe(&ctx("alice.near", 1000, 0), "nft.near".to_string(), Some("t1".to_string()), None)
        .unwrap();
    c.buy_token(
        &ctx("operator.near", 0, 0),
        "marketplace.paras.mainnet".to_string(),
        600,
        1,
        None,
    )
    .unwrap();
    let resolved = c
        .resolve_buy(
            &ctx("snipe.near", 0, 10_000),
            "marketplace.paras.mainnet".to_string(),
            1,
            600,
            "t1".to_string(),
            false,
        )
        .unwrap();
    assert_eq!(c.snipe_by_id[0].status, SnipeStatus::Failed);
    assert_eq!(c.snipe_by_id[0].deposit, 1000);
    match resolved {
        ResolveOutcome::Failure { event } => {
            let NearEvent::SnipeNear(env) = event;
            assert_eq!(env.version, "1.0.0");
            match env.event_kind {
                SnipeNearEventKind::BuyToken(data) => {
                    assert_eq!(data.status, SnipeStatus::Failed);
                    assert_eq!(data.price, 600);
                    assert_eq!(data.token_id, "t1");
                    assert_eq!(data.marketplace_contract_id, "marketplace.paras.mainnet");
                    assert_eq!(data.account_id, "alice.near");
                }
                _ => panic!("expected a resolved-purchase event"),
            }
        }
        ResolveOutcome::Success { .. } => panic!("a failed outcome must settle as Failure"),
    }

    let del = c.delete_snipe(&ctx("alice.near", 1, 10_000), 1);
    assert!(matches!(del, Err(SnipeError::NotWaiting)));
    let redo = c.buy_token(
        &ctx("operator.near", 0, 0),
        "marketplace.paras.mainnet".to_string(),
        600,
        1,
        None,
    );
    assert!(matches!(redo, Err(SnipeError::NotWaiting)));
    assert_eq!(c.snipe_by_id[0].status, SnipeStatus::Failed);
}
