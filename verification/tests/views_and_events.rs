use nft_snipe::events::LogBuyToken;
use nft_snipe::events::LogDeleteSnipe;
use nft_snipe::events::LogSnipe;
use nft_snipe::events::NearEvent;
use nft_snipe::events::SnipeNearEventKind;
use nft_snipe::Context;
use nft_snipe::Contract;
use nft_snipe::NftMarketplace;
use nft_snipe::SnipeError;
use nft_snipe::SnipeStatus;

fn ctx(predecessor: &str, attached_deposit: u128, account_balance: u128) -> Context {
    Context {
        predecessor_account_id: predecessor.to_string(),
        current_account_id: "snipe.near".to_string(),
        attached_deposit,
        account_balance,
    }
}

#[test]
fn snipe_by_id_returns_the_record_or_not_found() {
    let mut c = Contract::init("operator.near".to_string());
    c.snipe(&ctx("alice.near", 44, 0), "nft.near".to_string(), Some("t3".to_string()), None)
        .unwrap();
    let s = c.snipe_by_id(1).unwrap();
    assert_eq!(s.snipe_id, 1);
    assert_eq!(s.account_id, "alice.near");
    assert_eq!(s.contract_id, "nft.near");
    assert_eq!(s.token_id.as_deref(), Some("t3"));
    assert_eq!(s.deposit, 44);
    assert_eq!(s.status, SnipeStatus::Waiting);
    assert!(matches!(c.snipe_by_id(2), Err(SnipeError::SnipeNotFound)));
    assert!(matches!(c.snipe_by_id(0), Err(SnipeError::SnipeNotFound)));
}

#[test]
fn listing_an_unknown_owner_fails_not_found() {
    let mut c = Contract::init("operator.near".to_string());
    let r = c.snipes_by_account_id(&"ghost.near".to_string(), None, None);
    assert!(matches!(r, Err(SnipeError::AccountNotFound)));
    // An owner becomes known by opening a record, never before.
    c.snipe(&ctx("alice.near", 10, 0), "nft.near".to_string(), None, None).unwrap();
    assert!(c.snipes_by_account_id(&"alice.near".to_string(), None, None).is_ok());
    assert!(matches!(
        c.snipes_by_account_id(&"ghost.near".to_string(), None, None),
        Err(SnipeError::AccountNotFound)
    ));
}

#[test]
fn listing_returns_only_the_owners_records_in_order() {
    let mut c = Contract::init("operator.near".to_string());
    c.snipe(&ctx("alice.near", 10, 0), "a.near".to_string(), None, None).unwrap();
    c.snipe(&ctx("bob.near", 20, 0), "b.near".to_string(), None, None).unwrap();
    c.snipe(&ctx("alice.near", 30, 0), "c.near".to_string(), None, None).unwrap();
    c.snipe(&ctx("bob.near", 40, 0), "d.near".to_string(), None, None).unwrap();
    c.snipe(&ctx("alice.near", 50, 0), "e.near".to_string(), None, None).unwrap();

    let alice = c.snipes_by_account_id(&"alice.near".to_string(), None, None).unwrap();
    let ids: Vec<u64> = alice.iter().map(|s| s.snipe_id).collect();
    assert_eq!(ids, vec![1, 3, 5]);
    for s in &alice {
        assert_eq!(s.account_id, "alice.near");
    }
    let bob = c.snipes_by_account_id(&"bob.near".to_string(), None, None).unwrap();
    let ids: Vec<u64> = bob.iter().map(|s| s.snipe_id).collect();
    assert_eq!(ids, vec![2, 4]);
}

#[test]
fn listing_honours_offset_and_limit() {
    let mut c = Contract::init("operator.near".to_string());
    for k in 0..6u128 {
        c.snipe(&ctx("alice.near", 10 + k, 0), "a.near".to_string(), None, None).unwrap();
    }
    let page = c.snipes_by_account_id(&"alice.near".to_string(), Some(1), Some(3)).unwrap();
    let ids: Vec<u64> = page.iter().map(|s| s.snipe_id).collect();
    assert_eq!(ids, vec![2, 3, 4]);

    let tail = c.snipes_by_account_id(&"alice.near".to_string(), Some(4), None).unwrap();
    let ids: Vec<u64> = tail.iter().map(|s| s.snipe_id).collect();
    assert_eq!(ids, vec![5, 6]);

    let beyond = c.snipes_by_account_id(&"alice.near".to_string(), Some(100), Some(2)).unwrap();
    assert!(beyond.is_empty());

    let zero = c.snipes_by_account_id(&"alice.near".to_string(), None, Some(0)).unwrap();
    assert!(zero.is_empty());
}

#[test]
fn registry_maps_the_known_marketplaces_and_nothing_else() {
    let c = Contract::init("operator.near".to_string());
    assert_eq!(
        c.get_nft_marketplace_by_contract(&"paras-marketplace-v1.testnet".to_string()),
        Some(NftMarketplace::Paras)
    );
    assert_eq!(
        c.get_nft_marketplace_by_contract(&"marketplace.paras.mainnet".to_string()),
        Some(NftMarketplace::Paras)
    );
    assert_eq!(
        c.get_nft_marketplace_by_contract(&"market-v2-beta.mintspace2.testnet".to_string()),
        Some(NftMarketplace::Mintbase)
    );
    assert_eq!(
        c.get_nft_marketplace_by_contract(&"market.mintbase1.near".to_string()),
        Some(NftMarketplace::Mintbase)
    );
    assert_eq!(c.get_nft_marketplace_by_contract(&"opensea.near".to_string()), None);
    assert_eq!(c.get_nft_marketplace_by_contract(&"".to_string()), None);
}

#[test]
fn envelope_constructors_wrap_the_kind_with_a_version() {
    let data = LogDeleteSnipe { snipe_id: 9, account_id: "alice.near".to_string() };
    let ev = NearEvent::new(
        "2.1.0".to_string(),
        SnipeNearEventKind::DeleteSnipe(data),
    );
    let NearEvent::SnipeNear(env) = ev;
    assert_eq!(env.version, "2.1.0");
    match env.event_kind {
        SnipeNearEventKind::DeleteSnipe(d) => assert_eq!(d.snipe_id, 9),
        _ => panic!("the kind must be kept as given"),
    }

    let data = LogSnipe {
        snipe_id: 1,
        account_id: "alice.near".to_string(),
        contract_id: "nft.near".to_string(),
        token_id: None,
        deposit: 5,
        status: SnipeStatus::Waiting,
        memo: None,
    };
    let NearEvent::SnipeNear(env) = NearEvent::new_v1(SnipeNearEventKind::Snipe(data));
    assert_eq!(env.version, "1.0.0");
}

#[test]
fn event_helpers_build_each_kind() {
    let NearEvent::SnipeNear(env) = NearEvent::snipe(LogSnipe {
        snipe_id: 2,
        account_id: "a".to_string(),
        contract_id: "c".to_string(),
        token_id: Some("t".to_string()),
        deposit: 7,
        status: SnipeStatus::Waiting,
        memo: None,
    });
    assert_eq!(env.version, "1.0.0");
    assert!(matches!(env.event_kind, SnipeNearEventKind::Snipe(_)));

    let NearEvent::SnipeNear(env) = NearEvent::delete_snipe(LogDeleteSnipe {
        snipe_id: 2,
        account_id: "a".to_string(),
    });
    assert!(matches!(env.event_kind, SnipeNearEventKind::DeleteSnipe(_)));

    let NearEvent::SnipeNear(env) = NearEvent::buy_token(LogBuyToken {
        marketplace_contract_id: "m".to_string(),
        price: 3,
        snipe_id: 2,
        token_id: "t".to_string(),
        status: SnipeStatus::Failed,
        account_id: "a".to_string(),
    });
    assert!(matches!(env.event_kind, SnipeNearEventKind::BuyToken(_)));
}

#[test]
fn log_helpers_append_to_the_sink_in_order() {
    let mut sink: Vec<NearEvent> = Vec::new();
    NearEvent::log_snipe(
        LogSnipe {
            snipe_id: 1,
            account_id: "a".to_string(),
            contract_id: "c".to_string(),
            token_id: None,
            deposit: 5,
            status: SnipeStatus::Waiting,
            memo: None,
        },
        &mut sink,
    );
    NearEvent::log_delete_snipe(LogDeleteSnipe { snipe_id: 1, account_id: "a".to_string() }, &mut sink);
    NearEvent::log_buy_token(
        LogBuyToken {
            marketplace_contract_id: "m".to_string(),
            price: 3,
            snipe_id: 1,
            token_id: "t".to_string(),
            status: SnipeStatus::Success,
            account_id: "a".to_string(),
        },
        &mut sink,
    );
    assert_eq!(sink.len(), 3);
    let kinds: Vec<&str> = sink
        .iter()
        .map(|ev| {
            let NearEvent::SnipeNear(env) = ev;
            match env.event_kind {
                SnipeNearEventKind::Snipe(_) => "snipe",
                SnipeNearEventKind::DeleteSnipe(_) => "delete_snipe",
                SnipeNearEventKind::BuyToken(_) => "buy_token",
            }
        })
        .collect();
    assert_eq!(kinds, vec!["snipe", "delete_snipe", "buy_token"]);
}
