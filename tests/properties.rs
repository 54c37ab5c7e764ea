use nft::{
    saturating_mul, ActorId, Collection, Config, DropspaceNftErr, InitNft, Nft, NftAction,
    NftEvent, Payout, State, StateQuery, StateReply,
};

const NOW: u64 = 500;

fn a(v: u64) -> ActorId {
    ActorId::from_u64(v)
}

fn ledger(supply_limit: u128, mint_limit: u128, mint_price: u128, mint_fee: u128, sale_time: u64) -> Nft {
    let init = InitNft {
        collection: Collection {
            name: String::from("C"),
            description: String::from("D"),
            symbol: String::from("S"),
            base_uri: String::from("ipfs://base/"),
        },
        config: Config {
            supply_limit,
            mint_price,
            mint_fee,
            mint_limit,
            sale_time,
            dev_wallet: a(90),
            withdraw_wallet: a(91),
        },
    };
    Nft::new(init, a(1))
}

fn act(nft: &mut Nft, caller: u64, action: NftAction) -> Result<NftEvent, DropspaceNftErr> {
    nft.handle(a(caller), 0, NOW, action).map(|r| r.event)
}

fn approval(nft: &Nft, token_id: u128) -> Result<Option<ActorId>, DropspaceNftErr> {
    match nft.state(NOW, StateQuery::TokenApprovals { token_id }) {
        Ok(StateReply::TokenApprovals(x)) => Ok(x),
        Ok(other) => panic!("unexpected reply {:?}", other),
        Err(e) => Err(e),
    }
}

#[test]
fn single_token_collection_sells_out() {
    let mut nft = ledger(1, 1, 2, 1, 0);
    let r = nft.handle(a(5), 3, NOW, NftAction::Buy { amount: 1 }).unwrap();
    assert_eq!(r.event, NftEvent::Bought { to: a(5), amount: 1 });
    assert_eq!(State::from(&nft).owner_by_id, vec![(0, a(5))]);
    let second = nft.handle(a(5), 3, NOW, NftAction::Buy { amount: 1 });
    assert_eq!(second.unwrap_err(), DropspaceNftErr::MintClosed);
}

#[test]
fn batch_over_remaining_supply_is_refused() {
    let mut nft = ledger(3, 5, 0, 0, 0);
    assert!(act(&mut nft, 5, NftAction::Buy { amount: 2 }).is_ok());
    assert_eq!(act(&mut nft, 5, NftAction::Buy { amount: 2 }), Err(DropspaceNftErr::SupplyLimitExceeded));
    assert_eq!(nft.total_supply(), 2);
    assert!(act(&mut nft, 5, NftAction::Buy { amount: 1 }).is_ok());
    assert_eq!(nft.total_supply(), 3);
}

#[test]
fn buy_rejections_in_order() {
    let mut nft = ledger(10, 2, 5, 1, 1000);
    assert_eq!(act(&mut nft, 0, NftAction::Buy { amount: 1 }), Err(DropspaceNftErr::InvalidCaller));
    assert_eq!(act(&mut nft, 5, NftAction::Buy { amount: 1 }), Err(DropspaceNftErr::SaleInactive));
    assert!(act(&mut nft, 1, NftAction::SetSaleTime { sale_time: 0 }).is_ok());
    assert_eq!(act(&mut nft, 5, NftAction::Buy { amount: 0 }), Err(DropspaceNftErr::InvalidAmount));
    assert_eq!(act(&mut nft, 5, NftAction::Buy { amount: 3 }), Err(DropspaceNftErr::MintLimitExceeded));
    let r = nft.handle(a(5), 11, NOW, NftAction::Buy { amount: 2 });
    assert_eq!(r.unwrap_err(), DropspaceNftErr::InsufficientFunds);
    assert!(nft.handle(a(5), 12, NOW, NftAction::Buy { amount: 2 }).is_ok());
}

#[test]
fn purchase_splits_value_exactly() {
    let mut nft = ledger(10, 5, 7, 3, 0);
    let r = nft.handle(a(5), 100, NOW, NftAction::Buy { amount: 4 }).unwrap();
    assert_eq!(
        r.payouts,
        vec![
            Payout { to: a(91), value: 28 },
            Payout { to: a(90), value: 12 },
            Payout { to: a(5), value: 60 },
        ]
    );
    let total: u128 = r.payouts.iter().map(|p| p.value).sum();
    assert_eq!(total, 100);
    let owned = match nft.state(NOW, StateQuery::OwnerTokens { owner: a(5) }) {
        Ok(StateReply::OwnerTokens(Some(mut v))) => {
            v.sort();
            v
        }
        other => panic!("unexpected reply {:?}", other),
    };
    assert_eq!(owned, vec![0, 1, 2, 3]);
}

#[test]
fn free_sale_moves_no_value() {
    let mut nft = ledger(10, 5, 0, 0, 0);
    let r = nft.handle(a(5), 0, NOW, NftAction::Buy { amount: 1 }).unwrap();
    assert!(r.payouts.is_empty());
}

#[test]
fn saturating_product_clamps() {
    assert_eq!(saturating_mul(u128::MAX, 2), u128::MAX);
    assert_eq!(saturating_mul(6, 7), 42);
    assert_eq!(saturating_mul(0, u128::MAX), 0);
}

#[test]
fn reserve_needs_administrator() {
    let mut open = ledger(10, 5, 1, 1, 0);
    assert_eq!(act(&mut open, 5, NftAction::Reserve { amount: 1 }), Err(DropspaceNftErr::Unauthorized));
    let mut closed = ledger(10, 5, 1, 1, 10_000);
    assert_eq!(act(&mut closed, 5, NftAction::Reserve { amount: 1 }), Err(DropspaceNftErr::Unauthorized));
    assert_eq!(act(&mut closed, 1, NftAction::Reserve { amount: 1 }), Err(DropspaceNftErr::SaleInactive));
    assert_eq!(
        act(&mut open, 1, NftAction::Reserve { amount: 2 }),
        Ok(NftEvent::Reserved { to: a(1), amount: 2 })
    );
    assert_eq!(State::from(&open).owner_by_id, vec![(0, a(1)), (1, a(1))]);
}

#[test]
fn identifiers_are_never_reused() {
    let mut nft = ledger(10, 5, 0, 0, 0);
    assert!(act(&mut nft, 5, NftAction::Buy { amount: 2 }).is_ok());
    assert!(act(&mut nft, 5, NftAction::Burn { token_id: 1 }).is_ok());
    assert!(act(&mut nft, 6, NftAction::Buy { amount: 1 }).is_ok());
    let s = State::from(&nft);
    assert_eq!(s.owner_by_id, vec![(0, a(5)), (2, a(6))]);
    assert_eq!(s.token_id, 3);
}

#[test]
fn indexes_stay_inverse() {
    let mut nft = ledger(10, 5, 0, 0, 0);
    assert!(act(&mut nft, 5, NftAction::Buy { amount: 3 }).is_ok());
    assert!(act(&mut nft, 5, NftAction::Transfer { to: a(6), token_id: 1 }).is_ok());
    assert!(act(&mut nft, 5, NftAction::Transfer { to: a(5), token_id: 0 }).is_ok());
    assert!(act(&mut nft, 5, NftAction::Burn { token_id: 2 }).is_ok());
    let s = State::from(&nft);
    assert_eq!(s.owner_by_id, vec![(0, a(5)), (1, a(6))]);
    for (owner, tokens) in &s.tokens_for_owner {
        assert!(!tokens.is_empty());
        for t in tokens {
            assert!(s.owner_by_id.contains(&(*t, *owner)));
        }
    }
    for (t, owner) in &s.owner_by_id {
        assert!(s.tokens_for_owner.iter().any(|(o, ts)| o == owner && ts.contains(t)));
    }
    assert_eq!(s.tokens_for_owner.len(), 2);
}

#[test]
fn approval_cleared_by_transfer_and_burn() {
    let mut nft = ledger(10, 5, 0, 0, 0);
    assert!(act(&mut nft, 5, NftAction::Buy { amount: 2 }).is_ok());
    assert!(act(&mut nft, 5, NftAction::Approve { to: a(7), token_id: 0 }).is_ok());
    assert_eq!(act(&mut nft, 5, NftAction::Approve { to: a(8), token_id: 0 }), Err(DropspaceNftErr::ApprovalExists));
    assert_eq!(approval(&nft, 0), Ok(Some(a(7))));
    assert!(act(&mut nft, 5, NftAction::Transfer { to: a(6), token_id: 0 }).is_ok());
    assert_eq!(approval(&nft, 0), Ok(None));
    assert_eq!(act(&mut nft, 7, NftAction::Transfer { to: a(7), token_id: 0 }), Err(DropspaceNftErr::Unauthorized));
    assert!(act(&mut nft, 5, NftAction::Approve { to: a(7), token_id: 1 }).is_ok());
    assert!(act(&mut nft, 5, NftAction::Burn { token_id: 1 }).is_ok());
    assert_eq!(approval(&nft, 1), Ok(None));
    assert_eq!(
        act(&mut nft, 7, NftAction::CheckIfApproved { to: a(7), token_id: 1 }),
        Err(DropspaceNftErr::NotFound)
    );
}

#[test]
fn approved_spender_moves_token_once() {
    let mut nft = ledger(10, 5, 0, 0, 0);
    assert!(act(&mut nft, 5, NftAction::Buy { amount: 1 }).is_ok());
    assert!(act(&mut nft, 5, NftAction::Approve { to: a(7), token_id: 0 }).is_ok());
    assert_eq!(
        act(&mut nft, 7, NftAction::Transfer { to: a(8), token_id: 0 }),
        Ok(NftEvent::Transferred { from: a(5), to: a(8), token_id: 0 })
    );
    assert_eq!(act(&mut nft, 7, NftAction::Transfer { to: a(7), token_id: 0 }), Err(DropspaceNftErr::Unauthorized));
}

#[test]
fn rejected_requests_change_nothing() {
    let mut nft = ledger(2, 5, 1, 1, 0);
    assert!(nft.handle(a(5), 2, NOW, NftAction::Buy { amount: 1 }).is_ok());
    assert!(act(&mut nft, 5, NftAction::Approve { to: a(7), token_id: 0 }).is_ok());
    let before = State::from(&nft);
    let failing = vec![
        NftAction::Buy { amount: 1 },
        NftAction::Buy { amount: 2 },
        NftAction::Reserve { amount: 1 },
        NftAction::Burn { token_id: 0 },
        NftAction::Transfer { to: a(0), token_id: 0 },
        NftAction::Approve { to: a(8), token_id: 0 },
        NftAction::SetName { name: String::from("X") },
        NftAction::SetSupplyLimit { supply_limit: 0 },
        NftAction::ToggleSaleActive,
    ];
    for action in failing {
        assert!(nft.handle(a(6), 0, NOW, action).is_err());
        assert_eq!(State::from(&nft), before);
    }
}

#[test]
fn toggle_flips_reported_status() {
    let mut nft = ledger(10, 5, 0, 0, 0);
    assert_eq!(act(&mut nft, 1, NftAction::ToggleSaleActive), Ok(NftEvent::SaleActiveChanged { sale_active: false }));
    assert_eq!(nft.state(NOW, StateQuery::SaleActive), Ok(StateReply::SaleActive(false)));
    assert_eq!(act(&mut nft, 1, NftAction::ToggleSaleActive), Ok(NftEvent::SaleActiveChanged { sale_active: true }));
    assert_eq!(nft.state(NOW, StateQuery::SaleActive), Ok(StateReply::SaleActive(true)));
    // a future start time is lost once toggled
    let mut later = ledger(10, 5, 0, 0, 900);
    assert_eq!(act(&mut later, 1, NftAction::ToggleSaleActive), Ok(NftEvent::SaleActiveChanged { sale_active: true }));
    assert_eq!(later.config.sale_time, 0);
}

#[test]
fn metadata_names_and_references() {
    let mut nft = ledger(20, 20, 0, 0, 0);
    assert!(act(&mut nft, 5, NftAction::Buy { amount: 11 }).is_ok());
    let s = State::from(&nft);
    assert_eq!(s.token_metadata_by_id[0].1.name, "0");
    assert_eq!(s.token_metadata_by_id[10].1.name, "10");
    assert_eq!(s.token_metadata_by_id[10].1.reference, "");
    match nft.state(NOW, StateQuery::TokenMetadata { token_id: 10 }) {
        Ok(StateReply::TokenMetadata(Some(m))) => {
            assert_eq!(m.name, "10");
            assert_eq!(m.reference, "ipfs://base/10");
            assert_eq!(m.description, "");
        }
        other => panic!("unexpected reply {:?}", other),
    }
    assert_eq!(nft.state(NOW, StateQuery::TokenMetadata { token_id: 11 }), Err(DropspaceNftErr::NotFound));
}

#[test]
fn queries_report_current_state() {
    let mut nft = ledger(20, 20, 0, 0, 0);
    assert_eq!(nft.state(NOW, StateQuery::OwnerTokens { owner: a(5) }), Ok(StateReply::OwnerTokens(None)));
    assert!(act(&mut nft, 5, NftAction::Buy { amount: 1 }).is_ok());
    assert_eq!(nft.state(NOW, StateQuery::OwnerById { token_id: 0 }), Ok(StateReply::OwnerById(Some(a(5)))));
    assert_eq!(nft.state(NOW, StateQuery::OwnerById { token_id: 1 }), Ok(StateReply::OwnerById(None)));
    assert_eq!(nft.state(NOW, StateQuery::Owner), Ok(StateReply::Owner(a(1))));
    assert_eq!(nft.state(NOW, StateQuery::CurrentTokenId), Ok(StateReply::CurrentTokenId(1)));
    match nft.state(NOW, StateQuery::ProgramInfo) {
        Ok(StateReply::ProgramInfo(info)) => {
            assert_eq!(info.total_supply, 1);
            assert_eq!(info.token_id, 1);
            assert!(info.sale_active);
            assert_eq!(info.config.supply_limit, 20);
        }
        other => panic!("unexpected reply {:?}", other),
    }
    match nft.state(NOW, StateQuery::Collection) {
        Ok(StateReply::Collection(c)) => assert_eq!(c.base_uri, "ipfs://base/"),
        other => panic!("unexpected reply {:?}", other),
    }
}

#[test]
fn transfer_to_self_keeps_ownership() {
    let mut nft = ledger(20, 20, 0, 0, 0);
    assert!(act(&mut nft, 5, NftAction::Buy { amount: 1 }).is_ok());
    assert!(act(&mut nft, 5, NftAction::Transfer { to: a(5), token_id: 0 }).is_ok());
    let s = State::from(&nft);
    assert_eq!(s.owner_by_id, vec![(0, a(5))]);
    assert_eq!(s.tokens_for_owner, vec![(a(5), vec![0])]);
}
