use nft::{
    ActorId, Collection, Config, DropspaceNftErr, InitNft, Nft, NftAction, NftEvent, Payout,
    StateQuery, StateReply, TokenMetadata, SALE_TIME_MAX,
};

const USERS: &[u64] = &[3, 4, 5, 6, 7];
const ZERO_ID: u64 = 0;
const NOW: u64 = 1_700_000_000;

fn user(i: usize) -> ActorId {
    ActorId::from_u64(USERS[i])
}

fn id(v: u64) -> ActorId {
    ActorId::from_u64(v)
}

fn collection(symbol: &str) -> Collection {
    Collection {
        name: String::from("MyToken"),
        description: String::from("My token"),
        symbol: String::from(symbol),
        base_uri: String::from("https://mynft-test.com/"),
    }
}

fn init_nft() -> Nft {
    let init = InitNft {
        collection: collection("My Symbol"),
        config: Config {
            supply_limit: 100,
            mint_price: 2_000_000_000_000,
            mint_fee: 1_000_000_000_000,
            dev_wallet: user(3),
            withdraw_wallet: user(4),
            mint_limit: 50,
            sale_time: 0,
        },
    };
    Nft::new(init, user(0))
}

fn init_nft_airdrop() -> Nft {
    let init = InitNft {
        collection: collection("My Symbol"),
        config: Config {
            supply_limit: 100,
            mint_price: 0,
            mint_fee: 0,
            dev_wallet: user(3),
            withdraw_wallet: user(4),
            mint_limit: 5,
            sale_time: 0,
        },
    };
    Nft::new(init, user(0))
}

fn required_funds(nft: &Nft, amount: u128) -> u128 {
    nft.config
        .mint_price
        .saturating_mul(amount)
        .saturating_add(nft.config.mint_fee.saturating_mul(amount))
}

/// Buys `amount` tokens for `member`, paying exactly what they cost.
fn buy(nft: &mut Nft, member: ActorId, amount: u128) -> Result<nft::Reply, DropspaceNftErr> {
    let value = required_funds(nft, amount);
    nft.handle(member, value, NOW, NftAction::Buy { amount })
}

/// Mints one token to `to` through a paid purchase.
fn mint(nft: &mut Nft, to: ActorId) -> Result<nft::Reply, DropspaceNftErr> {
    buy(nft, to, 1)
}

fn send(nft: &mut Nft, from: ActorId, action: NftAction) -> Result<NftEvent, DropspaceNftErr> {
    nft.handle(from, 0, NOW, action).map(|r| r.event)
}

fn owner_of_pairs(nft: &Nft) -> Vec<(u128, ActorId)> {
    nft::State::from(nft).owner_by_id
}

fn tokens_for_owner(nft: &Nft) -> Vec<(ActorId, Vec<u128>)> {
    nft::State::from(nft).tokens_for_owner
}

fn program_info(nft: &Nft, now: u64) -> nft::ProgramInfo {
    match nft.state(now, StateQuery::ProgramInfo) {
        Ok(StateReply::ProgramInfo(info)) => info,
        other => panic!("unexpected reply {:?}", other),
    }
}

fn token_meta(nft: &Nft, token_id: u128) -> Option<TokenMetadata> {
    match nft.state(NOW, StateQuery::TokenMetadata { token_id }) {
        Ok(StateReply::TokenMetadata(m)) => m,
        _ => None,
    }
}

#[test]
fn mint_success() {
    let mut nft = init_nft();
    let res = mint(&mut nft, user(1)).expect("mint failed");
    assert_eq!(res.event, NftEvent::Bought { to: user(1), amount: 1 });
    assert_eq!(owner_of_pairs(&nft), vec![(0_u128, user(1))]);
    assert_eq!(tokens_for_owner(&nft), vec![(user(1), vec![0])]);
}

#[test]
fn mint_failures() {
    let init = InitNft {
        collection: Collection {
            name: String::from("MyToken"),
            description: String::from("My token"),
            symbol: String::from("My token"),
            base_uri: String::from("https://mynft-test.com/"),
        },
        config: Config {
            supply_limit: 1,
            mint_price: 2,
            mint_fee: 1,
            dev_wallet: user(3),
            withdraw_wallet: user(4),
            mint_limit: 1,
            sale_time: 0,
        },
    };
    let mut nft = Nft::new(init, user(0));
    // zero address
    assert_eq!(mint(&mut nft, id(ZERO_ID)).unwrap_err(), DropspaceNftErr::InvalidCaller);
    // limit exceeded
    assert!(mint(&mut nft, user(1)).is_ok());
    assert_eq!(mint(&mut nft, user(1)).unwrap_err(), DropspaceNftErr::MintClosed);
}

#[test]
fn burn_success() {
    let mut nft = init_nft();
    assert!(mint(&mut nft, user(1)).is_ok());
    let res = send(&mut nft, user(1), NftAction::Burn { token_id: 0 });
    assert_eq!(res, Ok(NftEvent::Burnt { token_id: 0 }));
    assert!(owner_of_pairs(&nft).is_empty());
    assert!(tokens_for_owner(&nft).is_empty());
}

#[test]
fn burn_failures() {
    let mut nft = init_nft();
    assert!(mint(&mut nft, user(1)).is_ok());
    // the token does not exist
    assert_eq!(send(&mut nft, user(1), NftAction::Burn { token_id: 1 }), Err(DropspaceNftErr::NotFound));
    // the caller is not the token owner
    assert_eq!(
        send(&mut nft, user(0), NftAction::Burn { token_id: 0 }),
        Err(DropspaceNftErr::Unauthorized)
    );
}

#[test]
fn transfer_success() {
    let mut nft = init_nft();
    assert!(mint(&mut nft, user(1)).is_ok());
    let res = send(&mut nft, user(1), NftAction::Transfer { to: user(2), token_id: 0 });
    assert_eq!(res, Ok(NftEvent::Transferred { from: user(1), to: user(2), token_id: 0 }));
    assert_eq!(owner_of_pairs(&nft), vec![(0_u128, user(2))]);
    assert_eq!(tokens_for_owner(&nft), vec![(user(2), vec![0])]);
}

#[test]
fn transfer_failures() {
    let mut nft = init_nft();
    assert!(mint(&mut nft, user(1)).is_ok());
    // the token does not exist
    assert_eq!(
        send(&mut nft, user(1), NftAction::Transfer { to: user(2), token_id: 1 }),
        Err(DropspaceNftErr::NotFound)
    );
    // the caller is not the token owner
    assert_eq!(
        send(&mut nft, user(0), NftAction::Transfer { to: user(2), token_id: 0 }),
        Err(DropspaceNftErr::Unauthorized)
    );
    // transfer to the zero address
    assert_eq!(
        send(&mut nft, user(1), NftAction::Transfer { to: id(ZERO_ID), token_id: 0 }),
        Err(DropspaceNftErr::InvalidRecipient)
    );
}

#[test]
fn approve_success() {
    let mut nft = init_nft();
    assert!(mint(&mut nft, user(1)).is_ok());
    let res = send(&mut nft, user(1), NftAction::Approve { to: user(2), token_id: 0 });
    assert_eq!(
        res,
        Ok(NftEvent::Approved { owner: user(1), approved_account: user(2), token_id: 0 })
    );
    assert_eq!(nft::State::from(&nft).token_approvals, vec![(0_u128, user(2))]);
    assert!(send(&mut nft, user(2), NftAction::Transfer { to: user(0), token_id: 0 }).is_ok());
    assert!(nft::State::from(&nft).token_approvals.is_empty());
}

#[test]
fn approve_failures() {
    let mut nft = init_nft();
    assert!(mint(&mut nft, user(1)).is_ok());
    // the token does not exist
    assert_eq!(
        send(&mut nft, user(1), NftAction::Approve { to: user(2), token_id: 1 }),
        Err(DropspaceNftErr::NotFound)
    );
    // the caller is not the token owner
    assert_eq!(
        send(&mut nft, user(0), NftAction::Approve { to: user(2), token_id: 0 }),
        Err(DropspaceNftErr::Unauthorized)
    );
    // approval to the zero address
    assert_eq!(
        send(&mut nft, user(1), NftAction::Approve { to: id(ZERO_ID), token_id: 0 }),
        Err(DropspaceNftErr::InvalidRecipient)
    );
    assert!(send(&mut nft, user(1), NftAction::Approve { to: user(2), token_id: 0 }).is_ok());
    assert!(send(&mut nft, user(1), NftAction::Transfer { to: user(0), token_id: 0 }).is_ok());
    // the approval was removed by the transfer
    assert_eq!(
        send(&mut nft, user(2), NftAction::Transfer { to: user(0), token_id: 0 }),
        Err(DropspaceNftErr::Unauthorized)
    );
}

#[test]
fn owner_success() {
    let mut nft = init_nft();
    assert!(mint(&mut nft, user(1)).is_ok());
    let res = send(&mut nft, user(1), NftAction::GetOwner { token_id: 0 });
    assert_eq!(res, Ok(NftEvent::Owner { token_id: 0, owner: user(1) }));
}

#[test]
fn owner_failure() {
    let mut nft = init_nft();
    assert!(mint(&mut nft, user(1)).is_ok());
    let res = send(&mut nft, user(1), NftAction::GetOwner { token_id: 1 });
    assert_eq!(res, Err(DropspaceNftErr::NotFound));
}

#[test]
fn is_approved_to_success() {
    let mut nft = init_nft();
    assert!(mint(&mut nft, user(1)).is_ok());
    assert!(send(&mut nft, user(1), NftAction::Approve { to: user(2), token_id: 0 }).is_ok());
    let res = send(&mut nft, user(0), NftAction::CheckIfApproved { to: user(2), token_id: 0 });
    assert_eq!(res, Ok(NftEvent::CheckIfApproved { to: user(2), token_id: 0, approved: true }));
}

#[test]
fn is_approved_to_failure() {
    let mut nft = init_nft();
    assert!(mint(&mut nft, user(1)).is_ok());
    assert!(send(&mut nft, user(1), NftAction::Approve { to: user(2), token_id: 0 }).is_ok());
    let res = send(&mut nft, user(1), NftAction::CheckIfApproved { to: user(2), token_id: 1 });
    assert_eq!(res, Err(DropspaceNftErr::NotFound));
}

#[test]
fn test_set_name() {
    let mut nft = init_nft();
    let new_name = "New Name".to_string();
    let res = send(&mut nft, user(0), NftAction::SetName { name: new_name.clone() });
    assert_eq!(res, Ok(NftEvent::NameChanged { name: new_name.clone() }));
    assert_eq!(nft::State::from(&nft).collection.name, new_name);
    // not authorized
    let res = send(&mut nft, user(1), NftAction::SetName { name: new_name.clone() });
    assert_eq!(res, Err(DropspaceNftErr::Unauthorized));
}

#[test]
fn test_set_description() {
    let mut nft = init_nft();
    let new_description = "New Description".to_string();
    let res = send(
        &mut nft,
        user(0),
        NftAction::SetDescription { description: new_description.clone() },
    );
    assert_eq!(res, Ok(NftEvent::DescriptionChanged { description: new_description.clone() }));
    assert_eq!(nft::State::from(&nft).collection.description, new_description);
    let res = send(
        &mut nft,
        user(1),
        NftAction::SetDescription { description: new_description.clone() },
    );
    assert_eq!(res, Err(DropspaceNftErr::Unauthorized));
}

#[test]
fn test_set_symbol() {
    let mut nft = init_nft();
    let new_symbol = "New symbol".to_string();
    let res = send(&mut nft, user(0), NftAction::SetSymbol { symbol: new_symbol.clone() });
    assert_eq!(res, Ok(NftEvent::SymbolChanged { symbol: new_symbol.clone() }));
    assert_eq!(nft::State::from(&nft).collection.symbol, new_symbol);
    let res = send(&mut nft, user(1), NftAction::SetSymbol { symbol: new_symbol.clone() });
    assert_eq!(res, Err(DropspaceNftErr::Unauthorized));
}

#[test]
fn test_set_base_uri() {
    let mut nft = init_nft();
    let new_base_uri = "https://new-base.com".to_string();
    let res = send(&mut nft, user(0), NftAction::SetBaseUri { base_uri: new_base_uri.clone() });
    assert_eq!(res, Ok(NftEvent::BaseUriChanged { base_uri: new_base_uri.clone() }));
    assert_eq!(nft::State::from(&nft).collection.base_uri, new_base_uri);
    let res = send(&mut nft, user(1), NftAction::SetBaseUri { base_uri: new_base_uri.clone() });
    assert_eq!(res, Err(DropspaceNftErr::Unauthorized));
}

#[test]
fn test_set_withdraw_wallet() {
    let mut nft = init_nft();
    let new_withdraw_wallet = user(4);
    let res = send(
        &mut nft,
        user(0),
        NftAction::SetWithdrawWallet { withdraw_wallet: new_withdraw_wallet },
    );
    assert_eq!(res, Ok(NftEvent::WithdrawWalletChanged { withdraw_wallet: new_withdraw_wallet }));
    assert_eq!(nft::State::from(&nft).config.withdraw_wallet, new_withdraw_wallet);
    let res = send(
        &mut nft,
        user(1),
        NftAction::SetWithdrawWallet { withdraw_wallet: new_withdraw_wallet },
    );
    assert_eq!(res, Err(DropspaceNftErr::Unauthorized));
}

#[test]
fn test_set_supply_limit() {
    let mut nft = init_nft();
    let new_supply_limit = 101;
    let res = send(&mut nft, user(0), NftAction::SetSupplyLimit { supply_limit: new_supply_limit });
    assert_eq!(res, Ok(NftEvent::SupplyLimitChanged { supply_limit: new_supply_limit }));
    assert_eq!(nft::State::from(&nft).config.supply_limit, new_supply_limit);
    let res = send(&mut nft, user(1), NftAction::SetSupplyLimit { supply_limit: new_supply_limit });
    assert_eq!(res, Err(DropspaceNftErr::Unauthorized));
}

#[test]
fn test_set_mint_limit() {
    let mut nft = init_nft();
    let new_mint_limit = 101;
    let res = send(&mut nft, user(0), NftAction::SetMintLimit { mint_limit: new_mint_limit });
    assert_eq!(res, Ok(NftEvent::MintLimitChanged { mint_limit: new_mint_limit }));
    assert_eq!(nft::State::from(&nft).config.mint_limit, new_mint_limit);
    let res = send(&mut nft, user(1), NftAction::SetMintLimit { mint_limit: new_mint_limit });
    assert_eq!(res, Err(DropspaceNftErr::Unauthorized));
}

#[test]
fn test_set_mint_price() {
    let mut nft = init_nft();
    let new_mint_price = 101;
    let res = send(&mut nft, user(0), NftAction::SetMintPrice { mint_price: new_mint_price });
    assert_eq!(res, Ok(NftEvent::MintPriceChanged { mint_price: new_mint_price }));
    assert_eq!(nft::State::from(&nft).config.mint_price, new_mint_price);
    let res = send(&mut nft, user(1), NftAction::SetMintPrice { mint_price: new_mint_price });
    assert_eq!(res, Err(DropspaceNftErr::Unauthorized));
}

#[test]
fn test_set_sale_time() {
    let mut nft = init_nft();
    let new_sale_time = 1719561334;
    let now = 1000;
    let res = nft
        .handle(user(0), 0, now, NftAction::SetSaleTime { sale_time: new_sale_time })
        .map(|r| r.event);
    assert_eq!(
        res,
        Ok(NftEvent::SaleTimeChanged { sale_time: new_sale_time, sale_active: new_sale_time <= now })
    );
    assert_eq!(nft::State::from(&nft).config.sale_time, new_sale_time);
    let res = nft.handle(user(1), 0, now, NftAction::SetSaleTime { sale_time: new_sale_time });
    assert_eq!(res.unwrap_err(), DropspaceNftErr::Unauthorized);
}

#[test]
fn test_toggle_sale_active() {
    let mut nft = init_nft();
    // sale open from the start
    assert!(send(&mut nft, user(0), NftAction::SetSaleTime { sale_time: 0 }).is_ok());
    assert_eq!(nft::State::from(&nft).config.sale_time, 0);
    // first toggle closes it
    assert_eq!(
        send(&mut nft, user(0), NftAction::ToggleSaleActive),
        Ok(NftEvent::SaleActiveChanged { sale_active: false })
    );
    assert_eq!(program_info(&nft, NOW).sale_active, false);
    assert_eq!(nft.config.sale_time, SALE_TIME_MAX);
    // second toggle opens it again
    assert_eq!(
        send(&mut nft, user(0), NftAction::ToggleSaleActive),
        Ok(NftEvent::SaleActiveChanged { sale_active: true })
    );
    assert_eq!(program_info(&nft, NOW).sale_active, true);
    assert_eq!(nft.config.sale_time, 0);
    // not authorized
    assert_eq!(
        send(&mut nft, user(1), NftAction::SetSaleTime { sale_time: 0 }),
        Err(DropspaceNftErr::Unauthorized)
    );
}

#[test]
fn test_buy() {
    let mut nft = init_nft();
    let qty = 10;
    let required = required_funds(&nft, qty);
    let res = nft.handle(user(0), required, NOW, NftAction::Buy { amount: qty }).unwrap();
    assert_eq!(res.event, NftEvent::Bought { to: user(0), amount: qty });
    let info = program_info(&nft, NOW);
    // the buyer pays price and fee, nothing comes back
    assert_eq!(
        required,
        info.config.mint_price.saturating_mul(qty) + info.config.mint_fee.saturating_mul(qty)
    );
    // the developer wallet gets the fee, the withdrawal wallet the price
    assert_eq!(
        res.payouts,
        vec![
            Payout { to: user(4), value: info.config.mint_price.saturating_mul(qty) },
            Payout { to: user(3), value: info.config.mint_fee.saturating_mul(qty) },
        ]
    );
    assert_eq!(info.total_supply, 10);
}

#[test]
fn test_read_token_metadata() {
    let mut nft = init_nft_airdrop();
    let res = buy(&mut nft, user(0), 2).unwrap();
    assert_eq!(res.event, NftEvent::Bought { to: user(0), amount: 2 });
    assert!(res.payouts.is_empty());
    let m = token_meta(&nft, 0).expect("missing metadata");
    assert!(m.reference == String::from("https://mynft-test.com/0"));
    let m = token_meta(&nft, 1).expect("missing metadata");
    assert!(m.reference == String::from("https://mynft-test.com/1"));
}
