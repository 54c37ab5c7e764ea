use vstd::prelude::*;
use crate::admin::SALE_TIME_MAX;
use crate::ledger::Nft;
use crate::sale::{minted_batch, required_payment};
use crate::types::{
    zero_id, ActorId, Collection, Config, DropspaceNftErr, NftAction, NftEvent, Reply, TokenId,
};

verus! {

/// The event of a reply, or its error.
pub open spec fn event_of(r: Result<Reply, DropspaceNftErr>) -> Result<NftEvent, DropspaceNftErr> {
    match r {
        Ok(reply) => Ok(reply.event),
        Err(e) => Err(e),
    }
}

/// What `caller` burning `token_id` gives.
pub open spec fn burn_outcome(n: &Nft, caller: ActorId, token_id: TokenId) -> Result<
    NftEvent,
    DropspaceNftErr,
> {
    if !n.minted(token_id) {
        Err(DropspaceNftErr::NotFound)
    } else if !n.owns(caller, token_id) {
        Err(DropspaceNftErr::Unauthorized)
    } else {
        Ok(NftEvent::Burnt { token_id })
    }
}

/// `new` is `old` with `token_id` gone from every index.
pub open spec fn burnt(old: &Nft, new: &Nft, token_id: TokenId) -> bool {
    &&& new.owner_by_id@ == old.owner_by_id@.remove(token_id)
    &&& new.token_approvals@ == old.token_approvals@.remove(token_id)
    &&& new.token_metadata_by_id@ == old.token_metadata_by_id@.remove(token_id)
    &&& new.same_settings(old)
}

/// What `caller` moving `token_id` to `to` gives.
pub open spec fn transfer_outcome(n: &Nft, caller: ActorId, to: ActorId, token_id: TokenId) -> Result<
    NftEvent,
    DropspaceNftErr,
> {
    if !n.minted(token_id) {
        Err(DropspaceNftErr::NotFound)
    } else if !n.may_transfer(caller, token_id, n.owner_by_id@[token_id]) {
        Err(DropspaceNftErr::Unauthorized)
    } else if to == zero_id() {
        Err(DropspaceNftErr::InvalidRecipient)
    } else {
        Ok(NftEvent::Transferred { from: n.owner_by_id@[token_id], to, token_id })
    }
}

/// `new` is `old` with `token_id` owned by `to` and its approval cleared.
pub open spec fn transferred(old: &Nft, new: &Nft, to: ActorId, token_id: TokenId) -> bool {
    &&& new.owner_by_id@ == old.owner_by_id@.insert(token_id, to)
    &&& new.token_approvals@ == old.token_approvals@.remove(token_id)
    &&& new.token_metadata_by_id@ == old.token_metadata_by_id@
    &&& new.same_settings(old)
}

/// What `caller` approving `to` for `token_id` gives.
pub open spec fn approve_outcome(n: &Nft, caller: ActorId, to: ActorId, token_id: TokenId) -> Result<
    NftEvent,
    DropspaceNftErr,
> {
    if !n.minted(token_id) {
        Err(DropspaceNftErr::NotFound)
    } else if !n.owns(caller, token_id) {
        Err(DropspaceNftErr::Unauthorized)
    } else if to == zero_id() {
        Err(DropspaceNftErr::InvalidRecipient)
    } else if n.token_approvals@.contains_key(token_id) {
        Err(DropspaceNftErr::ApprovalExists)
    } else {
        Ok(NftEvent::Approved { owner: caller, approved_account: to, token_id })
    }
}

/// `new` is `old` with `to` approved for `token_id`.
pub open spec fn approved(old: &Nft, new: &Nft, to: ActorId, token_id: TokenId) -> bool {
    &&& new.token_approvals@ == old.token_approvals@.insert(token_id, to)
    &&& new.owner_by_id@ == old.owner_by_id@
    &&& new.token_metadata_by_id@ == old.token_metadata_by_id@
    &&& new.tokens_for_owner == old.tokens_for_owner
    &&& new.same_settings(old)
}

/// The owner of `token_id`, as an event.
pub open spec fn owner_outcome(n: &Nft, token_id: TokenId) -> Result<NftEvent, DropspaceNftErr> {
    if n.minted(token_id) {
        Ok(NftEvent::Owner { owner: n.owner_by_id@[token_id], token_id })
    } else {
        Err(DropspaceNftErr::NotFound)
    }
}

/// Whether `to` is approved for `token_id`, as an event.
pub open spec fn approval_check_outcome(n: &Nft, to: ActorId, token_id: TokenId) -> Result<
    NftEvent,
    DropspaceNftErr,
> {
    if n.minted(token_id) {
        Ok(
            NftEvent::CheckIfApproved {
                to,
                token_id,
                approved: n.token_approvals@.contains_key(token_id) && n.token_approvals@[token_id]
                    == to,
            },
        )
    } else {
        Err(DropspaceNftErr::NotFound)
    }
}

/// An administrator-only request that reports `event`.
pub open spec fn admin_outcome(n: &Nft, caller: ActorId, event: NftEvent) -> Result<
    NftEvent,
    DropspaceNftErr,
> {
    if caller == n.owner {
        Ok(event)
    } else {
        Err(DropspaceNftErr::Unauthorized)
    }
}

/// `new` is `old` with the collection record replaced by `c`.
pub open spec fn collection_set(old: &Nft, new: &Nft, c: Collection) -> bool {
    &&& new.collection == c
    &&& new.config == old.config
    &&& new.owner == old.owner
    &&& new.same_tokens(old)
}

/// `new` is `old` with the configuration replaced by `cfg`.
pub open spec fn config_set(old: &Nft, new: &Nft, cfg: Config) -> bool {
    &&& new.config == cfg
    &&& new.collection == old.collection
    &&& new.owner == old.owner
    &&& new.same_tokens(old)
}

/// The sale time a toggle at `now` leaves behind.
pub open spec fn toggled_sale_time(n: &Nft, now: u64) -> u64 {
    if n.sale_open(now) {
        SALE_TIME_MAX
    } else {
        0
    }
}

/// What a purchase of `amount` tokens by `caller` with `value` attached gives.
pub open spec fn buy_outcome(n: &Nft, caller: ActorId, value: u128, now: u64, amount: u128) -> Result<
    NftEvent,
    DropspaceNftErr,
> {
    match n.mint_rejection(caller, now, amount) {
        Some(e) => Err(e),
        None => if value < required_payment(n.config.mint_price, n.config.mint_fee, amount) {
            Err(DropspaceNftErr::InsufficientFunds)
        } else {
            Ok(NftEvent::Bought { to: caller, amount })
        },
    }
}

/// What the administrator's reservation of `amount` tokens gives.
pub open spec fn reserve_outcome(n: &Nft, caller: ActorId, now: u64, amount: u128) -> Result<
    NftEvent,
    DropspaceNftErr,
> {
    if caller != n.owner {
        Err(DropspaceNftErr::Unauthorized)
    } else {
        match n.mint_rejection(caller, now, amount) {
            Some(e) => Err(e),
            None => Ok(NftEvent::Reserved { to: caller, amount }),
        }
    }
}

/// The result of serving `action` from `caller`, with `value` attached, at
/// `now`: the result of the operation the request names.
pub open spec fn request_outcome(n: &Nft, caller: ActorId, value: u128, now: u64, action: NftAction) -> Result<
    NftEvent,
    DropspaceNftErr,
> {
    match action {
        NftAction::Buy { amount } => buy_outcome(n, caller, value, now, amount),
        NftAction::Reserve { amount } => reserve_outcome(n, caller, now, amount),
        NftAction::Burn { token_id } => burn_outcome(n, caller, token_id),
        NftAction::Transfer { to, token_id } => transfer_outcome(n, caller, to, token_id),
        NftAction::Approve { to, token_id } => approve_outcome(n, caller, to, token_id),
        NftAction::GetOwner { token_id } => owner_outcome(n, token_id),
        NftAction::CheckIfApproved { to, token_id } => approval_check_outcome(n, to, token_id),
        NftAction::SetName { name } => admin_outcome(n, caller, NftEvent::NameChanged { name }),
        NftAction::SetDescription { description } => admin_outcome(
            n,
            caller,
            NftEvent::DescriptionChanged { description },
        ),
        NftAction::SetSymbol { symbol } => admin_outcome(n, caller, NftEvent::SymbolChanged { symbol }),
        NftAction::SetBaseUri { base_uri } => admin_outcome(
            n,
            caller,
            NftEvent::BaseUriChanged { base_uri },
        ),
        NftAction::SetWithdrawWallet { withdraw_wallet } => admin_outcome(
            n,
            caller,
            NftEvent::WithdrawWalletChanged { withdraw_wallet },
        ),
        NftAction::SetSupplyLimit { supply_limit } => admin_outcome(
            n,
            caller,
            NftEvent::SupplyLimitChanged { supply_limit },
        ),
        NftAction::SetMintLimit { mint_limit } => admin_outcome(
            n,
            caller,
            NftEvent::MintLimitChanged { mint_limit },
        ),
        NftAction::SetMintPrice { mint_price } => admin_outcome(
            n,
            caller,
            NftEvent::MintPriceChanged { mint_price },
        ),
        NftAction::SetSaleTime { sale_time } => admin_outcome(
            n,
            caller,
            NftEvent::SaleTimeChanged { sale_time, sale_active: sale_time <= now },
        ),
        NftAction::ToggleSaleActive => admin_outcome(
            n,
            caller,
            NftEvent::SaleActiveChanged { sale_active: !n.sale_open(now) },
        ),
    }
}

/// How a successful `action` from `caller` at `now` changes `old` into `new`.
pub open spec fn request_effect(old: &Nft, new: &Nft, caller: ActorId, now: u64, action: NftAction) -> bool {
    match action {
        NftAction::Buy { amount } => minted_batch(old, new, caller, amount),
        NftAction::Reserve { amount } => minted_batch(old, new, caller, amount),
        NftAction::Burn { token_id } => burnt(old, new, token_id),
        NftAction::Transfer { to, token_id } => transferred(old, new, to, token_id),
        NftAction::Approve { to, token_id } => approved(old, new, to, token_id),
        NftAction::GetOwner { .. } => *new == *old,
        NftAction::CheckIfApproved { .. } => *new == *old,
        NftAction::SetName { name } => collection_set(old, new, Collection { name, ..old.collection }),
        NftAction::SetDescription { description } => collection_set(
            old,
            new,
            Collection { description, ..old.collection },
        ),
        NftAction::SetSymbol { symbol } => collection_set(old, new, Collection { symbol, ..old.collection }),
        NftAction::SetBaseUri { base_uri } => collection_set(
            old,
            new,
            Collection { base_uri, ..old.collection },
        ),
        NftAction::SetWithdrawWallet { withdraw_wallet } => config_set(
            old,
            new,
            Config { withdraw_wallet, ..old.config },
        ),
        NftAction::SetSupplyLimit { supply_limit } => config_set(old, new, Config { supply_limit, ..old.config }),
        NftAction::SetMintLimit { mint_limit } => config_set(old, new, Config { mint_limit, ..old.config }),
        NftAction::SetMintPrice { mint_price } => config_set(old, new, Config { mint_price, ..old.config }),
        NftAction::SetSaleTime { sale_time } => config_set(old, new, Config { sale_time, ..old.config }),
        NftAction::ToggleSaleActive => config_set(
            old,
            new,
            Config { sale_time: toggled_sale_time(old, now), ..old.config },
        ),
    }
}

} // verus!
