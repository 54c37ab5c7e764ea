use vstd::prelude::*;
use crate::outcome::{admin_outcome, collection_set, config_set, toggled_sale_time};
use crate::ledger::Nft;
use crate::types::{ActorId, Collection, Config, DropspaceNftErr, NftEvent};

verus! {

/// The sale time that keeps the sale closed for good.
pub const SALE_TIME_MAX: u64 = 18446744073709551615;

impl Nft {
    /// Sets the collection's name; administrator only.
    pub fn set_name(&mut self, caller: ActorId, name: &String) -> (r: Result<NftEvent, DropspaceNftErr>)
        requires
            old(self).wf(),
        ensures
            final(self).wf(),
            r is Err ==> *final(self) == *old(self),
            r == admin_outcome(old(self), caller, NftEvent::NameChanged { name: *name }),
            r is Ok ==> collection_set(old(self), final(self), (Collection { name: *name, ..old(self).collection })),
    {
        match self.check_collection_owner(&caller) {
            Ok(()) => {},
            Err(e) => {
                return Err(e);
            },
        }
        self.collection.name = name.clone();
        Ok(NftEvent::NameChanged { name: name.clone() })
    }

    /// Sets the collection's description; administrator only.
    pub fn set_description(&mut self, caller: ActorId, description: &String) -> (r: Result<NftEvent, DropspaceNftErr>)
        requires
            old(self).wf(),
        ensures
            final(self).wf(),
            r is Err ==> *final(self) == *old(self),
            r == admin_outcome(old(self), caller, NftEvent::DescriptionChanged { description: *description }),
            r is Ok ==> collection_set(old(self), final(self), (Collection { description: *description, ..old(self).collection })),
    {
        match self.check_collection_owner(&caller) {
            Ok(()) => {},
            Err(e) => {
                return Err(e);
            },
        }
        self.collection.description = description.clone();
        Ok(NftEvent::DescriptionChanged { description: description.clone() })
    }

    /// Sets the collection's symbol; administrator only.
    pub fn set_symbol(&mut self, caller: ActorId, symbol: &String) -> (r: Result<NftEvent, DropspaceNftErr>)
        requires
            old(self).wf(),
        ensures
            final(self).wf(),
            r is Err ==> *final(self) == *old(self),
            r == admin_outcome(old(self), caller, NftEvent::SymbolChanged { symbol: *symbol }),
            r is Ok ==> collection_set(old(self), final(self), (Collection { symbol: *symbol, ..old(self).collection })),
    {
        match self.check_collection_owner(&caller) {
            Ok(()) => {},
            Err(e) => {
                return Err(e);
            },
        }
        self.collection.symbol = symbol.clone();
        Ok(NftEvent::SymbolChanged { symbol: symbol.clone() })
    }

    /// Sets the collection's base URI; administrator only.
    pub fn set_base_uri(&mut self, caller: ActorId, base_uri: &String) -> (r: Result<NftEvent, DropspaceNftErr>)
        requires
            old(self).wf(),
        ensures
            final(self).wf(),
            r is Err ==> *final(self) == *old(self),
            r == admin_outcome(old(self), caller, NftEvent::BaseUriChanged { base_uri: *base_uri }),
            r is Ok ==> collection_set(old(self), final(self), (Collection { base_uri: *base_uri, ..old(self).collection })),
    {
        match self.check_collection_owner(&caller) {
            Ok(()) => {},
            Err(e) => {
                return Err(e);
            },
        }
        self.collection.base_uri = base_uri.clone();
        Ok(NftEvent::BaseUriChanged { base_uri: base_uri.clone() })
    }

    /// Sets the wallet that receives the sale price; administrator only.
    pub fn set_withdraw_wallet(&mut self, caller: ActorId, withdraw_wallet: &ActorId) -> (r: Result<NftEvent, DropspaceNftErr>)
        requires
            old(self).wf(),
        ensures
            final(self).wf(),
            r is Err ==> *final(self) == *old(self),
            r == admin_outcome(old(self), caller, NftEvent::WithdrawWalletChanged { withdraw_wallet: *withdraw_wallet }),
            r is Ok ==> config_set(old(self), final(self), (Config { withdraw_wallet: *withdraw_wallet, ..old(self).config })),
    {
        match self.check_collection_owner(&caller) {
            Ok(()) => {},
            Err(e) => {
                return Err(e);
            },
        }
        self.config.withdraw_wallet = *withdraw_wallet;
        Ok(NftEvent::WithdrawWalletChanged { withdraw_wallet: *withdraw_wallet })
    }

    /// Sets the most tokens that may exist at once; administrator only.
    pub fn set_supply_limit(&mut self, caller: ActorId, supply_limit: u128) -> (r: Result<NftEvent, DropspaceNftErr>)
        requires
            old(self).wf(),
        ensures
            final(self).wf(),
            r is Err ==> *final(self) == *old(self),
            r == admin_outcome(old(self), caller, NftEvent::SupplyLimitChanged { supply_limit: supply_limit }),
            r is Ok ==> config_set(old(self), final(self), (Config { supply_limit: supply_limit, ..old(self).config })),
    {
        match self.check_collection_owner(&caller) {
            Ok(()) => {},
            Err(e) => {
                return Err(e);
            },
        }
        self.config.supply_limit = supply_limit;
        Ok(NftEvent::SupplyLimitChanged { supply_limit: supply_limit })
    }

    /// Sets the most tokens one request may mint; administrator only.
    pub fn set_mint_limit(&mut self, caller: ActorId, mint_limit: u128) -> (r: Result<NftEvent, DropspaceNftErr>)
        requires
            old(self).wf(),
        ensures
            final(self).wf(),
            r is Err ==> *final(self) == *old(self),
            r == admin_outcome(old(self), caller, NftEvent::MintLimitChanged { mint_limit: mint_limit }),
            r is Ok ==> config_set(old(self), final(self), (Config { mint_limit: mint_limit, ..old(self).config })),
    {
        match self.check_collection_owner(&caller) {
            Ok(()) => {},
            Err(e) => {
                return Err(e);
            },
        }
        self.config.mint_limit = mint_limit;
        Ok(NftEvent::MintLimitChanged { mint_limit: mint_limit })
    }

    /// Sets the price of one token; administrator only.
    pub fn set_mint_price(&mut self, caller: ActorId, mint_price: u128) -> (r: Result<NftEvent, DropspaceNftErr>)
        requires
            old(self).wf(),
        ensures
            final(self).wf(),
            r is Err ==> *final(self) == *old(self),
            r == admin_outcome(old(self), caller, NftEvent::MintPriceChanged { mint_price: mint_price }),
            r is Ok ==> config_set(old(self), final(self), (Config { mint_price: mint_price, ..old(self).config })),
    {
        match self.check_collection_owner(&caller) {
            Ok(()) => {},
            Err(e) => {
                return Err(e);
            },
        }
        self.config.mint_price = mint_price;
        Ok(NftEvent::MintPriceChanged { mint_price: mint_price })
    }

    /// Sets the time (seconds) from which the sale is open; administrator
    /// only. The event tells whether the sale is open at `now`.
    pub fn set_sale_time(&mut self, caller: ActorId, now: u64, sale_time: u64) -> (r: Result<
        NftEvent,
        DropspaceNftErr,
    >)
        requires
            old(self).wf(),
        ensures
            final(self).wf(),
            r is Err ==> *final(self) == *old(self),
            r == admin_outcome(
                old(self),
                caller,
                NftEvent::SaleTimeChanged { sale_time, sale_active: sale_time <= now },
            ),
            r is Ok ==> config_set(old(self), final(self), (Config { sale_time, ..old(self).config })),
    {
        match self.check_collection_owner(&caller) {
            Ok(()) => {},
            Err(e) => {
                return Err(e);
            },
        }
        self.config.sale_time = sale_time;
        Ok(NftEvent::SaleTimeChanged { sale_time, sale_active: sale_time <= now })
    }

    /// Opens a closed sale by moving its start to zero, or closes an open one
    /// by moving its start to the largest time; administrator only. The start
    /// that was set before is not kept.
    pub fn toggle_sale_active(&mut self, caller: ActorId, now: u64) -> (r: Result<
        NftEvent,
        DropspaceNftErr,
    >)
        requires
            old(self).wf(),
        ensures
            final(self).wf(),
            r is Err ==> *final(self) == *old(self),
            r == admin_outcome(
                old(self),
                caller,
                NftEvent::SaleActiveChanged { sale_active: !old(self).sale_open(now) },
            ),
            r is Ok ==> config_set(
                old(self),
                final(self),
                (Config { sale_time: toggled_sale_time(old(self), now), ..old(self).config }),
            ),
    {
        match self.check_collection_owner(&caller) {
            Ok(()) => {},
            Err(e) => {
                return Err(e);
            },
        }
        let sale_active_status = self.sale_active(now);
        if sale_active_status {
            self.config.sale_time = SALE_TIME_MAX;
        } else {
            self.config.sale_time = 0;
        }
        Ok(NftEvent::SaleActiveChanged { sale_active: !sale_active_status })
    }
}

} // verus!
