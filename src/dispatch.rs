use vstd::prelude::*;
use crate::outcome::{event_of, request_effect, request_outcome};
use crate::ledger::Nft;
use crate::sale::{minted_batch, purchase_payouts};
use crate::types::{ActorId, DropspaceNftErr, NftAction, NftEvent, Payout, Reply};

verus! {

broadcast use vstd::std_specs::hash::group_hash_axioms;

fn event_only(r: Result<NftEvent, DropspaceNftErr>) -> (out: Result<Reply, DropspaceNftErr>)
    ensures
        r is Err ==> out is Err && out->Err_0 == r->Err_0,
        r is Ok ==> out is Ok && out->Ok_0.event == r->Ok_0 && out->Ok_0.payouts@.len() == 0,
{
    match r {
        Ok(event) => Ok(Reply { event, payouts: Vec::<Payout>::new() }),
        Err(e) => Err(e),
    }
}

impl Nft {
    /// Serves one request from `caller`, who attached `value`, at time `now`
    /// (seconds).
    pub fn handle(&mut self, caller: ActorId, value: u128, now: u64, action: NftAction) -> (r: Result<
        Reply,
        DropspaceNftErr,
    >)
        requires
            old(self).wf(),
        ensures
            final(self).wf(),
            r is Err ==> *final(self) == *old(self),
            event_of(r) == request_outcome(old(self), caller, value, now, action),
            r is Ok ==> request_effect(old(self), final(self), caller, now, action),
            match action {
                NftAction::Buy { amount } => r is Ok ==> r->Ok_0.payouts@ == purchase_payouts(
                    old(self).config,
                    caller,
                    value,
                    amount,
                ),
                _ => r is Ok ==> r->Ok_0.payouts@.len() == 0,
            },
            final(self).token_id >= old(self).token_id,
            forall|t: u128|
                #[trigger] final(self).minted(t) && !old(self).minted(t) ==> old(self).token_id <= t
                    < final(self).token_id,
            !(action is SetSupplyLimit) && old(self).minted_count() <= old(self).config.supply_limit
                ==> final(self).minted_count() <= final(self).config.supply_limit,
            (action is Buy || action is Reserve) && r is Ok ==> final(self).minted_count()
                <= final(self).config.supply_limit,
            match action {
                NftAction::Transfer { to, token_id } => r is Ok
                    ==> !final(self).token_approvals@.contains_key(token_id),
                NftAction::Burn { token_id } => r is Ok ==> !final(self).token_approvals@.contains_key(
                    token_id,
                ) && !final(self).minted(token_id),
                _ => true,
            },
    {
        match action {
            NftAction::Buy { amount } => self.buy(caller, value, now, amount),
            NftAction::Reserve { amount } => event_only(self.reserve(caller, now, amount)),
            NftAction::Burn { token_id } => event_only(self.burn(caller, token_id)),
            NftAction::Transfer { to, token_id } => event_only(self.transfer(caller, &to, token_id)),
            NftAction::Approve { to, token_id } => event_only(self.approve(caller, &to, token_id)),
            NftAction::GetOwner { token_id } => event_only(self.owner(token_id)),
            NftAction::CheckIfApproved { to, token_id } => event_only(
                self.is_approved_to(&to, token_id),
            ),
            NftAction::SetName { name } => event_only(self.set_name(caller, &name)),
            NftAction::SetDescription { description } => event_only(
                self.set_description(caller, &description),
            ),
            NftAction::SetSymbol { symbol } => event_only(self.set_symbol(caller, &symbol)),
            NftAction::SetBaseUri { base_uri } => event_only(self.set_base_uri(caller, &base_uri)),
            NftAction::SetWithdrawWallet { withdraw_wallet } => event_only(
                self.set_withdraw_wallet(caller, &withdraw_wallet),
            ),
            NftAction::SetSupplyLimit { supply_limit } => event_only(
                self.set_supply_limit(caller, supply_limit),
            ),
            NftAction::SetMintLimit { mint_limit } => event_only(
                self.set_mint_limit(caller, mint_limit),
            ),
            NftAction::SetMintPrice { mint_price } => event_only(
                self.set_mint_price(caller, mint_price),
            ),
            NftAction::SetSaleTime { sale_time } => event_only(
                self.set_sale_time(caller, now, sale_time),
            ),
            NftAction::ToggleSaleActive => event_only(self.toggle_sale_active(caller, now)),
        }
    }
}

} // verus!
