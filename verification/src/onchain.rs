use vstd::prelude::*;
use crate::campaign::CrowdfundingContract;
use crate::error::CampaignError;
use crate::host::{address_text, ledger_time, transfer};
use crate::model::Campaign;
use crate::principal::Principal;

verus! {

/// What an operation on the hosting chain did: for whom, how much was moved,
/// and at what time of the chain's clock.
#[derive(Debug, PartialEq, Eq)]
pub struct Receipt {
    pub party: Principal,
    pub amount: i128,
    pub at: u64,
}

/// The principal that an address of the hosting chain stands for: the one
/// whose key is the text of the address.
fn principal_of(address: &soroban_sdk::Address) -> (principal: Principal) {
    let text = address_text(address);
    Principal::new(text.as_str())
}

impl CrowdfundingContract {
    /// Opens the campaign at the time of the chain's clock, for the owner and
    /// on the asset ledger whose addresses are given. It succeeds and fails
    /// as `initialize` does at that time.
    pub fn initialize_on(
        &mut self,
        env: &soroban_sdk::Env,
        owner: &soroban_sdk::Address,
        title: &str,
        description: &str,
        goal: i128,
        deadline: u64,
        category: &str,
        asset: &soroban_sdk::Address,
        authorized: bool,
    ) -> (result: Result<u64, CampaignError>)
        requires
            old(self).wf(),
        ensures
            final(self).wf(),
            final(self)@.wf(),
            match result {
                Ok(now) => {
                    &&& Campaign::initialize_error(
                        goal as int,
                        deadline as int,
                        now as int,
                        authorized,
                    ) is None
                    &&& final(self)@ == Campaign::opened(
                        final(self)@.owner,
                        title@,
                        description@,
                        goal as int,
                        deadline as int,
                        category@,
                        final(self)@.asset_token,
                        now as int,
                    )
                },
                Err(e) => {
                    &&& final(self)@ == old(self)@
                    &&& exists|now: u64| #[trigger]
                        Campaign::initialize_error(
                            goal as int,
                            deadline as int,
                            now as int,
                            authorized,
                        ) == Some(e)
                },
            },
    {
        let now = ledger_time(env);
        let owner = principal_of(owner);
        let asset = principal_of(asset);
        match self.initialize(
            &owner,
            title,
            description,
            goal,
            deadline,
            category,
            &asset,
            now,
            authorized,
        ) {
            Ok(()) => Ok(now),
            Err(e) => Err(e),
        }
    }

    /// Takes a donation at the time of the chain's clock: decides on it,
    /// has the asset ledger move the amount from the donor into custody, and
    /// only then enters it in the books. It succeeds and fails as `donate`
    /// does at that time and with what the asset ledger answered. A donation
    /// that is turned away moves no funds, with one exception: where it fails
    /// with `TotalOverflow` the funds have moved, and it is for the caller to
    /// abort the invocation, which undoes the transfer.
    pub fn donate_on(
        &mut self,
        env: &soroban_sdk::Env,
        asset: &soroban_sdk::Address,
        custody: &soroban_sdk::Address,
        donor: &soroban_sdk::Address,
        amount: i128,
        authorized: bool,
    ) -> (result: Result<Receipt, CampaignError>)
        requires
            old(self).wf(),
            old(self)@.history.len() < u32::MAX,
        ensures
            final(self).wf(),
            final(self)@.wf(),
            match result {
                Ok(receipt) => {
                    &&& receipt.amount == amount
                    &&& old(self)@.donate_result(
                        amount as int,
                        receipt.at as int,
                        authorized,
                        true,
                    ) is Ok
                    &&& final(self)@ == old(self)@.with_donation(
                        receipt.party@,
                        amount as int,
                        receipt.at as int,
                    )
                },
                Err(e) => {
                    &&& final(self)@ == old(self)@
                    &&& exists|now: u64, transferred: bool| #[trigger]
                        old(self)@.donate_result(
                            amount as int,
                            now as int,
                            authorized,
                            transferred,
                        ) == Err::<(), CampaignError>(e)
                },
            },
    {
        proof {
            self.lemma_wf();
        }
        let now = ledger_time(env);
        let party = principal_of(donor);
        if let Err(e) = self.plan_donate(&party, amount, now, authorized) {
            assert(old(self)@.donate_result(amount as int, now as int, authorized, false) == Err::<
                (),
                CampaignError,
            >(e));
            return Err(e);
        }
        let moved = transfer(env, asset, donor, custody, amount);
        match self.donate(&party, amount, now, authorized, moved) {
            Ok(()) => Ok(Receipt { party, amount, at: now }),
            Err(e) => {
                assert(old(self)@.donate_result(amount as int, now as int, authorized, moved)
                    == Err::<(), CampaignError>(e));
                Err(e)
            },
        }
    }

    /// Lets the owner take the funds at the time of the chain's clock:
    /// decides on the withdrawal, has the asset ledger move the raised total
    /// out of custody to the caller, and only then marks the campaign as
    /// withdrawn. It succeeds and fails as `withdraw` does at that time and
    /// with what the asset ledger answered.
    pub fn withdraw_on(
        &mut self,
        env: &soroban_sdk::Env,
        asset: &soroban_sdk::Address,
        custody: &soroban_sdk::Address,
        caller: &soroban_sdk::Address,
        authorized: bool,
    ) -> (result: Result<Receipt, CampaignError>)
        requires
            old(self).wf(),
        ensures
            final(self).wf(),
            final(self)@.wf(),
            match result {
                Ok(receipt) => {
                    &&& old(self)@.withdraw_error(receipt.party@, receipt.at as int, authorized)
                        is None
                    &&& receipt.amount == old(self)@.total_raised
                    &&& final(self)@ == old(self)@.after_withdraw(
                        receipt.party@,
                        receipt.at as int,
                        authorized,
                        true,
                    )
                },
                Err(e) => {
                    &&& final(self)@ == old(self)@
                    &&& exists|who: Seq<char>, now: u64| #[trigger]
                        old(self)@.withdraw_result(who, now as int, authorized, false) == Err::<
                            int,
                            CampaignError,
                        >(e)
                },
            },
    {
        proof {
            self.lemma_wf();
        }
        let now = ledger_time(env);
        let party = principal_of(caller);
        let amount = match self.plan_withdraw(&party, now, authorized) {
            Ok(_) => self.get_total_raised(),
            Err(e) => {
                assert(old(self)@.withdraw_result(party@, now as int, authorized, false) == Err::<
                    int,
                    CampaignError,
                >(e));
                return Err(e);
            },
        };
        let moved = transfer(env, asset, custody, caller, amount);
        match self.withdraw(&party, now, authorized, moved) {
            Ok(amount) => Ok(Receipt { party, amount, at: now }),
            Err(e) => {
                assert(old(self)@.withdraw_result(party@, now as int, authorized, false) == Err::<
                    int,
                    CampaignError,
                >(e));
                Err(e)
            },
        }
    }

    /// Gives a donor its donations back at the time of the chain's clock:
    /// decides on the refund, has the asset ledger move what the donor has
    /// outstanding out of custody to the donor, and only then clears it in
    /// the books. It succeeds and fails as `refund` does at that time and
    /// with what the asset ledger answered.
    pub fn refund_on(
        &mut self,
        env: &soroban_sdk::Env,
        asset: &soroban_sdk::Address,
        custody: &soroban_sdk::Address,
        donor: &soroban_sdk::Address,
        authorized: bool,
    ) -> (result: Result<Receipt, CampaignError>)
        requires
            old(self).wf(),
        ensures
            final(self).wf(),
            final(self)@.wf(),
            match result {
                Ok(receipt) => {
                    &&& old(self)@.refund_error(receipt.party@, receipt.at as int, authorized)
                        is None
                    &&& receipt.amount == old(self)@.donation_of(receipt.party@)
                    &&& final(self)@ == old(self)@.with_refund(receipt.party@)
                },
                Err(e) => {
                    &&& final(self)@ == old(self)@
                    &&& exists|who: Seq<char>, now: u64| #[trigger]
                        old(self)@.refund_result(who, now as int, authorized, false) == Err::<
                            int,
                            CampaignError,
                        >(e)
                },
            },
    {
        proof {
            self.lemma_wf();
        }
        let now = ledger_time(env);
        let party = principal_of(donor);
        let amount = match self.plan_refund(&party, now, authorized) {
            Ok(_) => self.get_donation(&party),
            Err(e) => {
                assert(old(self)@.refund_result(party@, now as int, authorized, false) == Err::<
                    int,
                    CampaignError,
                >(e));
                return Err(e);
            },
        };
        let moved = transfer(env, asset, custody, donor, amount);
        match self.refund(&party, now, authorized, moved) {
            Ok(amount) => Ok(Receipt { party, amount, at: now }),
            Err(e) => {
                assert(old(self)@.refund_result(party@, now as int, authorized, false) == Err::<
                    int,
                    CampaignError,
                >(e));
                Err(e)
            },
        }
    }
}

} // verus!
