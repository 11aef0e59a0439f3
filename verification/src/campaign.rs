use vstd::prelude::*;
use crate::error::CampaignError;
use crate::history::{donations, page_of, Donation, DonationLog, DonationRecord};
use crate::laws::{
    law_donate_keeps_balance,
    law_opened_is_balanced,
    law_unopened_is_balanced,
    law_refund_keeps_balance,
    law_withdraw_keeps_balance,
};
use crate::ledger::{
    amounts_nonnegative,
    donors_distinct,
    entries_map,
    lemma_balance_within_sum,
    lemma_sum_nonnegative,
    DonorLedger,
    LedgerEntry,
};
use crate::model::{Campaign, MIN_DONATION, MIN_GOAL};
use crate::principal::Principal;

verus! {

/// What describes a campaign to the public.
#[derive(Debug, PartialEq, Eq)]
pub struct CampaignMetadata {
    pub title: String,
    pub description: String,
    pub category: String,
    pub owner: Principal,
    pub goal: i128,
    pub deadline: u64,
    pub created_at: u64,
}

impl CampaignMetadata {
    /// Whether two descriptions say the same.
    pub open spec fn agrees_with(&self, other: &CampaignMetadata) -> bool {
        &&& self.title@ == other.title@
        &&& self.description@ == other.description@
        &&& self.category@ == other.category@
        &&& self.owner@ == other.owner@
        &&& self.goal == other.goal
        &&& self.deadline == other.deadline
        &&& self.created_at == other.created_at
    }
}

impl Clone for CampaignMetadata {
    fn clone(&self) -> (copy: CampaignMetadata)
        ensures
            copy.agrees_with(self),
    {
        CampaignMetadata {
            title: self.title.clone(),
            description: self.description.clone(),
            category: self.category.clone(),
            owner: self.owner.clone(),
            goal: self.goal,
            deadline: self.deadline,
            created_at: self.created_at,
        }
    }
}

/// A movement of funds on the asset ledger that a campaign asks for. The
/// campaign changes its books only after the movement has succeeded.
#[derive(Debug, PartialEq, Eq)]
pub enum TransferOrder {
    /// From a donor into the campaign's custody.
    Collect { from: Principal, amount: i128 },
    /// Out of the campaign's custody to the owner or to a donor.
    PayOut { to: Principal, amount: i128 },
}

impl TransferOrder {
    /// The order moves `amount` from `donor` into custody.
    pub open spec fn collects(self, donor: Seq<char>, amount: int) -> bool {
        match self {
            TransferOrder::Collect { from, amount: a } => from@ == donor && a == amount,
            TransferOrder::PayOut { .. } => false,
        }
    }

    /// The order moves `amount` out of custody to `receiver`.
    pub open spec fn pays(self, receiver: Seq<char>, amount: int) -> bool {
        match self {
            TransferOrder::Collect { .. } => false,
            TransferOrder::PayOut { to, amount: a } => to@ == receiver && a == amount,
        }
    }
}

/// One campaign: its description, its books, and its history.
pub struct CrowdfundingContract {
    initialized: bool,
    metadata: CampaignMetadata,
    asset_token: Principal,
    total_raised: i128,
    withdrawn: bool,
    ledger: DonorLedger,
    history: DonationLog,
}

impl View for CrowdfundingContract {
    type V = Campaign;

    closed spec fn view(&self) -> Campaign {
        Campaign {
            initialized: self.initialized,
            title: self.metadata.title@,
            description: self.metadata.description@,
            category: self.metadata.category@,
            owner: self.metadata.owner@,
            asset_token: self.asset_token@,
            goal: self.metadata.goal as int,
            deadline: self.metadata.deadline as int,
            created_at: self.metadata.created_at as int,
            total_raised: self.total_raised as int,
            withdrawn: self.withdrawn,
            ledger: self.ledger@,
            history: self.history@,
        }
    }
}

/// All that a campaign holds, as plain values: what is written down between
/// two operations and read back before the next.
#[derive(Debug)]
pub struct CampaignSnapshot {
    pub initialized: bool,
    pub metadata: CampaignMetadata,
    pub asset_token: Principal,
    pub total_raised: i128,
    pub withdrawn: bool,
    pub ledger: Vec<LedgerEntry>,
    pub history: Vec<DonationRecord>,
}

impl CampaignSnapshot {
    /// The campaign that the values describe.
    pub open spec fn campaign(&self) -> Campaign {
        Campaign {
            initialized: self.initialized,
            title: self.metadata.title@,
            description: self.metadata.description@,
            category: self.metadata.category@,
            owner: self.metadata.owner@,
            asset_token: self.asset_token@,
            goal: self.metadata.goal as int,
            deadline: self.metadata.deadline as int,
            created_at: self.metadata.created_at as int,
            total_raised: self.total_raised as int,
            withdrawn: self.withdrawn,
            ledger: entries_map(self.ledger@),
            history: donations(self.history@),
        }
    }

    /// The values describe a campaign whose books are in order: no donor
    /// occurs twice in the ledger, no amount is negative, the history is not
    /// longer than the chain's vectors can be, and the campaign is
    /// well-formed.
    pub open spec fn consistent(&self) -> bool {
        &&& donors_distinct(self.ledger@)
        &&& amounts_nonnegative(self.ledger@)
        &&& self.history@.len() <= u32::MAX
        &&& self.campaign().wf()
    }
}

/// The amount or the error of a result, the amount as a mathematical integer.
pub open spec fn amount_of(result: Result<i128, CampaignError>) -> Result<int, CampaignError> {
    match result {
        Ok(amount) => Ok(amount as int),
        Err(e) => Err(e),
    }
}

impl CrowdfundingContract {
    /// The books are in order: every donor has one line in the ledger, and
    /// the campaign is well-formed.
    pub closed spec fn wf(&self) -> bool {
        &&& self.ledger.wf()
        &&& self@.wf()
    }

    /// A campaign whose books are in order is well-formed, and its numbers
    /// are those of machine integers.
    pub proof fn lemma_wf(&self)
        requires
            self.wf(),
        ensures
            self@.wf(),
            i128::MIN <= self@.goal <= i128::MAX,
            0 <= self@.total_raised <= i128::MAX,
            0 <= self@.deadline <= u64::MAX,
            0 <= self@.created_at <= u64::MAX,
    {
        lemma_sum_nonnegative(self@.ledger);
    }

    /// The campaign before it is opened, with its ledger on the given chain.
    pub fn new(env: &soroban_sdk::Env) -> (campaign: CrowdfundingContract)
        ensures
            campaign.wf(),
            campaign@ == Campaign::blank(),
    {
        let campaign = CrowdfundingContract {
            initialized: false,
            metadata: CampaignMetadata {
                title: String::new(),
                description: String::new(),
                category: String::new(),
                owner: Principal::new(""),
                goal: 0,
                deadline: 0,
                created_at: 0,
            },
            asset_token: Principal::new(""),
            total_raised: 0,
            withdrawn: false,
            ledger: DonorLedger::new(env),
            history: DonationLog::new(env),
        };
        proof {
            reveal_strlit("");
            assert(""@ =~= Seq::<char>::empty());
            assert(campaign@.history =~= Seq::<Donation>::empty());
            assert(campaign@ =~= Campaign::blank());
            law_unopened_is_balanced();
        }
        campaign
    }

    /// Opens the campaign at the time `now`, on behalf of `owner`. A campaign
    /// that was open before is replaced: its books and its history start
    /// afresh. Rejected without approval, with a goal below `MIN_GOAL`, and
    /// with a deadline that is not after `now`.
    pub fn initialize(
        &mut self,
        owner: &Principal,
        title: &str,
        description: &str,
        goal: i128,
        deadline: u64,
        category: &str,
        asset_token: &Principal,
        now: u64,
        authorized: bool,
    ) -> (result: Result<(), CampaignError>)
        requires
            old(self).wf(),
        ensures
            final(self).wf(),
            final(self)@.wf(),
            match Campaign::initialize_error(goal as int, deadline as int, now as int, authorized) {
                Some(e) => result == Err::<(), CampaignError>(e) && final(self)@ == old(self)@,
                None => result == Ok::<(), CampaignError>(()) && final(self)@ == Campaign::opened(
                    owner@,
                    title@,
                    description@,
                    goal as int,
                    deadline as int,
                    category@,
                    asset_token@,
                    now as int,
                ),
            },
    {
        if !authorized {
            return Err(CampaignError::Unauthorized);
        }
        if goal < MIN_GOAL {
            return Err(CampaignError::GoalTooLow);
        }
        if deadline <= now {
            return Err(CampaignError::DeadlineNotInFuture);
        }
        *self = CrowdfundingContract {
            initialized: true,
            metadata: CampaignMetadata {
                title: title.to_owned(),
                description: description.to_owned(),
                category: category.to_owned(),
                owner: owner.clone(),
                goal,
                deadline,
                created_at: now,
            },
            asset_token: asset_token.clone(),
            total_raised: 0,
            withdrawn: false,
            ledger: self.ledger.cleared(),
            history: self.history.cleared(),
        };
        proof {
            let opened = Campaign::opened(
                owner@,
                title@,
                description@,
                goal as int,
                deadline as int,
                category@,
                asset_token@,
                now as int,
            );
            assert(self@.history =~= Seq::<Donation>::empty());
            assert(self@ =~= opened);
            law_opened_is_balanced(
                owner@,
                title@,
                description@,
                goal as int,
                deadline as int,
                category@,
                asset_token@,
                now as int,
            );
        }
        Ok(())
    }

    /// Decides on a donation before any funds move: the error with which it
    /// is turned away, or the order to collect the amount from the donor.
    pub fn plan_donate(&self, donor: &Principal, amount: i128, now: u64, authorized: bool) -> (plan:
        Result<TransferOrder, CampaignError>)
        requires
            self.wf(),
        ensures
            match plan {
                Ok(order) => self@.donate_error(amount as int, now as int, authorized) is None
                    && order.collects(donor@, amount as int),
                Err(e) => self@.donate_error(amount as int, now as int, authorized) == Some(e),
            },
    {
        if !authorized {
            return Err(CampaignError::Unauthorized);
        }
        if !self.initialized {
            return Err(CampaignError::NotInitialized);
        }
        if now > self.metadata.deadline {
            return Err(CampaignError::CampaignEnded);
        }
        if self.withdrawn {
            return Err(CampaignError::FundsWithdrawn);
        }
        if amount < MIN_DONATION {
            return Err(CampaignError::DonationTooSmall);
        }
        Ok(TransferOrder::Collect { from: donor.clone(), amount })
    }

    /// Takes a donation at the time `now`, where `transferred` says whether
    /// the asset ledger moved the amount from the donor into custody. A
    /// donation that goes through raises the total and what the donor has
    /// outstanding by the amount, and adds a record to the history; any other
    /// changes nothing. Donations beyond the goal are taken. The history
    /// must have room for one more record: the chain's vectors hold up to
    /// `u32::MAX`. Where the funds
    /// have moved and the new total is beyond what an `i128` holds, the
    /// donation fails with `TotalOverflow`, and the caller has to undo the
    /// transfer.
    pub fn donate(
        &mut self,
        donor: &Principal,
        amount: i128,
        now: u64,
        authorized: bool,
        transferred: bool,
    ) -> (result: Result<(), CampaignError>)
        requires
            old(self).wf(),
            old(self)@.history.len() < u32::MAX,
        ensures
            final(self).wf(),
            final(self)@.wf(),
            result == old(self)@.donate_result(amount as int, now as int, authorized, transferred),
            final(self)@ == old(self)@.after_donate(
                donor@,
                amount as int,
                now as int,
                authorized,
                transferred,
            ),
    {
        match self.plan_donate(donor, amount, now, authorized) {
            Err(e) => {
                return Err(e);
            },
            Ok(_) => {},
        }
        if !transferred {
            return Err(CampaignError::TransferFailed);
        }
        let raised = match self.total_raised.checked_add(amount) {
            Some(raised) => raised,
            None => {
                return Err(CampaignError::TotalOverflow);
            },
        };
        proof {
            lemma_balance_within_sum(self@.ledger, donor@);
            law_donate_keeps_balance(
                self@,
                donor@,
                amount as int,
                now as int,
                authorized,
                transferred,
            );
        }
        self.total_raised = raised;
        let credited = self.ledger.credit(donor, amount);
        assert(credited);
        self.history.push(&DonationRecord { donor: donor.clone(), amount, timestamp: now });
        proof {
            let after = old(self)@.with_donation(donor@, amount as int, now as int);
            assert(self@.history =~= after.history);
            assert(self@ =~= after);
        }
        Ok(())
    }

    /// Decides on a withdrawal before any funds move: the error with which it
    /// is turned away, or the order to pay the raised total out to the owner.
    pub fn plan_withdraw(&self, caller: &Principal, now: u64, authorized: bool) -> (plan: Result<
        TransferOrder,
        CampaignError,
    >)
        requires
            self.wf(),
        ensures
            match plan {
                Ok(order) => self@.withdraw_error(caller@, now as int, authorized) is None
                    && order.pays(self@.owner, self@.total_raised),
                Err(e) => self@.withdraw_error(caller@, now as int, authorized) == Some(e),
            },
    {
        if !authorized {
            return Err(CampaignError::Unauthorized);
        }
        if !self.initialized {
            return Err(CampaignError::NotInitialized);
        }
        if !caller.same_as(&self.metadata.owner) {
            return Err(CampaignError::NotOwner);
        }
        if now <= self.metadata.deadline {
            return Err(CampaignError::CampaignNotEnded);
        }
        if self.total_raised < self.metadata.goal {
            return Err(CampaignError::GoalNotReached);
        }
        if self.withdrawn {
            return Err(CampaignError::AlreadyWithdrawn);
        }
        Ok(TransferOrder::PayOut { to: caller.clone(), amount: self.total_raised })
    }

    /// Lets the owner take the funds at the time `now`, where `transferred`
    /// says whether the asset ledger moved the raised total out of custody.
    /// A withdrawal that goes through marks the campaign as withdrawn and
    /// returns the amount paid out; any other changes nothing.
    pub fn withdraw(&mut self, caller: &Principal, now: u64, authorized: bool, transferred: bool) -> (result:
        Result<i128, CampaignError>)
        requires
            old(self).wf(),
        ensures
            final(self).wf(),
            final(self)@.wf(),
            amount_of(result) == old(self)@.withdraw_result(
                caller@,
                now as int,
                authorized,
                transferred,
            ),
            final(self)@ == old(self)@.after_withdraw(caller@, now as int, authorized, transferred),
    {
        match self.plan_withdraw(caller, now, authorized) {
            Err(e) => {
                return Err(e);
            },
            Ok(_) => {},
        }
        if !transferred {
            return Err(CampaignError::TransferFailed);
        }
        proof {
            law_withdraw_keeps_balance(self@, caller@, now as int, authorized, transferred);
        }
        self.withdrawn = true;
        proof {
            assert(self@ =~= old(self)@.after_withdraw(
                caller@,
                now as int,
                authorized,
                transferred,
            ));
        }
        Ok(self.total_raised)
    }

    /// Decides on a refund before any funds move: the error with which it is
    /// turned away, or the order to pay the donor what it has outstanding.
    pub fn plan_refund(&self, donor: &Principal, now: u64, authorized: bool) -> (plan: Result<
        TransferOrder,
        CampaignError,
    >)
        requires
            self.wf(),
        ensures
            match plan {
                Ok(order) => self@.refund_error(donor@, now as int, authorized) is None
                    && order.pays(donor@, self@.donation_of(donor@)),
                Err(e) => self@.refund_error(donor@, now as int, authorized) == Some(e),
            },
    {
        if !authorized {
            return Err(CampaignError::Unauthorized);
        }
        if !self.initialized {
            return Err(CampaignError::NotInitialized);
        }
        if now <= self.metadata.deadline {
            return Err(CampaignError::RefundTooEarly);
        }
        if self.total_raised >= self.metadata.goal {
            return Err(CampaignError::GoalReached);
        }
        let amount = self.ledger.balance(donor);
        if amount <= 0 {
            return Err(CampaignError::NoDonation);
        }
        Ok(TransferOrder::PayOut { to: donor.clone(), amount })
    }

    /// Gives a donor its donations back at the time `now`, where
    /// `transferred` says whether the asset ledger moved what the donor has
    /// outstanding out of custody. A refund that goes through leaves the
    /// donor with nothing outstanding, lowers the raised total by the amount
    /// and returns it; any other changes nothing.
    pub fn refund(&mut self, donor: &Principal, now: u64, authorized: bool, transferred: bool) -> (result:
        Result<i128, CampaignError>)
        requires
            old(self).wf(),
        ensures
            final(self).wf(),
            final(self)@.wf(),
            amount_of(result) == old(self)@.refund_result(
                donor@,
                now as int,
                authorized,
                transferred,
            ),
            final(self)@ == old(self)@.after_refund(donor@, now as int, authorized, transferred),
    {
        match self.plan_refund(donor, now, authorized) {
            Err(e) => {
                return Err(e);
            },
            Ok(_) => {},
        }
        if !transferred {
            return Err(CampaignError::TransferFailed);
        }
        proof {
            lemma_balance_within_sum(self@.ledger, donor@);
            law_refund_keeps_balance(self@, donor@, now as int, authorized, transferred);
        }
        let amount = self.ledger.settle(donor);
        self.total_raised = self.total_raised - amount;
        proof {
            assert(self@ =~= old(self)@.with_refund(donor@));
        }
        Ok(amount)
    }

    /// The campaign that a snapshot describes, with its ledger on the given
    /// chain, where the snapshot describes a campaign whose books are in
    /// order.
    pub fn restore(env: &soroban_sdk::Env, snapshot: CampaignSnapshot) -> (campaign: Option<
        CrowdfundingContract,
    >)
        ensures
            campaign is Some <==> snapshot.consistent(),
            campaign matches Some(c) ==> c.wf() && c@ == snapshot.campaign(),
    {
        let ghost described = snapshot.campaign();
        let CampaignSnapshot {
            initialized,
            metadata,
            asset_token,
            total_raised,
            withdrawn,
            ledger,
            history,
        } = snapshot;
        let ledger = match DonorLedger::from_entries(env, ledger) {
            Some(ledger) => ledger,
            None => {
                return None;
            },
        };
        let history = match DonationLog::from_records(env, &history) {
            Some(history) => history,
            None => {
                return None;
            },
        };
        proof {
            ledger.lemma_view_ok();
        }
        match ledger.total() {
            Some(sum) => {
                if sum != total_raised {
                    return None;
                }
            },
            None => {
                return None;
            },
        }
        if initialized {
            if metadata.goal < MIN_GOAL || metadata.created_at >= metadata.deadline {
                return None;
            }
        } else {
            if metadata.goal != 0 || metadata.deadline != 0 || metadata.created_at != 0
                || withdrawn || !ledger.is_empty() || history.len() != 0 {
                return None;
            }
            assert(described.history =~= Seq::<Donation>::empty());
        }
        if withdrawn && total_raised < metadata.goal {
            return None;
        }
        let campaign = CrowdfundingContract {
            initialized,
            metadata,
            asset_token,
            total_raised,
            withdrawn,
            ledger,
            history,
        };
        assert(campaign@ =~= described);
        Some(campaign)
    }

    /// All that the campaign holds, as plain values.
    pub fn snapshot(&self) -> (snapshot: CampaignSnapshot)
        requires
            self.wf(),
        ensures
            snapshot.consistent(),
            snapshot.campaign() == self@,
    {
        let history = self.history.to_records();
        let snapshot = CampaignSnapshot {
            initialized: self.initialized,
            metadata: self.metadata.clone(),
            asset_token: self.asset_token.clone(),
            total_raised: self.total_raised,
            withdrawn: self.withdrawn,
            ledger: self.ledger.to_entries(),
            history,
        };
        proof {
            assert(snapshot.campaign() =~= self@);
        }
        snapshot
    }

    /// What the campaign holds for its donors.
    pub fn get_total_raised(&self) -> (total: i128)
        ensures
            total == self@.total_raised,
    {
        self.total_raised
    }

    /// What the donor has outstanding: nothing for one who never gave or was
    /// refunded.
    pub fn get_donation(&self, donor: &Principal) -> (amount: i128)
        requires
            self.wf(),
        ensures
            amount == self@.donation_of(donor@),
    {
        self.ledger.balance(donor)
    }

    /// Whether the campaign has been opened.
    pub fn get_is_already_init(&self) -> (initialized: bool)
        ensures
            initialized == self@.initialized,
    {
        self.initialized
    }

    /// The goal; nothing before the campaign is opened.
    pub fn get_goal(&self) -> (goal: i128)
        ensures
            goal == self@.goal,
    {
        self.metadata.goal
    }

    /// The deadline; the beginning of time before the campaign is opened.
    pub fn get_deadline(&self) -> (deadline: u64)
        ensures
            deadline == self@.deadline,
    {
        self.metadata.deadline
    }

    /// Whether the raised total has reached the goal.
    pub fn is_goal_reached(&self) -> (reached: bool)
        ensures
            reached == self@.is_goal_reached(),
    {
        self.total_raised >= self.metadata.goal
    }

    /// Whether the deadline has passed at the time `now`.
    pub fn is_ended(&self, now: u64) -> (ended: bool)
        ensures
            ended == self@.is_ended(now as int),
    {
        now > self.metadata.deadline
    }

    /// The number of donations in the history.
    pub fn get_donation_count(&self) -> (count: u32)
        ensures
            count == self@.history.len(),
    {
        self.history.len()
    }

    /// Whether the owner has taken the funds.
    pub fn is_withdrawn(&self) -> (withdrawn: bool)
        ensures
            withdrawn == self@.withdrawn,
    {
        self.withdrawn
    }

    /// The raised total in whole percent of the goal, rounded down. More than
    /// a hundred where the goal is exceeded; nothing before the campaign is
    /// opened.
    pub fn get_progress_percentage(&self) -> (percent: i128)
        requires
            self.wf(),
        ensures
            percent == self@.progress(),
    {
        proof {
            self.lemma_wf();
        }
        if self.metadata.goal == 0 {
            return 0;
        }
        percent_of(self.total_raised, self.metadata.goal)
    }

    /// The owner, once the campaign is opened.
    pub fn get_owner(&self) -> (owner: Option<Principal>)
        ensures
            owner is Some <==> self@.initialized,
            owner matches Some(o) ==> o@ == self@.owner,
    {
        if self.initialized {
            Some(self.metadata.owner.clone())
        } else {
            None
        }
    }

    /// The asset ledger on which the funds move, once the campaign is opened.
    pub fn get_asset_token(&self) -> (token: Option<Principal>)
        ensures
            token is Some <==> self@.initialized,
            token matches Some(t) ==> t@ == self@.asset_token,
    {
        if self.initialized {
            Some(self.asset_token.clone())
        } else {
            None
        }
    }

    /// The description of the campaign, once it is opened.
    pub fn get_metadata(&self) -> (metadata: Option<CampaignMetadata>)
        ensures
            metadata is Some <==> self@.initialized,
            metadata matches Some(m) ==> {
                &&& m.title@ == self@.title
                &&& m.description@ == self@.description
                &&& m.category@ == self@.category
                &&& m.owner@ == self@.owner
                &&& m.goal == self@.goal
                &&& m.deadline == self@.deadline
                &&& m.created_at == self@.created_at
            },
    {
        if self.initialized {
            Some(self.metadata.clone())
        } else {
            None
        }
    }

    /// A page of the donation history, newest donation first: after skipping
    /// the `offset` newest donations, the next `limit` of them, or fewer
    /// where the history runs out.
    pub fn get_donation_history(&self, limit: u32, offset: u32) -> (page: Vec<DonationRecord>)
        ensures
            donations(page@) == page_of(self@.history, limit as int, offset as int),
    {
        self.history.page(limit, offset)
    }
}

/// A total in whole percent of a goal, rounded down.
fn percent_of(total: i128, goal: i128) -> (percent: i128)
    requires
        0 <= total,
        100 <= goal,
    ensures
        percent == total * 100 / (goal as int),
{
    let whole: i128 = total / goal;
    let rest: i128 = total % goal;
    // Counts how often the goal fits into a hundred times the rest, one
    // rest at a time, so that no intermediate value leaves the integers.
    let mut fits: i128 = 0;
    let mut carry: i128 = 0;
    let mut round: i128 = 0;
    while round < 100
        invariant
            0 <= round <= 100,
            0 <= rest < goal,
            0 <= carry < goal,
            0 <= fits <= round,
            round * rest == fits * goal + carry,
        decreases 100 - round,
    {
        proof {
            assert((round + 1) * rest == round * rest + rest) by (nonlinear_arith);
            assert((fits + 1) * goal == fits * goal + goal) by (nonlinear_arith);
        }
        if carry >= goal - rest {
            carry = carry - (goal - rest);
            fits = fits + 1;
        } else {
            carry = carry + rest;
        }
        round = round + 1;
    }
    proof {
        let t = total as int;
        let g = goal as int;
        let q = whole as int;
        let r = rest as int;
        let f = fits as int;
        let c = carry as int;
        vstd::arithmetic::div_mod::lemma_fundamental_div_mod(t, g);
        assert(t == g * q + r);
        assert(100 * r == f * g + c);
        assert(t * 100 == (q * 100 + f) * g + c) by (nonlinear_arith)
            requires
                t == g * q + r,
                100 * r == f * g + c,
        ;
        assert(0 <= q) by (nonlinear_arith)
            requires
                t == g * q + r,
                0 <= t,
                0 <= r < g,
        ;
        assert(q * 100 + f <= t) by (nonlinear_arith)
            requires
                t * 100 == (q * 100 + f) * g + c,
                0 <= c,
                100 <= g,
                0 <= q * 100 + f,
        ;
        vstd::arithmetic::div_mod::lemma_fundamental_div_mod_converse(
            t * 100,
            g,
            q * 100 + f,
            c,
        );
    }
    whole * 100 + fits
}

} // verus!
