use vstd::prelude::*;
use crate::error::CampaignError;
use crate::history::Donation;
use crate::ledger::{balance_of, ledger_ok, ledger_sum};

verus! {

/// Smallest goal a campaign can be opened with, in the smallest unit of the
/// asset.
pub const MIN_GOAL: i128 = 100_000_000;

/// Smallest donation a campaign takes, in the smallest unit of the asset.
pub const MIN_DONATION: i128 = 1_000_000;

/// The state of one campaign, as mathematics sees it.
#[verifier::ext_equal]
pub struct Campaign {
    /// Whether the campaign has been opened.
    pub initialized: bool,
    pub title: Seq<char>,
    pub description: Seq<char>,
    pub category: Seq<char>,
    /// Who may withdraw a reached goal.
    pub owner: Seq<char>,
    /// The asset ledger on which the funds move.
    pub asset_token: Seq<char>,
    pub goal: int,
    pub deadline: int,
    pub created_at: int,
    /// What the campaign holds for its donors.
    pub total_raised: int,
    /// Whether the owner has taken the funds.
    pub withdrawn: bool,
    /// What each donor has outstanding.
    pub ledger: Map<Seq<char>, int>,
    /// Every successful donation, oldest first.
    pub history: Seq<Donation>,
}

impl Campaign {
    /// The campaign before it is opened.
    pub open spec fn blank() -> Campaign {
        Campaign {
            initialized: false,
            title: Seq::empty(),
            description: Seq::empty(),
            category: Seq::empty(),
            owner: Seq::empty(),
            asset_token: Seq::empty(),
            goal: 0,
            deadline: 0,
            created_at: 0,
            total_raised: 0,
            withdrawn: false,
            ledger: Map::empty(),
            history: Seq::empty(),
        }
    }

    /// What holds of a campaign at all times: the raised total is the sum of
    /// what the donors have outstanding, no donor is in debt, an opened
    /// campaign has an admissible goal and a deadline after its creation, and
    /// funds were withdrawn only from a reached goal.
    pub open spec fn wf(self) -> bool {
        &&& ledger_ok(self.ledger)
        &&& self.total_raised == ledger_sum(self.ledger)
        &&& self.total_raised <= i128::MAX
        &&& self.initialized ==> MIN_GOAL <= self.goal && self.created_at < self.deadline
        &&& !self.initialized ==> {
            &&& self.goal == 0
            &&& self.deadline == 0
            &&& self.created_at == 0
            &&& !self.withdrawn
            &&& self.ledger == Map::<Seq<char>, int>::empty()
            &&& self.history == Seq::<Donation>::empty()
        }
        &&& self.withdrawn ==> self.total_raised >= self.goal
    }

    /// The deadline has passed.
    pub open spec fn is_ended(self, now: int) -> bool {
        now > self.deadline
    }

    /// The raised total has reached the goal.
    pub open spec fn is_goal_reached(self) -> bool {
        self.total_raised >= self.goal
    }

    /// The raised total in whole percent of the goal, rounded down; nothing
    /// for a campaign without a goal.
    pub open spec fn progress(self) -> int {
        if self.goal == 0 {
            0
        } else {
            self.total_raised * 100 / self.goal
        }
    }

    /// What a donor has outstanding.
    pub open spec fn donation_of(self, donor: Seq<char>) -> int {
        balance_of(self.ledger, donor)
    }

    /// Why a campaign cannot be opened with these values, if it cannot.
    pub open spec fn initialize_error(goal: int, deadline: int, now: int, authorized: bool) -> Option<
        CampaignError,
    > {
        if !authorized {
            Some(CampaignError::Unauthorized)
        } else if goal < MIN_GOAL {
            Some(CampaignError::GoalTooLow)
        } else if deadline <= now {
            Some(CampaignError::DeadlineNotInFuture)
        } else {
            None
        }
    }

    /// The campaign as it is right after it was opened at the time `now`.
    pub open spec fn opened(
        owner: Seq<char>,
        title: Seq<char>,
        description: Seq<char>,
        goal: int,
        deadline: int,
        category: Seq<char>,
        asset_token: Seq<char>,
        now: int,
    ) -> Campaign {
        Campaign {
            initialized: true,
            title,
            description,
            category,
            owner,
            asset_token,
            goal,
            deadline,
            created_at: now,
            total_raised: 0,
            withdrawn: false,
            ledger: Map::empty(),
            history: Seq::empty(),
        }
    }

    /// Why a donation is turned away before any funds move, if it is.
    pub open spec fn donate_error(self, amount: int, now: int, authorized: bool) -> Option<
        CampaignError,
    > {
        if !authorized {
            Some(CampaignError::Unauthorized)
        } else if !self.initialized {
            Some(CampaignError::NotInitialized)
        } else if self.is_ended(now) {
            Some(CampaignError::CampaignEnded)
        } else if self.withdrawn {
            Some(CampaignError::FundsWithdrawn)
        } else if amount < MIN_DONATION {
            Some(CampaignError::DonationTooSmall)
        } else {
            None
        }
    }

    /// How a donation ends: it is turned away, or the asset ledger refuses to
    /// move the funds, or the funds have moved and the new total is beyond
    /// what an `i128` holds, or it succeeds.
    pub open spec fn donate_result(
        self,
        amount: int,
        now: int,
        authorized: bool,
        transferred: bool,
    ) -> Result<(), CampaignError> {
        match self.donate_error(amount, now, authorized) {
            Some(e) => Err(e),
            None => if !transferred {
                Err(CampaignError::TransferFailed)
            } else if self.total_raised + amount > i128::MAX {
                Err(CampaignError::TotalOverflow)
            } else {
                Ok(())
            },
        }
    }

    /// The campaign with one more donation on its books.
    pub open spec fn with_donation(self, donor: Seq<char>, amount: int, now: int) -> Campaign {
        Campaign {
            total_raised: self.total_raised + amount,
            ledger: self.ledger.insert(donor, self.donation_of(donor) + amount),
            history: self.history.push(Donation { donor, amount, timestamp: now }),
            ..self
        }
    }

    /// The campaign after a call of `donate`: changed by a successful
    /// donation, untouched by any other.
    pub open spec fn after_donate(
        self,
        donor: Seq<char>,
        amount: int,
        now: int,
        authorized: bool,
        transferred: bool,
    ) -> Campaign {
        if self.donate_result(amount, now, authorized, transferred) is Ok {
            self.with_donation(donor, amount, now)
        } else {
            self
        }
    }

    /// Why a withdrawal is turned away before any funds move, if it is.
    pub open spec fn withdraw_error(self, caller: Seq<char>, now: int, authorized: bool) -> Option<
        CampaignError,
    > {
        if !authorized {
            Some(CampaignError::Unauthorized)
        } else if !self.initialized {
            Some(CampaignError::NotInitialized)
        } else if caller != self.owner {
            Some(CampaignError::NotOwner)
        } else if !self.is_ended(now) {
            Some(CampaignError::CampaignNotEnded)
        } else if !self.is_goal_reached() {
            Some(CampaignError::GoalNotReached)
        } else if self.withdrawn {
            Some(CampaignError::AlreadyWithdrawn)
        } else {
            None
        }
    }

    /// How a withdrawal ends; a successful one pays out the raised total.
    pub open spec fn withdraw_result(
        self,
        caller: Seq<char>,
        now: int,
        authorized: bool,
        transferred: bool,
    ) -> Result<int, CampaignError> {
        match self.withdraw_error(caller, now, authorized) {
            Some(e) => Err(e),
            None => if transferred {
                Ok(self.total_raised)
            } else {
                Err(CampaignError::TransferFailed)
            },
        }
    }

    /// The campaign after a call of `withdraw`: marked as withdrawn by a
    /// successful withdrawal, untouched by any other.
    pub open spec fn after_withdraw(
        self,
        caller: Seq<char>,
        now: int,
        authorized: bool,
        transferred: bool,
    ) -> Campaign {
        if self.withdraw_result(caller, now, authorized, transferred) is Ok {
            Campaign { withdrawn: true, ..self }
        } else {
            self
        }
    }

    /// Why a refund is turned away before any funds move, if it is.
    pub open spec fn refund_error(self, donor: Seq<char>, now: int, authorized: bool) -> Option<
        CampaignError,
    > {
        if !authorized {
            Some(CampaignError::Unauthorized)
        } else if !self.initialized {
            Some(CampaignError::NotInitialized)
        } else if !self.is_ended(now) {
            Some(CampaignError::RefundTooEarly)
        } else if self.is_goal_reached() {
            Some(CampaignError::GoalReached)
        } else if self.donation_of(donor) <= 0 {
            Some(CampaignError::NoDonation)
        } else {
            None
        }
    }

    /// How a refund ends; a successful one pays out what the donor has
    /// outstanding.
    pub open spec fn refund_result(
        self,
        donor: Seq<char>,
        now: int,
        authorized: bool,
        transferred: bool,
    ) -> Result<int, CampaignError> {
        match self.refund_error(donor, now, authorized) {
            Some(e) => Err(e),
            None => if transferred {
                Ok(self.donation_of(donor))
            } else {
                Err(CampaignError::TransferFailed)
            },
        }
    }

    /// The campaign with nothing outstanding for one donor, and the raised
    /// total lowered by what that donor had.
    pub open spec fn with_refund(self, donor: Seq<char>) -> Campaign {
        Campaign {
            total_raised: self.total_raised - self.donation_of(donor),
            ledger: self.ledger.insert(donor, 0),
            ..self
        }
    }

    /// The campaign after a call of `refund`: changed by a successful refund,
    /// untouched by any other.
    pub open spec fn after_refund(
        self,
        donor: Seq<char>,
        now: int,
        authorized: bool,
        transferred: bool,
    ) -> Campaign {
        if self.refund_result(donor, now, authorized, transferred) is Ok {
            self.with_refund(donor)
        } else {
            self
        }
    }

    /// The campaign after a call of `initialize`: opened afresh by a
    /// successful call, untouched by any other.
    pub open spec fn after_initialize(
        self,
        owner: Seq<char>,
        title: Seq<char>,
        description: Seq<char>,
        goal: int,
        deadline: int,
        category: Seq<char>,
        asset_token: Seq<char>,
        now: int,
        authorized: bool,
    ) -> Campaign {
        if Campaign::initialize_error(goal, deadline, now, authorized) is None {
            Campaign::opened(owner, title, description, goal, deadline, category, asset_token, now)
        } else {
            self
        }
    }

    /// The campaign after one call.
    pub open spec fn after(self, call: Call) -> Campaign {
        match call {
            Call::Initialize {
                owner,
                title,
                description,
                goal,
                deadline,
                category,
                asset_token,
                now,
                authorized,
            } => self.after_initialize(
                owner,
                title,
                description,
                goal,
                deadline,
                category,
                asset_token,
                now,
                authorized,
            ),
            Call::Donate { donor, amount, now, authorized, transferred } => self.after_donate(
                donor,
                amount,
                now,
                authorized,
                transferred,
            ),
            Call::Withdraw { caller, now, authorized, transferred } => self.after_withdraw(
                caller,
                now,
                authorized,
                transferred,
            ),
            Call::Refund { donor, now, authorized, transferred } => self.after_refund(
                donor,
                now,
                authorized,
                transferred,
            ),
        }
    }

    /// The campaign after a sequence of calls, made in their order.
    pub open spec fn after_all(self, calls: Seq<Call>) -> Campaign
        decreases calls.len(),
    {
        if calls.len() == 0 {
            self
        } else {
            self.after_all(calls.drop_last()).after(calls.last())
        }
    }

    /// What the successful donations among a sequence of calls brought in:
    /// from the given donor, or from all donors where none is given.
    pub open spec fn donated(self, calls: Seq<Call>, by: Option<Seq<char>>) -> int
        decreases calls.len(),
    {
        if calls.len() == 0 {
            0
        } else {
            let before = self.after_all(calls.drop_last());
            let earlier = self.donated(calls.drop_last(), by);
            match calls.last() {
                Call::Donate { donor, amount, now, authorized, transferred } => {
                    if before.donate_result(amount, now, authorized, transferred) is Ok && (by
                        is None || by == Some(donor)) {
                        earlier + amount
                    } else {
                        earlier
                    }
                },
                _ => earlier,
            }
        }
    }

    /// What the successful refunds among a sequence of calls paid back.
    pub open spec fn refunded(self, calls: Seq<Call>) -> int
        decreases calls.len(),
    {
        if calls.len() == 0 {
            0
        } else {
            let before = self.after_all(calls.drop_last());
            let earlier = self.refunded(calls.drop_last());
            match calls.last() {
                Call::Refund { donor, now, authorized, transferred } => {
                    if before.refund_result(donor, now, authorized, transferred) is Ok {
                        earlier + before.donation_of(donor)
                    } else {
                        earlier
                    }
                },
                _ => earlier,
            }
        }
    }
}

/// One call of an operation of a campaign, with all that decides how it
/// ends: its arguments, the time, whether the caller was authorized, and
/// whether the asset ledger moved the funds it was asked to move.
pub enum Call {
    Initialize {
        owner: Seq<char>,
        title: Seq<char>,
        description: Seq<char>,
        goal: int,
        deadline: int,
        category: Seq<char>,
        asset_token: Seq<char>,
        now: int,
        authorized: bool,
    },
    Donate { donor: Seq<char>, amount: int, now: int, authorized: bool, transferred: bool },
    Withdraw { caller: Seq<char>, now: int, authorized: bool, transferred: bool },
    Refund { donor: Seq<char>, now: int, authorized: bool, transferred: bool },
}

impl Call {
    /// The time at which the call is made.
    pub open spec fn at(self) -> int {
        match self {
            Call::Initialize { now, .. } => now,
            Call::Donate { now, .. } => now,
            Call::Withdraw { now, .. } => now,
            Call::Refund { now, .. } => now,
        }
    }
}

} // verus!
