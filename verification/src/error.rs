use vstd::prelude::*;

verus! {

/// The four classes of failure of a campaign operation.
#[derive(Clone, Copy, Debug, PartialEq, Eq, Structural)]
pub enum ErrorKind {
    /// The caller did not prove the approval of the principal it acts for.
    Authorization,
    /// An argument is outside what the operation accepts.
    Validation,
    /// The campaign is not in a state in which the operation is possible.
    State,
    /// The asset ledger refused to move the funds.
    Transfer,
}

/// Why a campaign operation was rejected. A rejected operation changes nothing.
#[derive(Clone, Copy, Debug, PartialEq, Eq, Structural)]
pub enum CampaignError {
    /// The invocation carries no approval of the acting principal.
    Unauthorized,
    /// A withdrawal was asked for by someone other than the owner.
    NotOwner,
    /// The goal is below `MIN_GOAL`.
    GoalTooLow,
    /// The deadline is not later than the time of creation.
    DeadlineNotInFuture,
    /// The donation is below `MIN_DONATION`.
    DonationTooSmall,
    /// The donation was transferred, and the raised total with it is beyond
    /// what an `i128` holds.
    TotalOverflow,
    /// The campaign has not been initialized.
    NotInitialized,
    /// A donation arrived after the deadline.
    CampaignEnded,
    /// A withdrawal was asked for before the deadline had passed.
    CampaignNotEnded,
    /// A refund was asked for before the deadline had passed.
    RefundTooEarly,
    /// A refund was asked for although the goal was reached.
    GoalReached,
    /// A withdrawal was asked for although the goal was not reached.
    GoalNotReached,
    /// A withdrawal was asked for after the funds were withdrawn.
    AlreadyWithdrawn,
    /// A donation arrived after the funds were withdrawn.
    FundsWithdrawn,
    /// A refund was asked for by a donor with no outstanding donation.
    NoDonation,
    /// The asset ledger rejected the transfer.
    TransferFailed,
}

impl CampaignError {
    /// The class an error belongs to.
    pub open spec fn kind_of(self) -> ErrorKind {
        match self {
            CampaignError::Unauthorized | CampaignError::NotOwner => ErrorKind::Authorization,
            CampaignError::GoalTooLow
            | CampaignError::DeadlineNotInFuture
            | CampaignError::DonationTooSmall
            | CampaignError::TotalOverflow => ErrorKind::Validation,
            CampaignError::NotInitialized
            | CampaignError::CampaignEnded
            | CampaignError::CampaignNotEnded
            | CampaignError::RefundTooEarly
            | CampaignError::GoalReached
            | CampaignError::GoalNotReached
            | CampaignError::AlreadyWithdrawn
            | CampaignError::FundsWithdrawn
            | CampaignError::NoDonation => ErrorKind::State,
            CampaignError::TransferFailed => ErrorKind::Transfer,
        }
    }

    /// The class this error belongs to.
    pub fn kind(&self) -> (k: ErrorKind)
        ensures
            k == self.kind_of(),
    {
        match self {
            CampaignError::Unauthorized | CampaignError::NotOwner => ErrorKind::Authorization,
            CampaignError::GoalTooLow
            | CampaignError::DeadlineNotInFuture
            | CampaignError::DonationTooSmall
            | CampaignError::TotalOverflow => ErrorKind::Validation,
            CampaignError::NotInitialized
            | CampaignError::CampaignEnded
            | CampaignError::CampaignNotEnded
            | CampaignError::RefundTooEarly
            | CampaignError::GoalReached
            | CampaignError::GoalNotReached
            | CampaignError::AlreadyWithdrawn
            | CampaignError::FundsWithdrawn
            | CampaignError::NoDonation => ErrorKind::State,
            CampaignError::TransferFailed => ErrorKind::Transfer,
        }
    }

    /// The sentence that describes an error.
    pub open spec fn text(self) -> Seq<char> {
        match self {
            CampaignError::Unauthorized => "Caller is not authorized"@,
            CampaignError::NotOwner => "Only owner can withdraw"@,
            CampaignError::GoalTooLow => "Goal must be at least 10 XLM"@,
            CampaignError::DeadlineNotInFuture => "Deadline must be in the future"@,
            CampaignError::DonationTooSmall => "Minimum donation is 0.1 XLM"@,
            CampaignError::TotalOverflow => "Donation exceeds what the campaign can hold"@,
            CampaignError::NotInitialized => "Campaign is not initialized"@,
            CampaignError::CampaignEnded => "Campaign has ended"@,
            CampaignError::CampaignNotEnded => "Campaign has not ended yet"@,
            CampaignError::RefundTooEarly => "Campaign belum berakhir"@,
            CampaignError::GoalReached => "Goal sudah tercapai, tidak bisa refund"@,
            CampaignError::GoalNotReached => "Goal not reached, cannot withdraw"@,
            CampaignError::AlreadyWithdrawn => "Funds already withdrawn"@,
            CampaignError::FundsWithdrawn => "Campaign funds already withdrawn"@,
            CampaignError::NoDonation => "Tidak ada donasi untuk di-refund"@,
            CampaignError::TransferFailed => "Asset transfer failed"@,
        }
    }

    /// The sentence that describes this error.
    pub fn message(&self) -> (m: String)
        ensures
            m@ == self.text(),
    {
        match self {
            CampaignError::Unauthorized => "Caller is not authorized".to_owned(),
            CampaignError::NotOwner => "Only owner can withdraw".to_owned(),
            CampaignError::GoalTooLow => "Goal must be at least 10 XLM".to_owned(),
            CampaignError::DeadlineNotInFuture => "Deadline must be in the future".to_owned(),
            CampaignError::DonationTooSmall => "Minimum donation is 0.1 XLM".to_owned(),
            CampaignError::TotalOverflow => "Donation exceeds what the campaign can hold".to_owned(),
            CampaignError::NotInitialized => "Campaign is not initialized".to_owned(),
            CampaignError::CampaignEnded => "Campaign has ended".to_owned(),
            CampaignError::CampaignNotEnded => "Campaign has not ended yet".to_owned(),
            CampaignError::RefundTooEarly => "Campaign belum berakhir".to_owned(),
            CampaignError::GoalReached => "Goal sudah tercapai, tidak bisa refund".to_owned(),
            CampaignError::GoalNotReached => "Goal not reached, cannot withdraw".to_owned(),
            CampaignError::AlreadyWithdrawn => "Funds already withdrawn".to_owned(),
            CampaignError::FundsWithdrawn => "Campaign funds already withdrawn".to_owned(),
            CampaignError::NoDonation => "Tidak ada donasi untuk di-refund".to_owned(),
            CampaignError::TransferFailed => "Asset transfer failed".to_owned(),
        }
    }
}

} // verus!
