//! A campaign-funding ledger: a state machine that takes donations toward a
//! goal until a deadline, then lets the owner withdraw a reached goal or the
//! donors reclaim what they gave, and never loses or invents funds.
//!
//! Every operation is all or nothing. It takes the time and whether the
//! caller was authorized as arguments, decides before any funds move, and
//! changes the books only once the asset ledger has moved them.

/// The campaign itself: its operations and its read queries.
pub mod campaign;
/// Why an operation is rejected.
pub mod error;
/// The directory of the campaigns that were created.
pub mod factory;
/// The donation history and its pages.
pub mod history;
/// What is taken on trust of the hosting chain.
pub mod host;
/// What holds of every campaign, proved.
pub mod laws;
/// What each donor has outstanding.
pub mod ledger;
/// The campaign as mathematics sees it.
pub mod model;
/// The operations carried out against the hosting chain.
pub mod onchain;
/// Who acts on a campaign.
pub mod principal;

pub use campaign::{CampaignMetadata, CampaignSnapshot, CrowdfundingContract, TransferOrder};
pub use error::{CampaignError, ErrorKind};
pub use factory::{CampaignInfo, FactoryContract};
pub use history::{DonationLog, DonationRecord};
pub use ledger::{DonorLedger, LedgerEntry};
pub use model::{MIN_DONATION, MIN_GOAL};
pub use onchain::Receipt;
pub use principal::Principal;
