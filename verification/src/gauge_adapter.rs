//! Data model of the marketing gauge adapter: its configuration, the project
//! registry with explicit bonds, its messages and its errors.
use vstd::prelude::*;
use crate::cosmos::{CheckedDenom, Cw20ReceiveMsg, OwnershipAction, UncheckedDenom};
use crate::decimal::StdDecimal;

verus! {

/// An amount of a validated denomination.
#[derive(Clone, Debug, PartialEq, Eq)]
pub struct Asset {
    pub denom: CheckedDenom,
    pub amount: u128,
}

/// An amount of a denomination given by a caller.
#[derive(Clone, Debug, PartialEq, Eq)]
pub struct AssetUnchecked {
    pub denom: UncheckedDenom,
    pub amount: u128,
}

/// Adapter configuration.
#[derive(Clone, Debug, PartialEq, Eq)]
pub struct Config {
    /// Deposit required for a valid submission.
    pub required_deposit: Option<Asset>,
    /// Address of the contract that receives forfeited deposits.
    pub community_pool: String,
    /// Total reward amount.
    pub reward: Asset,
}

/// Lifecycle of a submission bond; each exit is final.
#[derive(Clone, Copy, Debug, PartialEq, Eq, Structural)]
pub enum BondState {
    Active,
    Refunded,
    Forfeited,
}

/// The escrow liability created by one submission.
#[derive(Clone, Debug, PartialEq, Eq)]
pub struct Bond {
    pub asset: Asset,
    pub depositor: String,
    pub state: BondState,
}

/// A registered project, keyed by its fund destination address.
#[derive(Clone, Debug, PartialEq, Eq)]
pub struct Submission {
    pub sender: String,
    pub name: String,
    pub url: String,
    /// Synthetic entries have no bond.
    pub bond: Option<Bond>,
}

#[derive(Clone, Debug, PartialEq, Eq)]
pub struct InstantiateMsg {
    pub owner: String,
    pub required_deposit: Option<AssetUnchecked>,
    pub community_pool: String,
    pub reward: AssetUnchecked,
}

#[derive(Clone, Debug, PartialEq, Eq)]
pub enum ExecuteMsg {
    /// Cw20 receiver interface.
    Receive(Cw20ReceiveMsg),
    /// Registers a project; native deposits only.
    CreateSubmission { name: String, url: String, address: String },
    /// Refunds active bonds in bounded batches.
    ReturnDeposits,
    /// Owner-only removal of a submission, refunding (`soft`) or forfeiting
    /// its bond.
    Reject { submission: String, soft: bool },
    UpdateOwnership(OwnershipAction),
}

/// Payload of a cw20 deposit.
#[derive(Clone, Debug, PartialEq, Eq)]
pub enum ReceiveMsg {
    /// Registers a project; cw20 deposits only.
    CreateSubmission { name: String, url: String, address: String },
}

#[derive(Clone, Copy, Debug, PartialEq, Eq, Structural)]
pub struct MigrateMsg {}

#[derive(Clone, Debug, PartialEq, Eq)]
pub enum QueryMsg {
    Config,
    AllOptions { start_after: Option<String>, limit: Option<u32> },
    CheckOption { option: String },
    SampleGaugeMsgs {
        selected: Vec<(String, StdDecimal)>,
        epoch_budget: Option<u128>,
        available_balance: Option<u128>,
        denom: Option<String>,
    },
    Submission { address: String },
    AllSubmissions { start_after: Option<String>, limit: Option<u32> },
    SubmissionsBySender { sender: String, start_after: Option<String>, limit: Option<u32> },
    Liabilities,
    Ownership,
}

#[derive(Clone, Debug, PartialEq, Eq)]
pub struct SubmissionResponse {
    pub sender: String,
    pub name: String,
    pub url: String,
    pub address: String,
}

#[derive(Clone, Debug, PartialEq, Eq)]
pub struct AllSubmissionsResponse {
    pub submissions: Vec<SubmissionResponse>,
}

#[derive(Clone, Debug, PartialEq, Eq)]
pub struct LiabilitiesResponse {
    pub asset: Option<Asset>,
    pub escrow_balance: u128,
    pub refund_cursor: Option<String>,
    pub refunds_complete: bool,
}

/// Errors of the adapter.
#[allow(inconsistent_fields)]
#[derive(Clone, Debug, PartialEq, Eq)]
pub enum ContractError {
    Std(String),
    PaymentError(String),
    DenomError(String),
    Ownership(String),
    UnauthorizedSubmission,
    InvalidDepositType,
    InvalidDepositAmount { correct_amount: u128 },
    ZeroRequiredDeposit,
    NoDepositToRefund,
    SubmissionNotFound(String),
    CannotRejectDefault,
    DepositOnMetadataUpdate,
    RefundInProgress,
    LiabilityOverflow,
    LiabilityUnderflow,
    EscrowShortfall { balance: u128, liabilities: u128 },
    TooManySubmissions { max: usize },
    UnsupportedMigrationSource { version: String },
    StringTooLong { field: String, max: usize },
}

} // verus!
