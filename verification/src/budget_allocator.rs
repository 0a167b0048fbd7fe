//! Messages of the budget allocator, the minimal curated-list gauge adapter.
use vstd::prelude::*;
use crate::cosmos::{Coin, OwnershipAction};
use crate::decimal::StdDecimal;

verus! {

#[derive(Clone, Debug, PartialEq, Eq)]
pub struct InstantiateMsg {
    /// The only address allowed to change the options and the budget.
    pub owner: String,
    /// Initial set of valid options.
    pub options: Vec<String>,
    /// Per-epoch budget distributed proportionally to the weights.
    pub epoch_budget: Coin,
}

#[derive(Clone, Debug, PartialEq, Eq)]
pub enum ExecuteMsg {
    AddOption { option: String },
    RemoveOption { option: String },
    UpdateBudget { epoch_budget: Coin },
    UpdateOwnership(OwnershipAction),
}

#[derive(Clone, Debug, PartialEq, Eq)]
pub enum QueryMsg {
    Config,
    AllOptions { start_after: Option<String>, limit: Option<u32> },
    CheckOption { option: String },
    /// Option and weight pairs, weights summing to at most one.
    SampleGaugeMsgs {
        selected: Vec<(String, StdDecimal)>,
        epoch_budget: Option<u128>,
        available_balance: Option<u128>,
        denom: Option<String>,
    },
    Ownership,
}

} // verus!
