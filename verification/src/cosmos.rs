//! Plain-value forms of the chain messages that the contracts exchange.
use vstd::prelude::*;

verus! {

/// An amount of a native denomination.
#[derive(Clone, Debug, PartialEq, Eq)]
pub struct Coin {
    pub denom: String,
    pub amount: u128,
}

/// When a pending ownership transfer lapses.
#[derive(Clone, Copy, Debug, PartialEq, Eq, Structural)]
pub enum Expiration {
    AtHeight(u64),
    /// Block time in nanoseconds.
    AtTime(u64),
    Never,
}

/// The two-step ownership actions every ownable contract accepts.
#[derive(Clone, Debug, PartialEq, Eq)]
pub enum OwnershipAction {
    TransferOwnership { new_owner: String, expiry: Option<Expiration> },
    AcceptOwnership,
    RenounceOwnership,
}

/// A cw20 transfer notification: `amount` tokens of the sending cw20
/// contract were sent by `sender`, with an attached payload.
#[derive(Clone, Debug, PartialEq, Eq)]
pub struct Cw20ReceiveMsg {
    pub sender: String,
    pub amount: u128,
    pub msg: Vec<u8>,
}

/// A denomination as given by a caller, before validation.
#[derive(Clone, Debug, PartialEq, Eq)]
pub enum UncheckedDenom {
    Native(String),
    Cw20(String),
}

/// A validated denomination: a native denom or a cw20 contract address.
#[derive(Clone, Debug, PartialEq, Eq)]
pub enum CheckedDenom {
    Native(String),
    Cw20(String),
}

/// When a sub-message's outcome is reported back to the sender.
#[derive(Clone, Copy, Debug, PartialEq, Eq, Structural)]
pub enum ReplyOn {
    Always,
    Error,
    Success,
    Never,
}

/// Instantiation of a contract from stored code with the instantiate
/// message `msg`, which is sent serialized.
#[derive(Clone, Debug, PartialEq, Eq)]
pub struct WasmInstantiate<M> {
    pub admin: Option<String>,
    pub code_id: u64,
    pub msg: M,
    pub funds: Vec<Coin>,
    pub label: String,
}

/// An instantiation sent as a sub-message, reported back under `id` as
/// `reply_on` says.
#[derive(Clone, Debug, PartialEq, Eq)]
pub struct InstantiateSubMsg<M> {
    pub id: u64,
    pub reply_on: ReplyOn,
    pub instantiate: WasmInstantiate<M>,
}

} // verus!
