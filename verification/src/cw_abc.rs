//! Decisions of the augmented bonding curve contract: the execute guard and
//! the instantiate checks, with the state types its other modules share.
use vstd::prelude::*;
use vstd::string::*;
use crate::curves::DecimalPlaces;
use crate::reply_data::ReplyParseError;
use crate::cosmos::{Coin, InstantiateSubMsg, ReplyOn, WasmInstantiate};
use crate::token_setup::{IssuerInstantiateMsg, SupplyToken};

verus! {

/// Lifecycle phase of the commons.
#[derive(Clone, Copy, Debug, PartialEq, Eq, Structural)]
pub enum CommonsPhase {
    Hatch,
    Open,
    Closed,
}

/// Progress of the permissionless, batched reconstruction of the aggregate
/// hatch contribution.
#[derive(Clone, Debug, PartialEq, Eq)]
pub struct HatchContributionsMigrationProgress {
    /// Last hatcher key that was summed, `None` before the first batch.
    pub cursor: Option<String>,
    /// Sum of the contributions of every hatcher up to and including `cursor`.
    pub partial_total: u128,
}

/// Errors of the bonding curve contract's own decisions.
#[allow(inconsistent_fields)]
#[derive(Clone, Debug, PartialEq, Eq)]
pub enum ContractError {
    /// A checked `Uint128` addition overflowed.
    Overflow,
    /// Address validation or another standard failure, with its message.
    Std(String),
    InvalidDecimals { decimals: u8, max: u8 },
    SupplyTokenError(String),
    MigrationInProgress,
    NoMigrationInProgress,
    Paused,
    InvalidMigration { expected: String, actual: String },
    HatchRaiseCapAlreadyReached { max: u128, reserve: u128 },
    InsufficientHatchEscrow { required: u128, available: u128 },
    UnknownReplyId { id: u64 },
    ParseReplyError(ReplyParseError),
}

/// The cw2 identity of the contract.
pub const CONTRACT_NAME: &'static str = "crates.io:cw-abc";

/// Hard protocol bound on the hatchers summed by one continuation call.
pub const HATCH_MIGRATION_BATCH_SIZE: usize = 100;

/// Largest number of decimals accepted for the supply and reserve tokens.
pub const MAX_DECIMALS: u8 = 28;

/// Reply id of the token-issuer instantiation.
pub const INSTANTIATE_TOKEN_FACTORY_ISSUER_REPLY_ID: u64 = 0;

// ---------------------------------------------------------------------------
// Execute guard
// ---------------------------------------------------------------------------

/// Where an execute message goes once it is admitted.
#[derive(Clone, Copy, Debug, PartialEq, Eq, Structural)]
pub enum ExecuteRoute {
    /// `ContinueHatchContributionsMigration {}`: always admitted.
    ContinueMigration,
    /// Any other message: handed to its command.
    Dispatch,
}

/// The guard in front of every execute message, given the stored migration
/// progress (what the migration-status query reports). Continuation is
/// permissionless and admitted even while paused; every other message is
/// locked while the status reports progress, and while paused only the owner
/// may act.
pub fn execute(
    is_continue_migration: bool,
    migration_status: &Option<HatchContributionsMigrationProgress>,
    is_paused: bool,
    sender_is_owner: bool,
) -> (r: Result<ExecuteRoute, ContractError>)
    ensures
        r == (if is_continue_migration {
            Ok(ExecuteRoute::ContinueMigration)
        } else if migration_status is Some {
            Err(ContractError::MigrationInProgress)
        } else if is_paused && !sender_is_owner {
            Err(ContractError::Paused)
        } else {
            Ok(ExecuteRoute::Dispatch)
        }),
{
    if is_continue_migration {
        return Ok(ExecuteRoute::ContinueMigration);
    }
    if migration_status.is_some() {
        return Err(ContractError::MigrationInProgress);
    }
    if is_paused && !sender_is_owner {
        return Err(ContractError::Paused);
    }
    Ok(ExecuteRoute::Dispatch)
}

// ---------------------------------------------------------------------------
// Instantiate
// ---------------------------------------------------------------------------

/// Token decimals are bounded so that `10^decimals` stays representable.
pub fn validate_decimals(supply_decimals: u8, reserve_decimals: u8) -> (r: Result<(), ContractError>)
    ensures
        r == (if supply_decimals > MAX_DECIMALS {
            Err(ContractError::InvalidDecimals { decimals: supply_decimals, max: MAX_DECIMALS })
        } else if reserve_decimals > MAX_DECIMALS {
            Err(ContractError::InvalidDecimals { decimals: reserve_decimals, max: MAX_DECIMALS })
        } else {
            Ok(())
        }),
{
    if supply_decimals > MAX_DECIMALS {
        return Err(ContractError::InvalidDecimals { decimals: supply_decimals, max: MAX_DECIMALS });
    }
    if reserve_decimals > MAX_DECIMALS {
        return Err(ContractError::InvalidDecimals { decimals: reserve_decimals, max: MAX_DECIMALS });
    }
    Ok(())
}

/// The supply token's subdenom must not be empty.
pub fn validate_subdenom(subdenom: &String) -> (r: Result<(), ContractError>)
    ensures
        r is Ok <==> subdenom@.len() > 0,
        r matches Err(e) ==> e matches ContractError::SupplyTokenError(m) && m@
            == "Token subdenom must not be empty."@,
{
    if subdenom.as_str().is_empty() {
        return Err(
            ContractError::SupplyTokenError(String::from_str("Token subdenom must not be empty.")),
        );
    }
    Ok(())
}

/// Label of the token-factory issuer instance.
pub const TOKEN_ISSUER_LABEL: &'static str = "cw-tokenfactory-issuer";

/// Curve accounting at instantiation.
#[derive(Clone, Debug, PartialEq, Eq)]
pub struct CurveState {
    pub reserve: u128,
    pub funding: u128,
    pub supply: u128,
    pub reserve_denom: String,
    pub decimals: DecimalPlaces,
}

/// The reserve token of the curve.
#[derive(Clone, Debug, PartialEq, Eq)]
pub struct ReserveToken {
    pub denom: String,
    pub decimals: u8,
}

/// The instantiate message. `C` is the curve type, `P` the phase
/// configuration and `H` an entry of the hatcher allowlist, each carried as
/// given.
#[derive(Clone, Debug, PartialEq, Eq)]
pub struct InstantiateMsg<C, P, H> {
    pub token_issuer_code_id: u64,
    /// The address funds are forwarded to, before validation.
    pub funding_pool_forwarding: Option<String>,
    pub supply: SupplyToken,
    pub reserve: ReserveToken,
    pub curve_type: C,
    pub phase_config: P,
    pub hatcher_allowlist: Option<Vec<H>>,
}

/// An instantiation request: the message with its sender and funds.
#[derive(Debug, PartialEq, Eq)]
pub struct InstantiateRequest<C, P, H> {
    pub sender: String,
    pub funds: Vec<Coin>,
    pub msg: InstantiateMsg<C, P, H>,
    /// The package version recorded under the contract's cw2 identity.
    pub contract_version: String,
}

/// Outcomes of the checks that other components make during instantiation.
#[derive(Debug, PartialEq, Eq)]
pub struct InstantiateChecks {
    /// Validation of the phase configuration.
    pub phase_config: Result<(), ContractError>,
    /// Validation of the funding-pool address, when one is given.
    pub funding_pool_forwarding: Option<Result<String, String>>,
    /// Validation of the curve type against the decimal places and the
    /// maximum supply.
    pub curve_type: Result<(), ContractError>,
    /// The hatcher allowlist update, when a list is given.
    pub hatcher_allowlist: Option<Result<(), ContractError>>,
}

/// The state written and the issuer instantiation requested by a successful
/// instantiation.
#[derive(Debug, PartialEq, Eq)]
pub struct InstantiatePlan<C, P> {
    pub cw2_contract: String,
    pub cw2_version: String,
    /// The owner, with no pending transfer.
    pub owner: String,
    pub funding_pool_forwarding: Option<String>,
    /// Stored only when present.
    pub max_supply: Option<u128>,
    pub curve_type: C,
    pub phase_config: P,
    pub phase: CommonsPhase,
    pub curve_state: CurveState,
    /// Kept until the issuer's reply.
    pub temp_supply: SupplyToken,
    pub total_hatch_contributions: u128,
    pub hatch_contributions_migration: Option<HatchContributionsMigrationProgress>,
    pub is_paused: bool,
    /// The only message of the response, which carries no attribute.
    pub issuer: InstantiateSubMsg<IssuerInstantiateMsg>,
}

/// Every instantiation check passes.
pub open spec fn instantiate_checks_pass<C, P, H>(
    request: InstantiateRequest<C, P, H>,
    checks: InstantiateChecks,
) -> bool {
    &&& checks.phase_config is Ok
    &&& request.msg.supply.decimals <= MAX_DECIMALS
    &&& request.msg.reserve.decimals <= MAX_DECIMALS
    &&& !(checks.funding_pool_forwarding matches Some(Err(_)))
    &&& request.msg.supply.subdenom@.len() > 0
    &&& checks.curve_type is Ok
    &&& !(checks.hatcher_allowlist matches Some(Err(_)))
}

/// `e` is the error of the first failing instantiation check, in this order:
/// phase configuration, token decimals (supply, then reserve), funding-pool
/// address, subdenom, curve type, hatcher allowlist.
pub open spec fn is_first_instantiate_error<C, P, H>(
    request: InstantiateRequest<C, P, H>,
    checks: InstantiateChecks,
    e: ContractError,
) -> bool {
    if checks.phase_config is Err {
        e == checks.phase_config->Err_0
    } else if request.msg.supply.decimals > MAX_DECIMALS {
        e == ContractError::InvalidDecimals { decimals: request.msg.supply.decimals, max: MAX_DECIMALS }
    } else if request.msg.reserve.decimals > MAX_DECIMALS {
        e == ContractError::InvalidDecimals { decimals: request.msg.reserve.decimals, max: MAX_DECIMALS }
    } else if checks.funding_pool_forwarding is Some && checks.funding_pool_forwarding->Some_0 is Err {
        e == ContractError::Std(checks.funding_pool_forwarding->Some_0->Err_0)
    } else if request.msg.supply.subdenom@.len() == 0 {
        e matches ContractError::SupplyTokenError(m) && m@ == "Token subdenom must not be empty."@
    } else if checks.curve_type is Err {
        e == checks.curve_type->Err_0
    } else if checks.hatcher_allowlist is Some && checks.hatcher_allowlist->Some_0 is Err {
        e == checks.hatcher_allowlist->Some_0->Err_0
    } else {
        false
    }
}

/// Law: instantiation passes its checks only when each of them passes: the
/// phase configuration, both decimals at most 28, the funding-pool address
/// (when given), a non-empty subdenom, the curve type (whatever the maximum
/// supply) and the allowlist update (when given); and once the earlier checks
/// pass, a curve-type failure is the error reported, as it is.
pub proof fn lemma_instantiate_checks_each_pass<C, P, H>(
    request: InstantiateRequest<C, P, H>,
    checks: InstantiateChecks,
    e: ContractError,
)
    ensures
        instantiate_checks_pass(request, checks) ==> checks.phase_config is Ok
            && checks.curve_type is Ok && request.msg.supply.decimals <= 28
            && request.msg.reserve.decimals <= 28 && request.msg.supply.subdenom@.len() > 0
            && !(checks.funding_pool_forwarding matches Some(Err(_))) && !(
        checks.hatcher_allowlist matches Some(Err(_))),
        checks.curve_type is Err ==> !instantiate_checks_pass(request, checks),
        (checks.phase_config is Ok && request.msg.supply.decimals <= 28
            && request.msg.reserve.decimals <= 28 && !(checks.funding_pool_forwarding matches Some(
            Err(_),
        )) && request.msg.supply.subdenom@.len() > 0 && checks.curve_type is Err) ==> (
        is_first_instantiate_error(request, checks, e) <==> e == checks.curve_type->Err_0),
{
}

/// Instantiation: the checks in order, then a curve that starts empty in the
/// Hatch phase, unpaused, owned by the sender, with no hatch contribution and
/// no migration in progress, and the token-factory issuer instantiated from
/// the sent funds, without admin, replying under id 0 in every case.
pub fn instantiate<C, P, H>(request: InstantiateRequest<C, P, H>, checks: InstantiateChecks) -> (r: Result<
    InstantiatePlan<C, P>,
    ContractError,
>)
    ensures
        r is Ok <==> instantiate_checks_pass(request, checks),
        r matches Err(e) ==> is_first_instantiate_error(request, checks, e),
        r is Ok ==> checks.phase_config is Ok && checks.curve_type is Ok
            && request.msg.supply.decimals <= 28 && request.msg.reserve.decimals <= 28
            && request.msg.supply.subdenom@.len() > 0 && !(checks.funding_pool_forwarding matches Some(
            Err(_),
        )) && !(checks.hatcher_allowlist matches Some(Err(_))),
        (checks.phase_config is Ok && request.msg.supply.decimals <= 28
            && request.msg.reserve.decimals <= 28 && !(checks.funding_pool_forwarding matches Some(
            Err(_),
        )) && request.msg.supply.subdenom@.len() > 0 && checks.curve_type is Err) ==> r == Err::<
            InstantiatePlan<C, P>,
            ContractError,
        >(checks.curve_type->Err_0),
        r matches Ok(plan) ==> {
            &&& plan.cw2_contract@ == CONTRACT_NAME@
            &&& plan.cw2_version == request.contract_version
            &&& plan.owner == request.sender
            &&& plan.funding_pool_forwarding == match checks.funding_pool_forwarding {
                Some(Ok(a)) => Some(a),
                _ => None,
            }
            &&& plan.max_supply == request.msg.supply.max_supply
            &&& plan.curve_type == request.msg.curve_type
            &&& plan.phase_config == request.msg.phase_config
            &&& plan.phase == CommonsPhase::Hatch
            &&& plan.curve_state == CurveState {
                reserve: 0,
                funding: 0,
                supply: 0,
                reserve_denom: request.msg.reserve.denom,
                decimals: DecimalPlaces {
                    supply: request.msg.supply.decimals as u32,
                    reserve: request.msg.reserve.decimals as u32,
                },
            }
            &&& plan.temp_supply == request.msg.supply
            &&& plan.total_hatch_contributions == 0
            &&& plan.hatch_contributions_migration is None
            &&& !plan.is_paused
            &&& plan.issuer.id == INSTANTIATE_TOKEN_FACTORY_ISSUER_REPLY_ID
            &&& plan.issuer.reply_on == ReplyOn::Always
            &&& plan.issuer.instantiate.admin is None
            &&& plan.issuer.instantiate.code_id == request.msg.token_issuer_code_id
            &&& plan.issuer.instantiate.msg == IssuerInstantiateMsg::NewToken {
                subdenom: request.msg.supply.subdenom,
            }
            &&& plan.issuer.instantiate.funds == request.funds
            &&& plan.issuer.instantiate.label@ == TOKEN_ISSUER_LABEL@
        },
{
    match checks.phase_config {
        Ok(()) => {},
        Err(e) => return Err(e),
    }
    match validate_decimals(request.msg.supply.decimals, request.msg.reserve.decimals) {
        Ok(()) => {},
        Err(e) => return Err(e),
    }
    let funding_pool = match checks.funding_pool_forwarding {
        Some(Ok(a)) => Some(a),
        Some(Err(m)) => return Err(ContractError::Std(m)),
        None => None,
    };
    match validate_subdenom(&request.msg.supply.subdenom) {
        Ok(()) => {},
        Err(e) => return Err(e),
    }
    match checks.curve_type {
        Ok(()) => {},
        Err(e) => return Err(e),
    }
    match checks.hatcher_allowlist {
        Some(Err(e)) => return Err(e),
        _ => {},
    }
    let decimals = DecimalPlaces::new(request.msg.supply.decimals, request.msg.reserve.decimals);
    let subdenom = request.msg.supply.subdenom.clone();
    Ok(
        InstantiatePlan {
            cw2_contract: String::from_str(CONTRACT_NAME),
            cw2_version: request.contract_version,
            owner: request.sender,
            funding_pool_forwarding: funding_pool,
            max_supply: request.msg.supply.max_supply,
            curve_type: request.msg.curve_type,
            phase_config: request.msg.phase_config,
            phase: CommonsPhase::Hatch,
            curve_state: CurveState {
                reserve: 0,
                funding: 0,
                supply: 0,
                reserve_denom: request.msg.reserve.denom,
                decimals,
            },
            temp_supply: request.msg.supply,
            total_hatch_contributions: 0,
            hatch_contributions_migration: None,
            is_paused: false,
            issuer: InstantiateSubMsg {
                id: INSTANTIATE_TOKEN_FACTORY_ISSUER_REPLY_ID,
                reply_on: ReplyOn::Always,
                instantiate: WasmInstantiate {
                    admin: None,
                    code_id: request.msg.token_issuer_code_id,
                    msg: IssuerInstantiateMsg::NewToken { subdenom },
                    funds: request.funds,
                    label: String::from_str(TOKEN_ISSUER_LABEL),
                },
            },
        },
    )
}

} // verus!
