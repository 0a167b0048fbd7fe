use dao_contracts::cosmos::{Coin, InstantiateSubMsg, ReplyOn, WasmInstantiate};
use dao_contracts::cw_abc::{
    execute, instantiate, validate_decimals, validate_subdenom, CommonsPhase, ContractError,
    CurveState, ExecuteRoute, HatchContributionsMigrationProgress, InstantiateChecks,
    InstantiateMsg, InstantiatePlan, InstantiateRequest, ReserveToken,
};
use dao_contracts::token_setup::{IssuerInstantiateMsg, SupplyToken};
use dao_contracts::hatch_migration::{
    assert_hatch_escrow, continue_hatch_contributions_migration, migrate, MarkerAction,
    MigratePlan, MigrationStep,
};
use dao_contracts::DecimalPlaces;

fn progress() -> Option<HatchContributionsMigrationProgress> {
    Some(HatchContributionsMigrationProgress { cursor: None, partial_total: 0 })
}

#[test]
fn continuation_is_admitted_even_while_paused_or_migrating() {
    assert_eq!(execute(true, &progress(), true, false), Ok(ExecuteRoute::ContinueMigration));
    assert_eq!(execute(true, &None, false, false), Ok(ExecuteRoute::ContinueMigration));
}

#[test]
fn ordinary_messages_are_locked_while_migrating() {
    assert_eq!(execute(false, &progress(), false, true), Err(ContractError::MigrationInProgress));
    assert_eq!(execute(false, &progress(), true, true), Err(ContractError::MigrationInProgress));
}

#[test]
fn only_the_owner_acts_while_paused() {
    assert_eq!(execute(false, &None, true, false), Err(ContractError::Paused));
    assert_eq!(execute(false, &None, true, true), Ok(ExecuteRoute::Dispatch));
    assert_eq!(execute(false, &None, false, false), Ok(ExecuteRoute::Dispatch));
}

#[test]
fn token_decimals_are_bounded_by_twenty_eight() {
    assert_eq!(validate_decimals(28, 28), Ok(()));
    assert_eq!(
        validate_decimals(29, 40),
        Err(ContractError::InvalidDecimals { decimals: 29, max: 28 })
    );
    assert_eq!(
        validate_decimals(6, 39),
        Err(ContractError::InvalidDecimals { decimals: 39, max: 28 })
    );
}

#[test]
fn subdenom_must_not_be_empty() {
    assert_eq!(
        validate_subdenom(&String::new()),
        Err(ContractError::SupplyTokenError("Token subdenom must not be empty.".to_string()))
    );
    assert_eq!(validate_subdenom(&"uabc".to_string()), Ok(()));
}

fn request(supply_decimals: u8, reserve_decimals: u8, subdenom: &str) -> InstantiateRequest<String, u8, String> {
    InstantiateRequest {
        sender: "creator".to_string(),
        funds: vec![Coin { denom: "ujuno".to_string(), amount: 10 }],
        msg: InstantiateMsg {
            token_issuer_code_id: 4,
            funding_pool_forwarding: Some("pool".to_string()),
            supply: SupplyToken {
                subdenom: subdenom.to_string(),
                metadata: None,
                decimals: supply_decimals,
                max_supply: Some(1000),
            },
            reserve: ReserveToken { denom: "ujuno".to_string(), decimals: reserve_decimals },
            curve_type: "linear".to_string(),
            phase_config: 3,
            hatcher_allowlist: Some(vec!["h".to_string()]),
        },
        contract_version: "2.6.0".to_string(),
    }
}

fn passing() -> InstantiateChecks {
    InstantiateChecks {
        phase_config: Ok(()),
        funding_pool_forwarding: Some(Ok("pool".to_string())),
        curve_type: Ok(()),
        hatcher_allowlist: Some(Ok(())),
    }
}

#[test]
fn instantiate_starts_an_empty_unpaused_hatch() {
    let plan = instantiate(request(6, 6, "uabc"), passing());
    assert_eq!(
        plan,
        Ok(InstantiatePlan {
            cw2_contract: "crates.io:cw-abc".to_string(),
            cw2_version: "2.6.0".to_string(),
            owner: "creator".to_string(),
            funding_pool_forwarding: Some("pool".to_string()),
            max_supply: Some(1000),
            curve_type: "linear".to_string(),
            phase_config: 3,
            phase: CommonsPhase::Hatch,
            curve_state: CurveState {
                reserve: 0,
                funding: 0,
                supply: 0,
                reserve_denom: "ujuno".to_string(),
                decimals: DecimalPlaces { supply: 6, reserve: 6 },
            },
            temp_supply: request(6, 6, "uabc").msg.supply,
            total_hatch_contributions: 0,
            hatch_contributions_migration: None,
            is_paused: false,
            issuer: InstantiateSubMsg {
                id: 0,
                reply_on: ReplyOn::Always,
                instantiate: WasmInstantiate {
                    admin: None,
                    code_id: 4,
                    msg: IssuerInstantiateMsg::NewToken { subdenom: "uabc".to_string() },
                    funds: vec![Coin { denom: "ujuno".to_string(), amount: 10 }],
                    label: "cw-tokenfactory-issuer".to_string(),
                },
            },
        })
    );
}

#[test]
fn instantiate_checks_in_order() {
    let mut checks = passing();
    checks.phase_config = Err(ContractError::Std("phase".to_string()));
    checks.funding_pool_forwarding = Some(Err("bad".to_string()));
    checks.curve_type = Err(ContractError::Std("curve".to_string()));
    checks.hatcher_allowlist = Some(Err(ContractError::Std("allowlist".to_string())));
    assert_eq!(
        instantiate(request(30, 6, ""), checks).err(),
        Some(ContractError::Std("phase".to_string()))
    );
    let mut checks = passing();
    checks.funding_pool_forwarding = Some(Err("bad".to_string()));
    checks.curve_type = Err(ContractError::Std("curve".to_string()));
    assert_eq!(
        instantiate(request(30, 6, ""), checks).err(),
        Some(ContractError::InvalidDecimals { decimals: 30, max: 28 })
    );
    let mut checks = passing();
    checks.funding_pool_forwarding = Some(Err("bad".to_string()));
    assert_eq!(
        instantiate(request(6, 29, ""), checks).err(),
        Some(ContractError::InvalidDecimals { decimals: 29, max: 28 })
    );
    let mut checks = passing();
    checks.funding_pool_forwarding = Some(Err("bad".to_string()));
    assert_eq!(
        instantiate(request(6, 6, ""), checks).err(),
        Some(ContractError::Std("bad".to_string()))
    );
    let mut checks = passing();
    checks.curve_type = Err(ContractError::Std("curve".to_string()));
    assert_eq!(
        instantiate(request(6, 6, ""), checks).err(),
        Some(ContractError::SupplyTokenError("Token subdenom must not be empty.".to_string()))
    );
    let mut checks = passing();
    checks.curve_type = Err(ContractError::Std("curve".to_string()));
    checks.hatcher_allowlist = Some(Err(ContractError::Std("allowlist".to_string())));
    assert_eq!(
        instantiate(request(6, 6, "uabc"), checks).err(),
        Some(ContractError::Std("curve".to_string()))
    );
    let mut checks = passing();
    checks.hatcher_allowlist = Some(Err(ContractError::Std("allowlist".to_string())));
    assert_eq!(
        instantiate(request(6, 6, "uabc"), checks).err(),
        Some(ContractError::Std("allowlist".to_string()))
    );
}

#[test]
fn instantiate_without_optional_settings() {
    let checks = InstantiateChecks {
        phase_config: Ok(()),
        funding_pool_forwarding: None,
        curve_type: Ok(()),
        hatcher_allowlist: None,
    };
    let plan = instantiate(request(0, 28, "u"), checks).unwrap();
    assert_eq!(plan.funding_pool_forwarding, None);
    assert_eq!(plan.curve_state.decimals, DecimalPlaces { supply: 0, reserve: 28 });
}

fn hatchers(n: usize, each: u128) -> Vec<(String, u128)> {
    (0..n).map(|i| (format!("hatcher{i:04}"), each)).collect()
}

fn fresh() -> Option<HatchContributionsMigrationProgress> {
    Some(HatchContributionsMigrationProgress { cursor: None, partial_total: 0 })
}

/// Runs the continuation over an ordered map, feeding each call the entries
/// after the stored cursor, as storage does. Returns the final total and the
/// number of calls.
fn run(map: &[(String, u128)]) -> Result<(u128, usize), ContractError> {
    let mut progress = fresh();
    let mut calls = 0;
    loop {
        calls += 1;
        let start = match &progress.as_ref().unwrap().cursor {
            None => 0,
            Some(c) => map.iter().position(|(k, _)| k == c).unwrap() + 1,
        };
        let batch: Vec<(String, u128)> = map[start..].iter().take(101).cloned().collect();
        match continue_hatch_contributions_migration(progress.clone(), &batch)? {
            MigrationStep::Continue { progress: p, .. } => progress = Some(p),
            MigrationStep::Finalize { total, .. } => return Ok((total, calls)),
        }
    }
}

#[test]
fn continuation_without_progress_is_refused() {
    assert_eq!(
        continue_hatch_contributions_migration(None, &vec![]),
        Err(ContractError::NoMigrationInProgress)
    );
}

#[test]
fn empty_hatcher_map_finalizes_at_zero() {
    assert_eq!(
        continue_hatch_contributions_migration(fresh(), &vec![]),
        Ok(MigrationStep::Finalize { total: 0, processed: 0 })
    );
}

#[test]
fn lookahead_entry_is_not_summed_and_cursor_is_last_summed_key() {
    let map = hatchers(101, 2);
    assert_eq!(
        continue_hatch_contributions_migration(fresh(), &map),
        Ok(MigrationStep::Continue {
            progress: HatchContributionsMigrationProgress {
                cursor: Some("hatcher0099".to_string()),
                partial_total: 200,
            },
            processed: 100,
        })
    );
}

#[test]
fn exact_batch_multiple_finalizes_without_empty_call() {
    assert_eq!(run(&hatchers(100, 3)), Ok((300, 1)));
    assert_eq!(run(&hatchers(200, 3)), Ok((600, 2)));
}

#[test]
fn repeated_continuation_sums_every_hatcher_once() {
    let mut map = hatchers(250, 0);
    for (i, e) in map.iter_mut().enumerate() {
        e.1 = i as u128 + 1;
    }
    assert_eq!(run(&map), Ok((250 * 251 / 2, 3)));
    assert_eq!(run(&hatchers(1, 5)), Ok((5, 1)));
}

#[test]
fn continuation_overflow_is_an_error() {
    let map = vec![("a".to_string(), u128::MAX), ("b".to_string(), 1)];
    assert_eq!(run(&map), Err(ContractError::Overflow));
    let resumed = Some(HatchContributionsMigrationProgress {
        cursor: Some("x".into()),
        partial_total: u128::MAX,
    });
    assert_eq!(
        continue_hatch_contributions_migration(resumed, &vec![("y".to_string(), 1)]),
        Err(ContractError::Overflow)
    );
}

#[test]
fn escrow_must_cover_the_aggregate() {
    assert_eq!(assert_hatch_escrow(100, 100), Ok(()));
    assert_eq!(assert_hatch_escrow(100, 250), Ok(()));
    assert_eq!(
        assert_hatch_escrow(100, 99),
        Err(ContractError::InsufficientHatchEscrow { required: 100, available: 99 })
    );
}

fn name() -> String {
    "crates.io:cw-abc".to_string()
}

#[test]
fn migration_refuses_another_contract() {
    assert_eq!(
        migrate(&"crates.io:other".to_string(), Ok(()), Ok(()), CommonsPhase::Open, 0, 10, Some(0), false),
        Err(ContractError::InvalidMigration {
            expected: "crates.io:cw-abc".to_string(),
            actual: "crates.io:other".to_string(),
        })
    );
}

#[test]
fn migration_refuses_hatch_at_raise_cap() {
    assert_eq!(
        migrate(&name(), Ok(()), Ok(()), CommonsPhase::Hatch, 10, 10, Some(0), false),
        Err(ContractError::HatchRaiseCapAlreadyReached { max: 10, reserve: 10 })
    );
    assert!(migrate(&name(), Ok(()), Ok(()), CommonsPhase::Open, 10, 10, Some(0), false).is_ok());
}

#[test]
fn present_aggregate_is_checked_in_hatch_and_heals_marker() {
    assert_eq!(
        migrate(&name(), Ok(()), Ok(()), CommonsPhase::Hatch, 5, 10, Some(7), true),
        Ok(MigratePlan { escrow_required: Some(7), marker: MarkerAction::Remove })
    );
    assert_eq!(
        migrate(&name(), Ok(()), Ok(()), CommonsPhase::Closed, 50, 10, Some(7), true),
        Ok(MigratePlan { escrow_required: None, marker: MarkerAction::Remove })
    );
}

#[test]
fn missing_aggregate_in_hatch_installs_progress_once() {
    assert_eq!(
        migrate(&name(), Ok(()), Ok(()), CommonsPhase::Hatch, 5, 10, None, false),
        Ok(MigratePlan {
            escrow_required: None,
            marker: MarkerAction::Install(HatchContributionsMigrationProgress {
                cursor: None,
                partial_total: 0,
            }),
        })
    );
    assert_eq!(
        migrate(&name(), Ok(()), Ok(()), CommonsPhase::Hatch, 5, 10, None, true),
        Ok(MigratePlan { escrow_required: None, marker: MarkerAction::Keep })
    );
    assert_eq!(
        migrate(&name(), Ok(()), Ok(()), CommonsPhase::Open, 5, 10, None, false),
        Ok(MigratePlan { escrow_required: None, marker: MarkerAction::Keep })
    );
}

#[test]
fn migration_checks_identity_then_curve_then_phase_then_cap() {
    let curve = || Err(ContractError::Std("curve".to_string()));
    let phase = || Err(ContractError::Std("phase".to_string()));
    assert!(matches!(
        migrate(&"crates.io:other".to_string(), curve(), phase(), CommonsPhase::Hatch, 10, 10, None, false),
        Err(ContractError::InvalidMigration { .. })
    ));
    assert_eq!(
        migrate(&name(), curve(), phase(), CommonsPhase::Hatch, 10, 10, None, false),
        Err(ContractError::Std("curve".to_string()))
    );
    assert_eq!(
        migrate(&name(), Ok(()), phase(), CommonsPhase::Hatch, 10, 10, None, false),
        Err(ContractError::Std("phase".to_string()))
    );
    assert_eq!(
        migrate(&name(), Ok(()), Ok(()), CommonsPhase::Hatch, 10, 10, None, false),
        Err(ContractError::HatchRaiseCapAlreadyReached { max: 10, reserve: 10 })
    );
}
