//! Resumable reconstruction of the aggregate hatch contribution, and the
//! migration plan that installs it.
use vstd::prelude::*;
use vstd::string::*;
use crate::cw_abc::{
    CommonsPhase, ContractError, HatchContributionsMigrationProgress, CONTRACT_NAME,
    HATCH_MIGRATION_BATCH_SIZE,
};

verus! {

/// Sum of the contributions of a sequence of `(hatcher, contributed)` entries.
pub open spec fn contributions(entries: Seq<(String, u128)>) -> int
    decreases entries.len(),
{
    if entries.len() == 0 {
        0
    } else {
        contributions(entries.drop_last()) + entries.last().1
    }
}

/// The outcome of one continuation call on the batch that storage returned.
#[derive(Clone, Debug, PartialEq, Eq)]
pub enum MigrationStep {
    /// More hatchers remain: the progress to store, and how many were summed.
    Continue { progress: HatchContributionsMigrationProgress, processed: usize },
    /// The batch was the last one: the total to store once the escrow covers
    /// it, and how many hatchers were summed.
    Finalize { total: u128, processed: usize },
}

/// Number of entries a call sums: at most one batch; an extra lookahead entry
/// only signals that more remain.
pub open spec fn summed_len(batch_len: nat) -> nat {
    if batch_len > HATCH_MIGRATION_BATCH_SIZE {
        HATCH_MIGRATION_BATCH_SIZE as nat
    } else {
        batch_len
    }
}

/// What one continuation call yields from the stored partial total and the
/// batch read after the cursor.
pub open spec fn migration_step(partial_total: u128, batch: Seq<(String, u128)>) -> Result<
    MigrationStep,
    ContractError,
> {
    let n = summed_len(batch.len());
    let total = partial_total + contributions(batch.take(n as int));
    if total > u128::MAX {
        Err(ContractError::Overflow)
    } else if batch.len() > HATCH_MIGRATION_BATCH_SIZE {
        Ok(
            MigrationStep::Continue {
                progress: HatchContributionsMigrationProgress {
                    cursor: Some(batch[n - 1].0),
                    partial_total: total as u128,
                },
                processed: n as usize,
            },
        )
    } else {
        Ok(MigrationStep::Finalize { total: total as u128, processed: batch.len() as usize })
    }
}

proof fn lemma_contributions_take_step(s: Seq<(String, u128)>, i: int)
    requires
        0 <= i < s.len(),
    ensures
        contributions(s.take(i + 1)) == contributions(s.take(i)) + s[i].1,
{
    assert(s.take(i + 1).drop_last() =~= s.take(i));
}

/// Contributions never decrease as more entries are taken.
proof fn lemma_contributions_take_monotone(s: Seq<(String, u128)>, i: int, j: int)
    requires
        0 <= i <= j <= s.len(),
    ensures
        contributions(s.take(i)) <= contributions(s.take(j)),
    decreases j - i,
{
    if i < j {
        lemma_contributions_take_step(s, j - 1);
        lemma_contributions_take_monotone(s, i, j - 1);
    }
}

/// Contributions are never negative.
proof fn lemma_contributions_nonneg(s: Seq<(String, u128)>)
    ensures
        contributions(s) >= 0,
    decreases s.len(),
{
    if s.len() > 0 {
        lemma_contributions_nonneg(s.drop_last());
    }
}

/// Contributions distribute over concatenation.
proof fn lemma_contributions_add(a: Seq<(String, u128)>, b: Seq<(String, u128)>)
    ensures
        contributions(a + b) == contributions(a) + contributions(b),
    decreases b.len(),
{
    if b.len() == 0 {
        assert(a + b =~= a);
    } else {
        assert((a + b).drop_last() =~= a + b.drop_last());
        lemma_contributions_add(a, b.drop_last());
    }
}

/// One permissionless continuation call. `batch` is what the ordered hatcher
/// map returns strictly after the stored cursor, at most one batch plus one
/// lookahead entry. The cursor stored for the next call is the last summed
/// key, never the lookahead key, so a map whose size is an exact multiple of
/// the batch size finalizes without an empty follow-up call.
#[verifier::loop_isolation(false)]
pub fn continue_hatch_contributions_migration(
    progress: Option<HatchContributionsMigrationProgress>,
    batch: &Vec<(String, u128)>,
) -> (r: Result<MigrationStep, ContractError>)
    ensures
        progress is None ==> r == Err::<MigrationStep, ContractError>(
            ContractError::NoMigrationInProgress,
        ),
        progress matches Some(p) ==> r == migration_step(p.partial_total, batch@),
{
    let mut progress = match progress {
        Some(p) => p,
        None => return Err(ContractError::NoMigrationInProgress),
    };
    let ghost start = progress.partial_total;
    let has_more = batch.len() > HATCH_MIGRATION_BATCH_SIZE;
    let processed_len = if has_more {
        HATCH_MIGRATION_BATCH_SIZE
    } else {
        batch.len()
    };
    let mut i: usize = 0;
    while i < processed_len
        invariant
            processed_len == summed_len(batch@.len()),
            has_more == (batch@.len() > HATCH_MIGRATION_BATCH_SIZE),
            i <= processed_len <= batch@.len(),
            progress.partial_total == start + contributions(batch@.take(i as int)),
        decreases processed_len - i,
    {
        proof {
            lemma_contributions_take_step(batch@, i as int);
        }
        match progress.partial_total.checked_add(batch[i].1) {
            Some(t) => progress.partial_total = t,
            None => {
                proof {
                    lemma_contributions_take_monotone(
                        batch@,
                        i as int + 1,
                        processed_len as int,
                    );
                }
                return Err(ContractError::Overflow);
            },
        }
        i = i + 1;
    }
    if has_more {
        progress.cursor = Some(batch[processed_len - 1].0.clone());
        return Ok(MigrationStep::Continue { progress, processed: processed_len });
    }
    Ok(MigrationStep::Finalize { total: progress.partial_total, processed: batch.len() })
}

/// The escrow must hold at least the aggregate hatch contribution.
pub fn assert_hatch_escrow(required: u128, available: u128) -> (r: Result<(), ContractError>)
    ensures
        r == (if available < required {
            Err(ContractError::InsufficientHatchEscrow { required, available })
        } else {
            Ok(())
        }),
{
    if available < required {
        return Err(ContractError::InsufficientHatchEscrow { required, available });
    }
    Ok(())
}

// ---------------------------------------------------------------------------
// Running the continuation to completion
// ---------------------------------------------------------------------------

/// The batch that the ordered hatcher map yields when the first `k` entries
/// have been summed: the next batch plus one lookahead entry, where present.
pub open spec fn page(hatchers: Seq<(String, u128)>, k: int) -> Seq<(String, u128)> {
    let end = if k + HATCH_MIGRATION_BATCH_SIZE + 1 <= hatchers.len() {
        k + HATCH_MIGRATION_BATCH_SIZE + 1
    } else {
        hatchers.len() as int
    };
    hatchers.subrange(k, end)
}

/// Hatcher keys are unique, as the keys of a map are.
pub open spec fn keys_distinct(hatchers: Seq<(String, u128)>) -> bool {
    forall|i: int, j: int|
        0 <= i < hatchers.len() && 0 <= j < hatchers.len() && i != j ==> hatchers[i].0
            != hatchers[j].0
}

/// Position of the first entry of the ordered map strictly after `cursor`,
/// for a cursor that is a key of the map.
pub open spec fn resume_position(hatchers: Seq<(String, u128)>, cursor: Option<String>) -> int {
    match cursor {
        None => 0,
        Some(c) => if exists|i: int| 0 <= i < hatchers.len() && hatchers[i].0 == c {
            (choose|i: int| 0 <= i < hatchers.len() && hatchers[i].0 == c) + 1
        } else {
            hatchers.len() as int
        },
    }
}

/// Result of calling the continuation at most `fuel` times, each call fed the
/// entries of the ordered map strictly after the stored cursor (one batch
/// plus one lookahead entry at most), until it finalizes or fails: the final
/// total and the number of calls made.
pub open spec fn run_migration(
    hatchers: Seq<(String, u128)>,
    progress: HatchContributionsMigrationProgress,
    fuel: nat,
) -> Result<(u128, nat), ContractError>
    decreases fuel,
{
    if fuel == 0 {
        Err(ContractError::NoMigrationInProgress)
    } else {
        let k = resume_position(hatchers, progress.cursor);
        match migration_step(progress.partial_total, page(hatchers, k)) {
            Err(e) => Err(e),
            Ok(MigrationStep::Finalize { total, .. }) => Ok((total, 1)),
            Ok(MigrationStep::Continue { progress: next, .. }) => match run_migration(
                hatchers,
                next,
                (fuel - 1) as nat,
            ) {
                Err(e) => Err(e),
                Ok((total, calls)) => Ok((total, calls + 1)),
            },
        }
    }
}

/// Calls needed for `n` hatchers: one per started batch, and at least one.
pub open spec fn calls_needed(n: nat) -> nat
    decreases n,
{
    if n <= HATCH_MIGRATION_BATCH_SIZE {
        1
    } else {
        1 + calls_needed((n - HATCH_MIGRATION_BATCH_SIZE) as nat)
    }
}

/// The progress stored once the first `k` entries have been summed.
pub open spec fn progress_after(
    hatchers: Seq<(String, u128)>,
    k: int,
    partial_total: u128,
) -> HatchContributionsMigrationProgress {
    HatchContributionsMigrationProgress {
        cursor: if k == 0 {
            None
        } else {
            Some(hatchers[k - 1].0)
        },
        partial_total,
    }
}

proof fn lemma_resume_position(hatchers: Seq<(String, u128)>, k: int)
    requires
        keys_distinct(hatchers),
        0 <= k <= hatchers.len(),
    ensures
        resume_position(hatchers, progress_after(hatchers, k, 0).cursor) == k,
{
    if k > 0 {
        let c = hatchers[k - 1].0;
        assert(0 <= k - 1 < hatchers.len() && hatchers[k - 1].0 == c);
        let i = choose|i: int| 0 <= i < hatchers.len() && hatchers[i].0 == c;
        assert(i == k - 1);
    }
}

proof fn lemma_run_migration_from(
    hatchers: Seq<(String, u128)>,
    k: nat,
    partial_total: u128,
    fuel: nat,
)
    requires
        keys_distinct(hatchers),
        k <= hatchers.len(),
        fuel >= calls_needed((hatchers.len() - k) as nat),
    ensures
        run_migration(hatchers, progress_after(hatchers, k as int, partial_total), fuel) == (if partial_total
            + contributions(hatchers.skip(k as int)) > u128::MAX {
            Err(ContractError::Overflow)
        } else {
            Ok::<(u128, nat), ContractError>(
                (
                    (partial_total + contributions(hatchers.skip(k as int))) as u128,
                    calls_needed((hatchers.len() - k) as nat),
                ),
            )
        }),
    decreases hatchers.len() - k,
{
    let b = HATCH_MIGRATION_BATCH_SIZE as int;
    let pg = page(hatchers, k as int);
    let rest = hatchers.skip(k as int);
    lemma_resume_position(hatchers, k as int);
    assert(progress_after(hatchers, k as int, partial_total).cursor == progress_after(
        hatchers,
        k as int,
        0,
    ).cursor);
    if rest.len() > b {
        let head = pg.take(b);
        let tail = hatchers.skip(k + b);
        assert(rest =~= head + tail);
        lemma_contributions_add(head, tail);
        lemma_contributions_nonneg(tail);
        lemma_contributions_nonneg(head);
        assert(pg.len() == b + 1);
        assert(summed_len(pg.len()) == b);
        let total = partial_total + contributions(head);
        if total > u128::MAX {
        } else {
            let next = progress_after(hatchers, k + b, total as u128);
            assert(pg[b - 1] == hatchers[k + b - 1]);
            assert(migration_step(partial_total, pg) == Ok::<MigrationStep, ContractError>(
                MigrationStep::Continue { progress: next, processed: b as usize },
            ));
            assert(calls_needed((hatchers.len() - k) as nat) == 1 + calls_needed(
                (hatchers.len() - (k + b)) as nat,
            ));
            lemma_run_migration_from(hatchers, (k + b) as nat, total as u128, (fuel - 1) as nat);
            assert(tail =~= hatchers.skip((k + b) as nat as int));
        }
    } else {
        assert(pg =~= rest);
        assert(pg.take(pg.len() as int) =~= rest);
        assert(summed_len(pg.len()) == pg.len());
        assert(calls_needed((hatchers.len() - k) as nat) == 1);
    }
}

/// Law: repeated permissionless continuation calls, each fed the entries of
/// the ordered hatcher map strictly after the stored cursor, sum every hatcher
/// exactly once. From the installed progress (no cursor, zero) they finalize
/// with the sum of all contributions after one call per started batch of 100
/// (at least one; a multiple of 100 needs no empty follow-up call), or fail
/// with an overflow when that sum does not fit in a `Uint128`.
pub proof fn lemma_hatch_migration_sums_every_hatcher(
    hatchers: Seq<(String, u128)>,
    fuel: nat,
)
    requires
        keys_distinct(hatchers),
        fuel >= calls_needed(hatchers.len()),
    ensures
        run_migration(
            hatchers,
            HatchContributionsMigrationProgress { cursor: None, partial_total: 0 },
            fuel,
        ) == (if contributions(hatchers) > u128::MAX {
            Err(ContractError::Overflow)
        } else {
            Ok::<(u128, nat), ContractError>(
                (contributions(hatchers) as u128, calls_needed(hatchers.len())),
            )
        }),
{
    assert(hatchers.skip(0) =~= hatchers);
    assert(progress_after(hatchers, 0, 0) == HatchContributionsMigrationProgress {
        cursor: None,
        partial_total: 0,
    });
    lemma_run_migration_from(hatchers, 0, 0, fuel);
}

// ---------------------------------------------------------------------------
// Migration plan
// ---------------------------------------------------------------------------

/// What the migration does to the stored migration marker.
#[derive(Clone, Debug, PartialEq, Eq)]
pub enum MarkerAction {
    /// Leave the marker as it is.
    Keep,
    /// Remove the marker: the aggregate is present.
    Remove,
    /// Install fresh progress: the aggregate is missing in the Hatch phase.
    Install(HatchContributionsMigrationProgress),
}

/// The state writes and the escrow check a migration performs.
#[derive(Clone, Debug, PartialEq, Eq)]
pub struct MigratePlan {
    /// The aggregate the escrow balance must cover before anything is written.
    pub escrow_required: Option<u128>,
    pub marker: MarkerAction,
}

/// The plan a migration owes once its identity and raise-cap checks pass:
/// a present aggregate is checked against the escrow (in Hatch only) and the
/// marker is removed; a missing aggregate installs fresh progress in Hatch,
/// unless a marker is already there, and otherwise leaves the marker alone.
pub open spec fn migration_plan(
    phase: CommonsPhase,
    total_hatch_contributions: Option<u128>,
    marker_present: bool,
) -> MigratePlan {
    match total_hatch_contributions {
        Some(total) => MigratePlan {
            escrow_required: if phase == CommonsPhase::Hatch {
                Some(total)
            } else {
                None
            },
            marker: MarkerAction::Remove,
        },
        None => MigratePlan {
            escrow_required: None,
            marker: if phase == CommonsPhase::Hatch && !marker_present {
                MarkerAction::Install(
                    HatchContributionsMigrationProgress { cursor: None, partial_total: 0 },
                )
            } else {
                MarkerAction::Keep
            },
        },
    }
}

/// Law: a migration checks the escrow only in the Hatch phase and only against
/// a present aggregate; a present aggregate always heals the marker; fresh
/// progress is installed only in Hatch, with no aggregate and no marker.
pub proof fn lemma_migration_plan_escrow_only_in_hatch(
    phase: CommonsPhase,
    total_hatch_contributions: Option<u128>,
    marker_present: bool,
)
    ensures
        (phase == CommonsPhase::Open || phase == CommonsPhase::Closed) ==> (migration_plan(
            phase,
            total_hatch_contributions,
            marker_present,
        ).escrow_required is None),
        (total_hatch_contributions is Some && phase == CommonsPhase::Hatch) ==> (migration_plan(
            phase,
            total_hatch_contributions,
            marker_present,
        ).escrow_required == total_hatch_contributions),
        total_hatch_contributions is None ==> (migration_plan(
            phase,
            total_hatch_contributions,
            marker_present,
        ).escrow_required is None),
        total_hatch_contributions is Some ==> (migration_plan(
            phase,
            total_hatch_contributions,
            marker_present,
        ).marker == MarkerAction::Remove),
        (total_hatch_contributions is None && phase == CommonsPhase::Hatch && !marker_present)
            ==> (migration_plan(phase, total_hatch_contributions, marker_present).marker
            == MarkerAction::Install(
            (HatchContributionsMigrationProgress { cursor: None, partial_total: 0 }),
        )),
        (total_hatch_contributions is None && !(phase == CommonsPhase::Hatch && !marker_present))
            ==> (migration_plan(phase, total_hatch_contributions, marker_present).marker
            == MarkerAction::Keep),
{
}

/// The decision part of a migration: the stored cw2 identity must be this
/// contract's; then the stored curve type and phase configuration must pass
/// their validations (`curve_type_check`, `phase_config_check`, in that
/// order); an active Hatch whose reserve already reached the raise cap is
/// refused; a present aggregate is checked against the escrow (in Hatch) and
/// heals a stale marker; a missing aggregate in Hatch installs fresh progress
/// without touching the hatcher records.
pub fn migrate(
    stored_contract: &String,
    curve_type_check: Result<(), ContractError>,
    phase_config_check: Result<(), ContractError>,
    phase: CommonsPhase,
    reserve: u128,
    hatch_max: u128,
    total_hatch_contributions: Option<u128>,
    marker_present: bool,
) -> (r: Result<MigratePlan, ContractError>)
    ensures
        stored_contract@ != CONTRACT_NAME@ ==> (r matches Err(
            ContractError::InvalidMigration { expected, actual },
        ) && expected@ == CONTRACT_NAME@ && actual == *stored_contract),
        stored_contract@ == CONTRACT_NAME@ && curve_type_check is Err ==> r == Err::<
            MigratePlan,
            ContractError,
        >(curve_type_check->Err_0),
        stored_contract@ == CONTRACT_NAME@ && curve_type_check is Ok && phase_config_check is Err
            ==> r == Err::<MigratePlan, ContractError>(phase_config_check->Err_0),
        stored_contract@ == CONTRACT_NAME@ && curve_type_check is Ok && phase_config_check is Ok
            && phase == CommonsPhase::Hatch && reserve >= hatch_max ==> r == Err::<
            MigratePlan,
            ContractError,
        >(ContractError::HatchRaiseCapAlreadyReached { max: hatch_max, reserve }),
        stored_contract@ == CONTRACT_NAME@ && curve_type_check is Ok && phase_config_check is Ok
            && !(phase == CommonsPhase::Hatch && reserve >= hatch_max) ==> r == Ok::<
            MigratePlan,
            ContractError,
        >(migration_plan(phase, total_hatch_contributions, marker_present)),
        r matches Ok(plan) ==> ((plan.escrow_required is Some) <==> (phase == CommonsPhase::Hatch
            && total_hatch_contributions is Some)),
        r matches Ok(plan) ==> (plan.escrow_required is Some ==> plan.escrow_required
            == total_hatch_contributions),
        r matches Ok(plan) ==> ((plan.marker == MarkerAction::Remove) <==> (
        total_hatch_contributions is Some)),
        r matches Ok(plan) ==> ((plan.marker is Install) <==> (total_hatch_contributions is None
            && phase == CommonsPhase::Hatch && !marker_present)),
        r matches Ok(plan) ==> (plan.marker is Install ==> (plan.marker->Install_0
            == (HatchContributionsMigrationProgress { cursor: None, partial_total: 0 }))),
{
    let expected = String::from_str(CONTRACT_NAME);
    if !(*stored_contract == expected) {
        return Err(ContractError::InvalidMigration { expected, actual: stored_contract.clone() });
    }
    match curve_type_check {
        Ok(()) => {},
        Err(e) => return Err(e),
    }
    match phase_config_check {
        Ok(()) => {},
        Err(e) => return Err(e),
    }
    let hatch = match phase {
        CommonsPhase::Hatch => true,
        _ => false,
    };
    if hatch && reserve >= hatch_max {
        return Err(ContractError::HatchRaiseCapAlreadyReached { max: hatch_max, reserve });
    }
    match total_hatch_contributions {
        Some(total) => Ok(
            MigratePlan {
                escrow_required: if hatch {
                    Some(total)
                } else {
                    None
                },
                marker: MarkerAction::Remove,
            },
        ),
        None => Ok(
            MigratePlan {
                escrow_required: None,
                marker: if hatch && !marker_present {
                    MarkerAction::Install(
                        HatchContributionsMigrationProgress { cursor: None, partial_total: 0 },
                    )
                } else {
                    MarkerAction::Keep
                },
            },
        ),
    }
}

} // verus!
