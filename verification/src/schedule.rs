//! The order of a benchmark's runs: every profile in turn runs its warm-up
//! iterations and then its measured ones; only the measured runs are kept,
//! and a cool-down follows every run but the last.
use vstd::prelude::*;
use vstd::arithmetic::div_mod::lemma_fundamental_div_mod_converse;

verus! {

/// One run of the plan.
#[derive(Debug, Clone, Copy, PartialEq, Eq, Structural)]
pub struct PlannedRun {
    /// Position of the profile.
    pub profile: usize,
    /// Position of the run within its profile, warm-up runs first.
    pub iteration: usize,
    /// The run is kept in the report (it is not a warm-up run).
    pub measured: bool,
    /// A cool-down pause follows the run.
    pub cooldown_after: bool,
}

/// Run `k` of a plan with `per_profile` runs per profile, of which the
/// first `warmup` are warm-up runs, and `total` runs in all.
pub open spec fn planned_run(k: int, per_profile: int, warmup: int, total: int) -> PlannedRun {
    PlannedRun {
        profile: (k / per_profile) as usize,
        iteration: (k % per_profile) as usize,
        measured: k % per_profile >= warmup,
        cooldown_after: k + 1 < total,
    }
}

/// The runs of a benchmark over `profile_count` profiles, each with
/// `warmup_iterations` warm-up runs followed by `iterations` measured ones.
pub fn plan_runs(profile_count: usize, warmup_iterations: usize, iterations: usize) -> (plan: Vec<
    PlannedRun,
>)
    requires
        warmup_iterations + iterations <= usize::MAX,
        (warmup_iterations + iterations) * profile_count <= usize::MAX,
    ensures
        plan@.len() == (warmup_iterations + iterations) * profile_count,
        forall|k: int|
            0 <= k < plan@.len() ==> #[trigger] plan@[k] == planned_run(
                k,
                warmup_iterations + iterations,
                warmup_iterations as int,
                plan@.len() as int,
            ),
        forall|k: int|
            0 <= k < plan@.len() ==> ((#[trigger] plan@[k]).cooldown_after <==> k + 1 < plan@.len()),
        forall|k: int|
            0 <= k < plan@.len() ==> (#[trigger] plan@[k]).profile * (warmup_iterations + iterations)
                + plan@[k].iteration == k && plan@[k].iteration < warmup_iterations + iterations
                && (plan@[k].measured <==> plan@[k].iteration >= warmup_iterations),
{
    let per: usize = warmup_iterations + iterations;
    let total: usize = per * profile_count;
    let mut plan: Vec<PlannedRun> = Vec::new();
    let mut p: usize = 0;
    while p < profile_count
        invariant
            per == warmup_iterations + iterations,
            total == per * profile_count,
            p <= profile_count,
            plan@.len() == p * per,
            forall|k: int|
                0 <= k < plan@.len() ==> #[trigger] plan@[k] == planned_run(
                    k,
                    per as int,
                    warmup_iterations as int,
                    total as int,
                ),
        decreases profile_count - p,
    {
        let mut i: usize = 0;
        while i < per
            invariant
                per == warmup_iterations + iterations,
                total == per * profile_count,
                p < profile_count,
                i <= per,
                plan@.len() == p * per + i,
                forall|k: int|
                    0 <= k < plan@.len() ==> #[trigger] plan@[k] == planned_run(
                        k,
                        per as int,
                        warmup_iterations as int,
                        total as int,
                    ),
            decreases per - i,
        {
            assert(p * per + i < total) by (nonlinear_arith)
                requires
                    p < profile_count,
                    i < per,
                    total == per * profile_count,
            ;
            let k: usize = plan.len();
            proof {
                lemma_fundamental_div_mod_converse(k as int, per as int, p as int, i as int);
            }
            plan.push(
                PlannedRun {
                    profile: p,
                    iteration: i,
                    measured: i >= warmup_iterations,
                    cooldown_after: k + 1 < total,
                },
            );
            i = i + 1;
        }
        assert((p + 1) * per == p * per + per) by (nonlinear_arith);
        p = p + 1;
    }
    assert(profile_count * per == per * profile_count) by (nonlinear_arith);
    proof {
        assert forall|k: int| 0 <= k < plan@.len() implies (#[trigger] plan@[k]).profile * (
        warmup_iterations + iterations) + plan@[k].iteration == k && plan@[k].iteration
            < warmup_iterations + iterations && (plan@[k].measured <==> plan@[k].iteration
            >= warmup_iterations) by {
            lemma_position_decodes(k, per as int);
        }
        assert forall|k: int| 0 <= k < plan@.len() implies ((#[trigger] plan@[k]).cooldown_after
            <==> k + 1 < plan@.len()) by {
            assert(plan@[k] == planned_run(k, per as int, warmup_iterations as int, total as int));
        }
    }
    plan
}

/// Warm-up runs are never kept and every other run is: run `iteration` of
/// profile `profile` sits at position `profile * per_profile + iteration`,
/// and it is measured exactly when it comes after the warm-up runs.
pub proof fn lemma_warmups_are_not_measured(
    per_profile: int,
    warmup: int,
    total: int,
    profile: int,
    iteration: int,
)
    requires
        0 <= iteration < per_profile,
        0 <= profile,
    ensures
        planned_run(profile * per_profile + iteration, per_profile, warmup, total).measured
            <==> iteration >= warmup,
        planned_run(profile * per_profile + iteration, per_profile, warmup, total).profile
            == profile as usize,
        planned_run(profile * per_profile + iteration, per_profile, warmup, total).iteration
            == iteration as usize,
{
    lemma_fundamental_div_mod_converse(
        profile * per_profile + iteration,
        per_profile,
        profile,
        iteration,
    );
}

/// A position splits into whole profiles and a remainder run.
proof fn lemma_position_decodes(k: int, per: int)
    requires
        0 <= k,
        per > 0,
    ensures
        (k / per) * per + k % per == k,
        0 <= k % per < per,
        0 <= k / per,
{
    vstd::arithmetic::div_mod::lemma_fundamental_div_mod(k, per);
    assert(per * (k / per) == (k / per) * per) by (nonlinear_arith);
    vstd::arithmetic::div_mod::lemma_mod_pos_bound(k, per);
    vstd::arithmetic::div_mod::lemma_div_pos_is_pos(k, per);
}

/// A cool-down follows every run of a plan but the very last one, also
/// between the last run of one profile and the first of the next.
pub proof fn lemma_cooldown_after_all_but_last(per_profile: int, warmup: int, total: int, k: int)
    requires
        0 <= k < total,
    ensures
        planned_run(k, per_profile, warmup, total).cooldown_after <==> k + 1 < total,
        k + 1 == total ==> !planned_run(k, per_profile, warmup, total).cooldown_after,
{
}

} // verus!
