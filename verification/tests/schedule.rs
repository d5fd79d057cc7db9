use uncanny::schedule::{plan_runs, PlannedRun};

#[test]
fn warmups_come_first_and_are_not_kept() {
    let plan = plan_runs(2, 1, 2);
    assert_eq!(plan.len(), 6);
    assert_eq!(plan[0], PlannedRun { profile: 0, iteration: 0, measured: false, cooldown_after: true });
    assert_eq!(plan[1], PlannedRun { profile: 0, iteration: 1, measured: true, cooldown_after: true });
    assert_eq!(plan[3], PlannedRun { profile: 1, iteration: 0, measured: false, cooldown_after: true });
    assert_eq!(plan[5], PlannedRun { profile: 1, iteration: 2, measured: true, cooldown_after: false });
    assert_eq!(plan.iter().filter(|r| r.measured).count(), 4);
}

#[test]
fn empty_plans() {
    assert!(plan_runs(0, 1, 3).is_empty());
    assert!(plan_runs(3, 0, 0).is_empty());
}
