use uncanny::behavior::{apply, classify, BehaviorMode, ContextCues, EyeAction};

fn cues(is_active: bool, dissonant: bool, disengaged: bool, non_negative_valence: bool) -> ContextCues {
    ContextCues { is_active, dissonant, disengaged, non_negative_valence }
}

#[test]
fn inactive_cues_are_idle() {
    assert_eq!(classify(&cues(false, true, true, true)), BehaviorMode::Idle);
    assert_eq!(classify(&cues(false, false, false, false)), BehaviorMode::Idle);
}

#[test]
fn dissonance_outranks_engagement_and_valence() {
    assert_eq!(classify(&cues(true, true, true, false)), BehaviorMode::AnalyticalStare);
    assert_eq!(classify(&cues(true, true, false, true)), BehaviorMode::AnalyticalStare);
}

#[test]
fn disengaged_cues_search() {
    assert_eq!(classify(&cues(true, false, true, true)), BehaviorMode::Search);
}

#[test]
fn aligned_cues_mimic_by_valence_sign() {
    assert_eq!(classify(&cues(true, false, false, true)), BehaviorMode::MimicryPositive);
    assert_eq!(classify(&cues(true, false, false, false)), BehaviorMode::MimicryNegative);
}

#[test]
fn eye_plans_per_mode() {
    assert_eq!(apply(BehaviorMode::Idle), vec![EyeAction::Saccade]);
    assert_eq!(apply(BehaviorMode::AnalyticalStare), vec![EyeAction::LookCenter]);
    assert_eq!(apply(BehaviorMode::Search), vec![EyeAction::Saccade]);
    assert_eq!(apply(BehaviorMode::MimicryPositive), vec![EyeAction::LookCenter, EyeAction::Blink]);
    assert_eq!(apply(BehaviorMode::MimicryNegative), vec![EyeAction::LookLowered]);
}

/// The cues a social context gives against the behaviour thresholds
/// (dissonance above 0.6, engagement below 0.3).
fn ctx(is_active: bool, dissonance: f32, engagement: f32, fused_valence: f32) -> ContextCues {
    ContextCues {
        is_active,
        dissonant: dissonance > 0.6,
        disengaged: engagement < 0.3,
        non_negative_valence: fused_valence >= 0.0,
    }
}

#[test]
fn inactive_is_idle() {
    assert_eq!(classify(&ctx(false, 0.0, 0.9, 0.5)), BehaviorMode::Idle);
}

#[test]
fn high_dissonance_is_stare() {
    assert_eq!(classify(&ctx(true, 0.7, 0.9, 0.5)), BehaviorMode::AnalyticalStare);
}

#[test]
fn low_engagement_is_search() {
    assert_eq!(classify(&ctx(true, 0.0, 0.1, 0.5)), BehaviorMode::Search);
}

#[test]
fn positive_valence_is_mimicry_pos() {
    assert_eq!(classify(&ctx(true, 0.0, 0.5, 0.3)), BehaviorMode::MimicryPositive);
}

#[test]
fn negative_valence_is_mimicry_neg() {
    assert_eq!(classify(&ctx(true, 0.0, 0.5, -0.3)), BehaviorMode::MimicryNegative);
}
