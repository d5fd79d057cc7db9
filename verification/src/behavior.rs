//! Behaviour selection: from the cues of a social context to a behaviour
//! mode, and from a mode to the eye commands that express it.
use vstd::prelude::*;

verus! {

#[derive(Debug, Clone, Copy, PartialEq, Eq, Structural)]
pub enum BehaviorMode {
    Idle,
    AnalyticalStare,
    Search,
    MimicryPositive,
    MimicryNegative,
}

/// The yes/no cues that decide the behaviour mode, each read off a social
/// context against the behaviour thresholds.
#[derive(Debug, Clone, Copy, PartialEq, Eq, Structural)]
pub struct ContextCues {
    /// A valid human target is present.
    pub is_active: bool,
    /// Dissonance lies strictly above the dissonance threshold.
    pub dissonant: bool,
    /// Engagement lies strictly below the engagement floor.
    pub disengaged: bool,
    /// Fused valence is at least zero.
    pub non_negative_valence: bool,
}

/// The behaviour table, in priority order: an absent target idles, a
/// dissonant one is stared at, a disengaged one is searched for, and an
/// aligned one is mimicked according to the sign of its valence.
pub open spec fn mode_for(cues: ContextCues) -> BehaviorMode {
    if !cues.is_active {
        BehaviorMode::Idle
    } else if cues.dissonant {
        BehaviorMode::AnalyticalStare
    } else if cues.disengaged {
        BehaviorMode::Search
    } else if cues.non_negative_valence {
        BehaviorMode::MimicryPositive
    } else {
        BehaviorMode::MimicryNegative
    }
}

pub fn classify(cues: &ContextCues) -> (mode: BehaviorMode)
    ensures
        mode == mode_for(*cues),
{
    if !cues.is_active {
        BehaviorMode::Idle
    } else if cues.dissonant {
        BehaviorMode::AnalyticalStare
    } else if cues.disengaged {
        BehaviorMode::Search
    } else if cues.non_negative_valence {
        BehaviorMode::MimicryPositive
    } else {
        BehaviorMode::MimicryNegative
    }
}

/// A command for the eye actuators.
#[derive(Debug, Clone, Copy, PartialEq, Eq, Structural)]
pub enum EyeAction {
    /// Look straight ahead (angular target 0, 0).
    LookCenter,
    /// Look ahead with the gaze lowered (angular target 0, -0.3).
    LookLowered,
    Blink,
    Saccade,
}

/// The eye commands that express each mode, in the order they are issued.
pub open spec fn eye_plan(mode: BehaviorMode) -> Seq<EyeAction> {
    match mode {
        BehaviorMode::Idle => seq![EyeAction::Saccade],
        BehaviorMode::AnalyticalStare => seq![EyeAction::LookCenter],
        BehaviorMode::Search => seq![EyeAction::Saccade],
        BehaviorMode::MimicryPositive => seq![EyeAction::LookCenter, EyeAction::Blink],
        BehaviorMode::MimicryNegative => seq![EyeAction::LookLowered],
    }
}

/// The eye commands to issue for `mode`; the voice is left untouched.
pub fn apply(mode: BehaviorMode) -> (actions: Vec<EyeAction>)
    ensures
        actions@ == eye_plan(mode),
{
    let mut actions: Vec<EyeAction> = Vec::new();
    match mode {
        BehaviorMode::Idle => actions.push(EyeAction::Saccade),
        BehaviorMode::AnalyticalStare => actions.push(EyeAction::LookCenter),
        BehaviorMode::Search => actions.push(EyeAction::Saccade),
        BehaviorMode::MimicryPositive => {
            actions.push(EyeAction::LookCenter);
            actions.push(EyeAction::Blink);
        },
        BehaviorMode::MimicryNegative => actions.push(EyeAction::LookLowered),
    }
    actions
}

/// Every mode issues at least one eye command, and only the positive
/// mimicry blinks.
pub proof fn lemma_every_mode_moves_the_eye(mode: BehaviorMode)
    ensures
        eye_plan(mode).len() >= 1,
        eye_plan(mode).contains(EyeAction::Blink) <==> mode == BehaviorMode::MimicryPositive,
{
    if mode == BehaviorMode::MimicryPositive {
        assert(eye_plan(mode)[1] == EyeAction::Blink);
    } else {
        assert forall|i: int| 0 <= i < eye_plan(mode).len() implies eye_plan(mode)[i]
            != EyeAction::Blink by {}
    }
}

/// The priority of the cues: an absent target idles whatever else holds;
/// a present, dissonant one is stared at; a present, consonant but
/// disengaged one is searched for whatever the valence sign; only a
/// present, consonant, engaged one is mimicked, by the sign of its valence.
pub proof fn lemma_cue_priority(cues: ContextCues)
    ensures
        !cues.is_active ==> mode_for(cues) == BehaviorMode::Idle,
        cues.is_active && cues.dissonant ==> mode_for(cues) == BehaviorMode::AnalyticalStare,
        cues.is_active && !cues.dissonant && cues.disengaged ==> mode_for(cues)
            == BehaviorMode::Search,
        cues.is_active && !cues.dissonant && !cues.disengaged ==> mode_for(cues) == (if cues.non_negative_valence {
            BehaviorMode::MimicryPositive
        } else {
            BehaviorMode::MimicryNegative
        }),
        (mode_for(cues) == BehaviorMode::MimicryPositive || mode_for(cues)
            == BehaviorMode::MimicryNegative) ==> cues.is_active && !cues.dissonant
            && !cues.disengaged,
{
}

} // verus!
