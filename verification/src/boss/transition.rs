use vstd::prelude::*;
use super::hits::{head_hit, spine_hit};
use super::stage::{BossStage, BossStageKind, TransitionPhase, stage_rank};

verus! {

/// What the fall between the stages asks for this frame.
#[derive(Clone, Copy, Debug, PartialEq, Eq, Structural)]
pub enum TransitionAction {
    Nothing,
    /// The downed wait is over: the second-stage music is requested.
    RequestStage2Music,
    /// The boss turns to the player and the second stage begins.
    EnterStage2,
}

/// Stage, phase and action after one frame of the fall.
pub open spec fn transition_step(
    stage: BossStageKind,
    phase: TransitionPhase,
    landed: bool,
    downed_wait_over: bool,
    music_ready: bool,
) -> (BossStageKind, TransitionPhase, TransitionAction) {
    if stage != BossStageKind::TransitionToStage2 {
        (stage, phase, TransitionAction::Nothing)
    } else {
        match phase {
            TransitionPhase::Blast => if landed {
                (stage, TransitionPhase::Downed, TransitionAction::Nothing)
            } else {
                (stage, phase, TransitionAction::Nothing)
            },
            TransitionPhase::Downed => if downed_wait_over {
                (stage, TransitionPhase::AwaitStage2Music, TransitionAction::RequestStage2Music)
            } else {
                (stage, phase, TransitionAction::Nothing)
            },
            TransitionPhase::AwaitStage2Music => if music_ready {
                (stage, TransitionPhase::TurnToPlayer, TransitionAction::Nothing)
            } else {
                (stage, phase, TransitionAction::Nothing)
            },
            TransitionPhase::TurnToPlayer => (
                BossStageKind::Stage2,
                phase,
                TransitionAction::EnterStage2,
            ),
        }
    }
}

/// One frame of the fall between the stages: blasted off, the boss flies until it lands;
/// downed, it waits, then asks for the second-stage music; it waits for the music to come
/// in; then it turns to the player and the second stage begins. Outside the fall nothing
/// happens.
pub fn boss_transition_step(
    stage: &mut BossStage,
    phase: &mut TransitionPhase,
    landed: bool,
    downed_wait_over: bool,
    music_ready: bool,
) -> (action: TransitionAction)
    ensures
        (final(stage).0, *final(phase), action) == transition_step(
            old(stage).0,
            *old(phase),
            landed,
            downed_wait_over,
            music_ready,
        ),
{
    if stage.0 != BossStageKind::TransitionToStage2 {
        return TransitionAction::Nothing;
    }
    match *phase {
        TransitionPhase::Blast => {
            if landed {
                *phase = TransitionPhase::Downed;
            }
            TransitionAction::Nothing
        },
        TransitionPhase::Downed => {
            if downed_wait_over {
                *phase = TransitionPhase::AwaitStage2Music;
                TransitionAction::RequestStage2Music
            } else {
                TransitionAction::Nothing
            }
        },
        TransitionPhase::AwaitStage2Music => {
            if music_ready {
                *phase = TransitionPhase::TurnToPlayer;
            }
            TransitionAction::Nothing
        },
        TransitionPhase::TurnToPlayer => {
            stage.0 = BossStageKind::Stage2;
            TransitionAction::EnterStage2
        },
    }
}

/// The position of a fall phase.
pub open spec fn phase_rank(phase: TransitionPhase) -> nat {
    match phase {
        TransitionPhase::Blast => 0,
        TransitionPhase::Downed => 1,
        TransitionPhase::AwaitStage2Music => 2,
        TransitionPhase::TurnToPlayer => 3,
    }
}

/// The fall only moves forward: a frame keeps the phase or moves it one phase on, the music
/// is requested only when leaving the downed phase, and the stage only changes (to the
/// second stage) at the end of the fall.
pub proof fn law_transition_moves_forward(
    stage: BossStageKind,
    phase: TransitionPhase,
    landed: bool,
    downed_wait_over: bool,
    music_ready: bool,
)
    ensures
        ({
            let (s, p, a) = transition_step(stage, phase, landed, downed_wait_over, music_ready);
            &&& p == phase || phase_rank(p) == phase_rank(phase) + 1
            &&& s == stage || (stage_rank(s) == stage_rank(stage) + 1 && s
                == BossStageKind::Stage2)
            &&& (a == TransitionAction::RequestStage2Music) ==> (phase == TransitionPhase::Downed
                && p == TransitionPhase::AwaitStage2Music)
            &&& (s != stage) <==> (a == TransitionAction::EnterStage2)
        }),
{
}

/// The boss fight never goes back: whatever happens to the boss in a frame (a hit to the
/// spine, a hit to the head, a step of the fall), its stage stays or moves exactly one stage
/// on, so it passes through the first stage, the fall, the second stage and the explosion in
/// that order.
pub proof fn law_boss_stage_never_goes_back(
    stage: BossStageKind,
    hp: u8,
    phase: TransitionPhase,
    landed: bool,
    downed_wait_over: bool,
    music_ready: bool,
)
    ensures
        ({
            let s = spine_hit(hp, stage).1;
            s == stage || stage_rank(s) == stage_rank(stage) + 1
        }),
        ({
            let s = head_hit(hp, stage).1;
            s == stage || stage_rank(s) == stage_rank(stage) + 1
        }),
        ({
            let s = transition_step(stage, phase, landed, downed_wait_over, music_ready).0;
            s == stage || stage_rank(s) == stage_rank(stage) + 1
        }),
        spine_hit(hp, stage).1 != stage ==> stage == BossStageKind::Stage1,
        transition_step(stage, phase, landed, downed_wait_over, music_ready).0 != stage ==> stage
            == BossStageKind::TransitionToStage2,
        head_hit(hp, stage).1 != stage ==> stage == BossStageKind::Stage2,
{
}

/// Whether the cannon still has to be knocked off when the second stage begins: it has not
/// flown off yet and is not about to.
pub fn cannon_needs_detach(already_detached: bool, detach_pending: bool) -> (b: bool)
    ensures
        b == (!already_detached && !detach_pending),
{
    !already_detached && !detach_pending
}

} // verus!
