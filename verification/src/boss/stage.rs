use vstd::prelude::*;
use crate::game_state::GamePhase;

verus! {

/// The stages of the boss fight, in the order they are played.
#[derive(Clone, Copy, Debug, PartialEq, Eq, Structural)]
pub enum BossStageKind {
    Stage1,
    TransitionToStage2,
    Stage2,
    Exploding,
}

/// The boss's current stage.
#[derive(Clone, Copy, Debug, PartialEq, Eq, Structural)]
pub struct BossStage(pub BossStageKind);

/// The position of a stage in the fight.
pub open spec fn stage_rank(stage: BossStageKind) -> nat {
    match stage {
        BossStageKind::Stage1 => 0,
        BossStageKind::TransitionToStage2 => 1,
        BossStageKind::Stage2 => 2,
        BossStageKind::Exploding => 3,
    }
}

/// The phases of the fall between the two stages.
#[derive(Clone, Copy, Debug, PartialEq, Eq, Structural)]
pub enum TransitionPhase {
    Blast,
    Downed,
    AwaitStage2Music,
    TurnToPlayer,
}

/// Run condition: there is a boss and it is in `stage`.
pub fn boss_in_stage(current: Option<BossStageKind>, stage: BossStageKind) -> (b: bool)
    ensures
        b == (current == Some(stage)),
{
    match current {
        Some(s) => s == stage,
        None => false,
    }
}

/// Run condition: there is a boss and its stage is one of `stages`.
pub fn boss_in_stages(current: Option<BossStageKind>, stages: &[BossStageKind]) -> (b: bool)
    ensures
        b == (current matches Some(s) && stages@.contains(s)),
{
    match current {
        Some(s) => {
            let mut i: usize = 0;
            while i < stages.len()
                invariant
                    0 <= i <= stages.len(),
                    current == Some(s),
                    forall|j: int| 0 <= j < i ==> stages@[j] != s,
                decreases stages.len() - i,
            {
                if stages[i] == s {
                    assert(stages@[i as int] == s);
                    assert(stages@.contains(s));
                    return true;
                }
                i = i + 1;
            }
            false
        },
        None => false,
    }
}

/// Whether the boss spawns this frame: the game entered the boss fight, no boss exists yet
/// and there is a camera to place it by.
pub fn boss_should_spawn(changed_phases: &Vec<GamePhase>, boss_exists: bool, camera_present: bool) -> (b:
    bool)
    ensures
        b == (changed_phases@.contains(GamePhase::BossFight) && !boss_exists && camera_present),
{
    let mut entered = false;
    let mut i: usize = 0;
    while i < changed_phases.len()
        invariant
            0 <= i <= changed_phases.len(),
            entered == exists|j: int| 0 <= j < i && changed_phases@[j] == GamePhase::BossFight,
        decreases changed_phases.len() - i,
    {
        if changed_phases[i] == GamePhase::BossFight {
            entered = true;
        }
        i = i + 1;
    }
    entered && !boss_exists && camera_present
}

/// Whether the victory music is signalled: it was already, or some boss has started its win
/// sequence.
pub fn win_music_signal(already_signalled: bool, win_started: &Vec<bool>) -> (b: bool)
    ensures
        b == (already_signalled || win_started@.contains(true)),
{
    if already_signalled {
        return true;
    }
    let mut i: usize = 0;
    while i < win_started.len()
        invariant
            0 <= i <= win_started.len(),
            forall|j: int| 0 <= j < i ==> !win_started@[j],
        decreases win_started.len() - i,
    {
        if win_started[i] {
            assert(win_started@[i as int]);
            return true;
        }
        i = i + 1;
    }
    false
}

/// The horizontal scale sign of the boss sprite: its images face left, so a boss facing
/// right is mirrored.
pub fn boss_scale_sign(facing_right: bool) -> (s: i8)
    ensures
        s == if facing_right {
            -1i8
        } else {
            1i8
        },
{
    if facing_right {
        -1
    } else {
        1
    }
}

/// How the boss's head is posed.
#[derive(Clone, Copy, Debug, PartialEq, Eq, Structural)]
pub enum HeadPose {
    /// Exploding: the head is left alone.
    Frozen,
    /// Turning to the player at the end of the fall: the head looks straight at the player.
    FacePlayer,
    /// Fallen: the head hangs at its downed angle.
    Downed,
    /// Fighting: the head turns toward the player within its range.
    Track,
}

/// The head pose for the boss's stage and, during the fall, its phase.
pub fn head_pose(stage: BossStageKind, transition: Option<TransitionPhase>) -> (p: HeadPose)
    ensures
        p == match stage {
            BossStageKind::Exploding => HeadPose::Frozen,
            BossStageKind::TransitionToStage2 => if transition == Some(
                TransitionPhase::TurnToPlayer,
            ) {
                HeadPose::FacePlayer
            } else {
                HeadPose::Downed
            },
            _ => HeadPose::Track,
        },
{
    match stage {
        BossStageKind::Exploding => HeadPose::Frozen,
        BossStageKind::TransitionToStage2 => {
            match transition {
                Some(TransitionPhase::TurnToPlayer) => HeadPose::FacePlayer,
                _ => HeadPose::Downed,
            }
        },
        _ => HeadPose::Track,
    }
}

/// How the boss's arms are posed in the first stage.
#[derive(Clone, Copy, Debug, PartialEq, Eq, Structural)]
pub enum ArmPose {
    /// Braced and shaking while firing.
    Shooting,
    /// Raised while aiming.
    Aiming,
    /// Relaxed, swaying gently.
    Relaxed,
}

/// The arm pose for the shooting state.
pub fn arm_pose(aiming: bool, shooting: bool) -> (p: ArmPose)
    ensures
        p == if shooting {
            ArmPose::Shooting
        } else if aiming {
            ArmPose::Aiming
        } else {
            ArmPose::Relaxed
        },
{
    if shooting {
        ArmPose::Shooting
    } else if aiming {
        ArmPose::Aiming
    } else {
        ArmPose::Relaxed
    }
}

/// Whether the torso sways: while aiming or idle, not while firing.
pub fn torso_sways(aiming: bool, shooting: bool) -> (b: bool)
    ensures
        b == (aiming || !shooting),
{
    aiming || (!aiming && !shooting)
}

} // verus!
