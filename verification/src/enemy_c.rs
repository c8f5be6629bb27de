use vstd::prelude::*;
use crate::game_state::GamePhase;
use crate::random::random_bool;

verus! {

/// What the crawler is doing.
#[derive(Clone, Copy, Debug, PartialEq, Eq, Structural)]
pub enum EnemyCStateKind {
    Running,
    JumpWindup,
    Jumping,
    Dying,
}

/// The crawler's state; the time spent in it lives with the sprite.
#[derive(Clone, Copy, Debug, PartialEq, Eq, Structural)]
pub struct EnemyCState {
    pub state: EnemyCStateKind,
    pub facing_right: bool,
}

impl Default for EnemyCState {
    fn default() -> (s: EnemyCState)
        ensures
            s.state == EnemyCStateKind::Running,
            !s.facing_right,
    {
        EnemyCState { state: EnemyCStateKind::Running, facing_right: false }
    }
}

/// The hit points a crawler starts with.
pub const ENEMY_C_HIT_POINTS: u8 = 3;

/// How many crawlers may be around the screen before no more are spawned.
pub const ENEMY_C_DYNAMIC_SPAWN_LIMIT: usize = 6;

/// Hit points left after one hit: one fewer, never below zero.
pub open spec fn hp_after_hit(current: u8) -> u8 {
    if current > 0 {
        (current - 1) as u8
    } else {
        0
    }
}

/// A crawler's remaining hit points.
#[derive(Clone, Copy, Debug, PartialEq, Eq, Structural)]
pub struct EnemyCHitPoints {
    pub current: u8,
}

impl EnemyCHitPoints {
    /// Full hit points.
    pub fn new(max: u8) -> (hp: EnemyCHitPoints)
        ensures
            hp.current == max,
    {
        EnemyCHitPoints { current: max }
    }

    /// Takes one hit point (none below zero); returns whether the crawler is defeated.
    pub fn take_hit(&mut self) -> (defeated: bool)
        ensures
            final(self).current == hp_after_hit(old(self).current),
            defeated == (final(self).current == 0),
    {
        if self.current > 0 {
            self.current = self.current - 1;
        }
        self.current == 0
    }
}

/// Hit points left after `n` hits starting from `current`, one point per hit.
pub open spec fn hits_applied(current: u8, n: nat) -> u8
    decreases n,
{
    if n == 0 {
        current
    } else {
        hp_after_hit(hits_applied(current, (n - 1) as nat))
    }
}

/// A crawler with `max` hit points is defeated by exactly its `max`-th hit: after `n` hits it
/// has `max - n` points left (never fewer than zero), so it stands through the first
/// `max - 1` hits and is down from the `max`-th on.
pub proof fn law_defeated_on_last_hit(max: u8, n: nat)
    ensures
        hits_applied(max, n) == if n >= max {
            0
        } else {
            max - n
        },
        (hits_applied(max, n) == 0) <==> n >= max,
    decreases n,
{
    if n > 0 {
        law_defeated_on_last_hit(max, (n - 1) as nat);
    }
}

/// How the crawler moves this frame, for the velocity and timers that live with it.
#[derive(Clone, Copy, Debug, PartialEq, Eq, Structural)]
pub enum EnemyCMotion {
    /// Dying: nothing changes.
    Frozen,
    /// Held by its spawn pause: standing still, time in state reset.
    Paused,
    /// Running forward (the jump cooldown ticks down).
    Run,
    /// The player came into jumping range: it stops and winds up (cooldown ticks down, time in
    /// state reset).
    StartWindup,
    /// Still winding up, standing still.
    Winding,
    /// The wind-up is over: it leaps (time in state reset, cooldown restarted).
    Leap,
    /// In the air: gravity does the rest.
    Airborne,
}

/// The state and motion after one behaviour frame.
pub open spec fn enemy_c_behavior(
    st: EnemyCState,
    pause_active: bool,
    jump_triggered: bool,
    windup_done: bool,
) -> (EnemyCState, EnemyCMotion) {
    if st.state == EnemyCStateKind::Dying {
        (st, EnemyCMotion::Frozen)
    } else if pause_active {
        (st, EnemyCMotion::Paused)
    } else {
        match st.state {
            EnemyCStateKind::Running => if jump_triggered {
                (
                    EnemyCState { state: EnemyCStateKind::JumpWindup, facing_right: st.facing_right },
                    EnemyCMotion::StartWindup,
                )
            } else {
                (st, EnemyCMotion::Run)
            },
            EnemyCStateKind::JumpWindup => if windup_done {
                (
                    EnemyCState { state: EnemyCStateKind::Jumping, facing_right: st.facing_right },
                    EnemyCMotion::Leap,
                )
            } else {
                (st, EnemyCMotion::Winding)
            },
            _ => (st, EnemyCMotion::Airborne),
        }
    }
}

/// One behaviour frame of the crawler. A dying crawler is left alone; one still held by its
/// spawn pause stands still. Running, it winds up for a jump when `jump_triggered` (its
/// cooldown is over and the player is ahead within jumping distance); winding up, it leaps
/// once the wind-up time has passed; in the air it keeps flying.
pub fn enemy_c_behavior_step(
    st: &mut EnemyCState,
    pause_active: bool,
    jump_triggered: bool,
    windup_done: bool,
) -> (motion: EnemyCMotion)
    ensures
        (*final(st), motion) == enemy_c_behavior(*old(st), pause_active, jump_triggered, windup_done),
{
    if st.state == EnemyCStateKind::Dying {
        return EnemyCMotion::Frozen;
    }
    if pause_active {
        return EnemyCMotion::Paused;
    }
    match st.state {
        EnemyCStateKind::Running => {
            if jump_triggered {
                st.state = EnemyCStateKind::JumpWindup;
                EnemyCMotion::StartWindup
            } else {
                EnemyCMotion::Run
            }
        },
        EnemyCStateKind::JumpWindup => {
            if windup_done {
                st.state = EnemyCStateKind::Jumping;
                EnemyCMotion::Leap
            } else {
                EnemyCMotion::Winding
            }
        },
        _ => EnemyCMotion::Airborne,
    }
}

/// Death is final: a dying crawler's behaviour leaves it dying and frozen, whatever it
/// observes.
pub proof fn law_dying_is_final(
    st: EnemyCState,
    pause_active: bool,
    jump_triggered: bool,
    windup_done: bool,
)
    requires
        st.state == EnemyCStateKind::Dying,
    ensures
        enemy_c_behavior(st, pause_active, jump_triggered, windup_done) == (st, EnemyCMotion::Frozen),
{
}

/// A crawler winds up before every leap: a running crawler never leaves the ground on the
/// frame its jump triggers, it stops and winds up (or keeps running); a leap starts only from
/// a finished wind-up; and a running crawler whose jump triggers, free of its spawn pause,
/// always starts winding up.
pub proof fn law_windup_before_leap(
    st: EnemyCState,
    pause_active: bool,
    jump_triggered: bool,
    windup_done: bool,
)
    ensures
        st.state == EnemyCStateKind::Running ==> {
            let (next, motion) = enemy_c_behavior(st, pause_active, jump_triggered, windup_done);
            &&& next.state == EnemyCStateKind::Running || next.state == EnemyCStateKind::JumpWindup
            &&& motion != EnemyCMotion::Leap
            &&& motion != EnemyCMotion::Airborne
        },
        enemy_c_behavior(st, pause_active, jump_triggered, windup_done).1 == EnemyCMotion::Leap
            ==> st.state == EnemyCStateKind::JumpWindup && windup_done && !pause_active,
        enemy_c_behavior(st, pause_active, jump_triggered, windup_done).0.state
            == EnemyCStateKind::Jumping ==> st.state == EnemyCStateKind::Jumping || (st.state
            == EnemyCStateKind::JumpWindup && windup_done),
        st.state == EnemyCStateKind::Running && !pause_active && jump_triggered ==> enemy_c_behavior(
            st,
            pause_active,
            jump_triggered,
            windup_done,
        ) == (
            EnemyCState { state: EnemyCStateKind::JumpWindup, facing_right: st.facing_right },
            EnemyCMotion::StartWindup,
        ),
{
}

/// A jumping crawler that reached the ground runs again; returns whether it landed.
pub fn enemy_c_land(st: &mut EnemyCState, on_ground: bool) -> (landed: bool)
    ensures
        landed == (old(st).state == EnemyCStateKind::Jumping && on_ground),
        final(st).state == if landed {
            EnemyCStateKind::Running
        } else {
            old(st).state
        },
        final(st).facing_right == old(st).facing_right,
{
    if st.state == EnemyCStateKind::Jumping && on_ground {
        st.state = EnemyCStateKind::Running;
        true
    } else {
        false
    }
}

/// Whether a crawler can be hit: any crawler that is not already dying.
pub fn enemy_c_can_be_hit(st: &EnemyCState) -> (b: bool)
    ensures
        b == (st.state != EnemyCStateKind::Dying),
{
    st.state != EnemyCStateKind::Dying
}

/// How a crawler reacts to a hit.
#[derive(Clone, Copy, Debug, PartialEq, Eq, Structural)]
pub enum EnemyCHitReaction {
    /// Out of hit points: it dies.
    Defeated,
    /// Still standing: it flashes.
    Flinch,
}

/// A projectile hit the crawler: it loses a hit point and dies when none is left.
pub fn enemy_c_on_hit(st: &mut EnemyCState, hp: &mut EnemyCHitPoints) -> (reaction:
    EnemyCHitReaction)
    ensures
        final(hp).current == hp_after_hit(old(hp).current),
        reaction == if final(hp).current == 0 {
            EnemyCHitReaction::Defeated
        } else {
            EnemyCHitReaction::Flinch
        },
        final(st).state == if final(hp).current == 0 {
            EnemyCStateKind::Dying
        } else {
            old(st).state
        },
        final(st).facing_right == old(st).facing_right,
{
    let defeated = hp.take_hit();
    if defeated {
        st.state = EnemyCStateKind::Dying;
        EnemyCHitReaction::Defeated
    } else {
        EnemyCHitReaction::Flinch
    }
}

/// The run animation frame, `0` to `2`; the timer lives with the sprite.
#[derive(Clone, Copy, Debug, PartialEq, Eq, Structural)]
pub struct EnemyCAnimation {
    pub frame: usize,
}

impl Default for EnemyCAnimation {
    fn default() -> (a: EnemyCAnimation)
        ensures
            a.frame == 0,
    {
        EnemyCAnimation { frame: 0 }
    }
}

/// The image the crawler shows.
#[derive(Clone, Copy, Debug, PartialEq, Eq, Structural)]
pub enum EnemyCSprite {
    /// One of the three run images, by index.
    Run(usize),
    Jump,
    Hit,
}

/// What an animation frame shows: the image, whether the hit flash dims it, and whether the
/// frame timer is set again.
#[derive(Clone, Copy, Debug, PartialEq, Eq, Structural)]
pub struct EnemyCAnimOutcome {
    pub sprite: EnemyCSprite,
    pub flash: bool,
    pub reset_timer: bool,
}

/// The animation frame and outcome after one animation step.
pub open spec fn enemy_c_animation(
    frame: usize,
    st: EnemyCState,
    paused: bool,
    frame_elapsed: bool,
    hit_flash: bool,
) -> (usize, EnemyCAnimOutcome) {
    if paused {
        (0, EnemyCAnimOutcome { sprite: EnemyCSprite::Run(0), flash: false, reset_timer: true })
    } else {
        match st.state {
            EnemyCStateKind::Running => {
                let f = if frame_elapsed {
                    ((frame + 1) % 3) as usize
                } else {
                    frame
                };
                (
                    f,
                    EnemyCAnimOutcome {
                        sprite: EnemyCSprite::Run(f),
                        flash: hit_flash,
                        reset_timer: frame_elapsed,
                    },
                )
            },
            EnemyCStateKind::JumpWindup => (
                0,
                EnemyCAnimOutcome { sprite: EnemyCSprite::Run(0), flash: hit_flash, reset_timer: true },
            ),
            EnemyCStateKind::Jumping => (
                0,
                EnemyCAnimOutcome { sprite: EnemyCSprite::Jump, flash: false, reset_timer: true },
            ),
            EnemyCStateKind::Dying => (
                0,
                EnemyCAnimOutcome { sprite: EnemyCSprite::Hit, flash: false, reset_timer: false },
            ),
        }
    }
}

/// One animation frame of the crawler. While its spawn pause holds it shows its first run
/// image. Running, it moves to the next of its three run images whenever the frame time has
/// elapsed; winding up it shows the first run image; jumping, the jump image; dying, the hit
/// image. The hit flash shows only while running or winding up.
pub fn enemy_c_animation_step(
    anim: &mut EnemyCAnimation,
    st: &EnemyCState,
    paused: bool,
    frame_elapsed: bool,
    hit_flash: bool,
) -> (out: EnemyCAnimOutcome)
    requires
        !paused && st.state == EnemyCStateKind::Running ==> if frame_elapsed {
            old(anim).frame < usize::MAX
        } else {
            old(anim).frame < 3
        },
    ensures
        (final(anim).frame, out) == enemy_c_animation(
            old(anim).frame,
            *st,
            paused,
            frame_elapsed,
            hit_flash,
        ),
{
    if paused {
        anim.frame = 0;
        return EnemyCAnimOutcome { sprite: EnemyCSprite::Run(0), flash: false, reset_timer: true };
    }
    match st.state {
        EnemyCStateKind::Running => {
            if frame_elapsed {
                anim.frame = (anim.frame + 1) % 3;
            }
            EnemyCAnimOutcome {
                sprite: EnemyCSprite::Run(anim.frame),
                flash: hit_flash,
                reset_timer: frame_elapsed,
            }
        },
        EnemyCStateKind::JumpWindup => {
            anim.frame = 0;
            EnemyCAnimOutcome { sprite: EnemyCSprite::Run(0), flash: hit_flash, reset_timer: true }
        },
        EnemyCStateKind::Jumping => {
            anim.frame = 0;
            EnemyCAnimOutcome { sprite: EnemyCSprite::Jump, flash: false, reset_timer: true }
        },
        EnemyCStateKind::Dying => {
            anim.frame = 0;
            EnemyCAnimOutcome { sprite: EnemyCSprite::Hit, flash: false, reset_timer: false }
        },
    }
}

/// The run frame stays below three: starting from a valid frame, every animation step leaves
/// a valid frame, so the run image it shows always exists.
pub proof fn law_run_image_in_range(
    frame: usize,
    st: EnemyCState,
    paused: bool,
    frame_elapsed: bool,
    hit_flash: bool,
)
    requires
        frame < 3,
    ensures
        enemy_c_animation(frame, st, paused, frame_elapsed, hit_flash).0 < 3,
        enemy_c_animation(frame, st, paused, frame_elapsed, hit_flash).1.sprite matches EnemyCSprite::Run(i) ==> i < 3,
{
}

/// The hit flash follows the hit while the crawler runs or winds up, whether or not its run
/// image moves on this frame, and never shows otherwise (paused, in the air or dying).
pub proof fn law_hit_flash_while_grounded(
    frame: usize,
    st: EnemyCState,
    paused: bool,
    frame_elapsed: bool,
    hit_flash: bool,
)
    ensures
        enemy_c_animation(frame, st, paused, frame_elapsed, hit_flash).1.flash == (!paused && (
        st.state == EnemyCStateKind::Running || st.state == EnemyCStateKind::JumpWindup)
            && hit_flash),
{
}

/// The two sides of the screen.
#[derive(Clone, Copy, Debug, PartialEq, Eq, Structural)]
pub enum ScreenEdge {
    Left,
    Right,
}

/// What the crawler spawner does this frame.
#[derive(Clone, Copy, Debug, PartialEq, Eq, Structural)]
pub enum EnemyCSpawnGate {
    /// Not the lab fight: the spawn timer is held at its full interval.
    Inactive,
    /// No camera: nothing happens.
    NoCamera,
    /// The spawn timer is still running (it ticks).
    Wait,
    /// Too many crawlers around the screen: the timer restarts, nothing spawns.
    Full,
    /// A crawler spawns and the timer restarts.
    Open,
}

/// The spawner's decision for a frame.
pub open spec fn spawn_gate(
    phase: GamePhase,
    camera_present: bool,
    timer_expired: bool,
    active_on_screen: usize,
) -> EnemyCSpawnGate {
    if phase != GamePhase::LabFight {
        EnemyCSpawnGate::Inactive
    } else if !camera_present {
        EnemyCSpawnGate::NoCamera
    } else if !timer_expired {
        EnemyCSpawnGate::Wait
    } else if active_on_screen >= ENEMY_C_DYNAMIC_SPAWN_LIMIT {
        EnemyCSpawnGate::Full
    } else {
        EnemyCSpawnGate::Open
    }
}

/// The crawler spawner's decision for a frame: crawlers spawn only during the lab fight, when
/// the spawn timer (ticked this frame) has run out and fewer than the limit are around the
/// screen.
pub fn enemy_c_spawn_gate(
    phase: GamePhase,
    camera_present: bool,
    timer_expired: bool,
    active_on_screen: usize,
) -> (gate: EnemyCSpawnGate)
    ensures
        gate == spawn_gate(phase, camera_present, timer_expired, active_on_screen),
{
    if phase != GamePhase::LabFight {
        EnemyCSpawnGate::Inactive
    } else if !camera_present {
        EnemyCSpawnGate::NoCamera
    } else if !timer_expired {
        EnemyCSpawnGate::Wait
    } else if active_on_screen >= ENEMY_C_DYNAMIC_SPAWN_LIMIT {
        EnemyCSpawnGate::Full
    } else {
        EnemyCSpawnGate::Open
    }
}

/// Where a new crawler enters and which way it runs.
#[derive(Clone, Copy, Debug, PartialEq, Eq, Structural)]
pub struct EnemyCSpawnPlan {
    pub edge: ScreenEdge,
    pub facing_right: bool,
}

/// The spawn plan for a coin toss: heads enters from the left running right, tails from the
/// right running left.
pub fn enemy_c_spawn_plan(coin: bool) -> (plan: EnemyCSpawnPlan)
    ensures
        plan.edge == if coin {
            ScreenEdge::Left
        } else {
            ScreenEdge::Right
        },
        plan.facing_right == (plan.edge == ScreenEdge::Left),
{
    if coin {
        EnemyCSpawnPlan { edge: ScreenEdge::Left, facing_right: true }
    } else {
        EnemyCSpawnPlan { edge: ScreenEdge::Right, facing_right: false }
    }
}

/// The crawler spawner for a frame: its decision and, when it spawns, a random edge to enter
/// from. A crawler always runs toward the middle of the screen.
pub fn enemy_c_dynamic_spawn_decide(
    phase: GamePhase,
    camera_present: bool,
    timer_expired: bool,
    active_on_screen: usize,
) -> (r: (EnemyCSpawnGate, Option<EnemyCSpawnPlan>))
    ensures
        r.0 == spawn_gate(phase, camera_present, timer_expired, active_on_screen),
        r.1 is Some <==> r.0 == EnemyCSpawnGate::Open,
        r.1 matches Some(plan) ==> plan.facing_right == (plan.edge == ScreenEdge::Left),
{
    let gate = enemy_c_spawn_gate(phase, camera_present, timer_expired, active_on_screen);
    match gate {
        EnemyCSpawnGate::Open => {
            let coin = random_bool();
            (gate, Some(enemy_c_spawn_plan(coin)))
        },
        _ => (gate, None),
    }
}

/// The spawner never adds a crawler while the limit is reached, and only spawns during the
/// lab fight.
pub proof fn law_spawn_respects_limit(
    phase: GamePhase,
    camera_present: bool,
    timer_expired: bool,
    active_on_screen: usize,
)
    ensures
        spawn_gate(phase, camera_present, timer_expired, active_on_screen)
            == EnemyCSpawnGate::Open ==> active_on_screen < ENEMY_C_DYNAMIC_SPAWN_LIMIT
            && phase == GamePhase::LabFight,
{
}

} // verus!
