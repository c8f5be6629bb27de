use vstd::prelude::*;

verus! {

/// What the robot soldier is doing.
#[derive(Clone, Copy, Debug, PartialEq, Eq, Structural)]
pub enum EnemyRobotStateKind {
    Running,
    Shooting,
    Hit,
}

/// The robot soldier's state; the distance it has run lives with its transform.
#[derive(Clone, Copy, Debug)]
pub struct EnemyRobotState {
    pub state: EnemyRobotStateKind,
    pub facing_right: bool,
}

impl Default for EnemyRobotState {
    fn default() -> (s: EnemyRobotState)
        ensures
            s.state == EnemyRobotStateKind::Running,
            !s.facing_right,
    {
        EnemyRobotState { state: EnemyRobotStateKind::Running, facing_right: false }
    }
}

/// The run animation frame, `1` to `4`; its timer lives with the sprite.
#[derive(Clone, Copy, Debug)]
pub struct EnemyRunAnim {
    pub frame: u8,
}

impl Default for EnemyRunAnim {
    fn default() -> (a: EnemyRunAnim)
        ensures
            a.frame == 1,
    {
        EnemyRunAnim { frame: 1 }
    }
}

/// Whether the shot of the current shooting pose has been fired; the pose timer lives with
/// the sprite.
#[derive(Clone, Copy, Debug)]
pub struct EnemyShootTimer {
    pub fired: bool,
}

impl Default for EnemyShootTimer {
    fn default() -> (t: EnemyShootTimer)
        ensures
            !t.fired,
    {
        EnemyShootTimer { fired: false }
    }
}

/// A running robot that has run far enough and is on screen stops to shoot, with the shot of
/// its new pose not yet fired. Returns whether it started shooting (the run distance and the
/// pose timer are then reset).
pub fn enemy_robot_behavior_step(
    state: &mut EnemyRobotState,
    shoot: &mut EnemyShootTimer,
    run_distance_reached: bool,
    on_screen: bool,
) -> (start_shooting: bool)
    ensures
        start_shooting == (old(state).state == EnemyRobotStateKind::Running
            && run_distance_reached && on_screen),
        final(state).state == if start_shooting {
            EnemyRobotStateKind::Shooting
        } else {
            old(state).state
        },
        final(state).facing_right == old(state).facing_right,
        final(shoot).fired == if start_shooting {
            false
        } else {
            old(shoot).fired
        },
{
    if state.state == EnemyRobotStateKind::Running && run_distance_reached && on_screen {
        state.state = EnemyRobotStateKind::Shooting;
        shoot.fired = false;
        true
    } else {
        false
    }
}

/// What a frame of the shooting pose does.
#[derive(Clone, Copy, Debug, PartialEq, Eq, Structural)]
pub struct RobotShootOutcome {
    pub fire: bool,
    pub pose_finished: bool,
}

/// State, fired flag and outcome after one frame of the shooting pose.
pub open spec fn robot_shoot(
    state: EnemyRobotState,
    fired: bool,
    fire_due: bool,
    pose_over: bool,
) -> (EnemyRobotState, bool, RobotShootOutcome) {
    if state.state != EnemyRobotStateKind::Shooting {
        (state, fired, RobotShootOutcome { fire: false, pose_finished: false })
    } else {
        (
            EnemyRobotState {
                state: if pose_over {
                    EnemyRobotStateKind::Running
                } else {
                    EnemyRobotStateKind::Shooting
                },
                facing_right: state.facing_right,
            },
            !pose_over && (fired || fire_due),
            RobotShootOutcome { fire: !fired && fire_due, pose_finished: pose_over },
        )
    }
}

/// The shooting pose: the robot fires once when the fire delay has passed, and runs again
/// when the pose is over (its timer is then reset). Robots that are not shooting are left
/// alone.
pub fn enemy_robot_shoot_step(
    state: &mut EnemyRobotState,
    shoot: &mut EnemyShootTimer,
    fire_due: bool,
    pose_over: bool,
) -> (out: RobotShootOutcome)
    ensures
        (*final(state), final(shoot).fired, out) == robot_shoot(
            *old(state),
            old(shoot).fired,
            fire_due,
            pose_over,
        ),
{
    let mut out = RobotShootOutcome { fire: false, pose_finished: false };
    if state.state == EnemyRobotStateKind::Shooting {
        if !shoot.fired && fire_due {
            shoot.fired = true;
            out.fire = true;
        }
        if pose_over {
            shoot.fired = false;
            state.state = EnemyRobotStateKind::Running;
            out.pose_finished = true;
        }
    }
    out
}

/// A robot fires one shot per shooting pose: once it has fired, no later frame of the same
/// pose fires again, and a new pose starts with the shot unfired.
pub proof fn law_one_shot_per_pose(
    state: EnemyRobotState,
    fired: bool,
    fire_due: bool,
    pose_over: bool,
    next_due: bool,
    next_over: bool,
)
    ensures
        ({
            let (s1, f1, o1) = robot_shoot(state, fired, fire_due, pose_over);
            (o1.fire && !o1.pose_finished) ==> !robot_shoot(s1, f1, next_due, next_over).2.fire
        }),
        robot_shoot(state, fired, fire_due, pose_over).2.pose_finished ==> !robot_shoot(
            state,
            fired,
            fire_due,
            pose_over,
        ).1,
        fired ==> !robot_shoot(state, fired, fire_due, pose_over).2.fire,
{
}

/// The run frame that follows `frame`: `1`, `2`, `3`, `4`, then back to `1`.
pub open spec fn next_run_frame(frame: u8) -> u8 {
    if frame >= 4 {
        1
    } else {
        (frame + 1) as u8
    }
}

/// The image the robot shows.
#[derive(Clone, Copy, Debug, PartialEq, Eq, Structural)]
pub enum RobotSprite {
    /// One of the four run images, by index `0` to `3`.
    Run(u8),
    Shoot,
    Hit,
}

/// The run image for run frame `frame` (frames other than `1` to `4` show the first one).
pub open spec fn run_image(frame: u8) -> u8 {
    if 1 <= frame <= 4 {
        (frame - 1) as u8
    } else {
        0
    }
}

/// One animation frame of a robot that is not transforming: a running robot moves to its
/// next run frame when the frame time has elapsed (the frame timer is then reset) and shows
/// it; a shooting or hit robot shows its pose.
pub fn enemy_robot_animation_step(
    state: &EnemyRobotState,
    anim: &mut EnemyRunAnim,
    frame_elapsed: bool,
) -> (sprite: RobotSprite)
    ensures
        final(anim).frame == if state.state == EnemyRobotStateKind::Running && frame_elapsed {
            next_run_frame(old(anim).frame)
        } else {
            old(anim).frame
        },
        sprite == match state.state {
            EnemyRobotStateKind::Running => RobotSprite::Run(run_image(final(anim).frame)),
            EnemyRobotStateKind::Shooting => RobotSprite::Shoot,
            EnemyRobotStateKind::Hit => RobotSprite::Hit,
        },
{
    match state.state {
        EnemyRobotStateKind::Running => {
            if frame_elapsed {
                anim.frame = if anim.frame >= 4 {
                    1
                } else {
                    anim.frame + 1
                };
            }
            let image = if anim.frame >= 1 && anim.frame <= 4 {
                anim.frame - 1
            } else {
                0
            };
            RobotSprite::Run(image)
        },
        EnemyRobotStateKind::Shooting => RobotSprite::Shoot,
        EnemyRobotStateKind::Hit => RobotSprite::Hit,
    }
}

/// Every advance of the run animation lands on one of the four run frames, so the robot
/// always shows one of its four run images.
pub proof fn law_run_frame_stays_in_range(frame: u8)
    ensures
        1 <= next_run_frame(frame) <= 4,
        run_image(next_run_frame(frame)) == next_run_frame(frame) - 1,
{
}

/// Whether a robot can be hit by a projectile: not already hit and not under spawn
/// protection.
pub fn enemy_robot_can_be_hit(state: &EnemyRobotState, protected: bool) -> (b: bool)
    ensures
        b == (state.state != EnemyRobotStateKind::Hit && !protected),
{
    state.state != EnemyRobotStateKind::Hit && !protected
}

/// How a robot reacts to a hit.
#[derive(Clone, Copy, Debug, PartialEq, Eq, Structural)]
pub enum RobotHitReaction {
    /// An infected robot turns into a crawler.
    Transform,
    /// A plain robot blinks and is removed.
    Die,
}

/// A projectile hit the robot: it is hit for good; infected robots transform, others die.
pub fn enemy_robot_on_hit(state: &mut EnemyRobotState, infected: bool) -> (reaction:
    RobotHitReaction)
    ensures
        final(state).state == EnemyRobotStateKind::Hit,
        final(state).facing_right == old(state).facing_right,
        reaction == if infected {
            RobotHitReaction::Transform
        } else {
            RobotHitReaction::Die
        },
{
    state.state = EnemyRobotStateKind::Hit;
    if infected {
        RobotHitReaction::Transform
    } else {
        RobotHitReaction::Die
    }
}

/// The number of images of the infected robot's transformation.
pub const INFECTED_TRANSFORM_FRAMES: usize = 4;

/// What the transformation shows at a frame.
#[derive(Clone, Copy, Debug, PartialEq, Eq, Structural)]
pub enum InfectedFrame {
    /// The transformation image of this index.
    Show(usize),
    /// The transformation is over: the robot is replaced by a crawler.
    Done,
}

/// What the transformation shows at frame `frame`.
pub fn infected_transform_frame(frame: usize) -> (f: InfectedFrame)
    ensures
        f == if frame >= INFECTED_TRANSFORM_FRAMES {
            InfectedFrame::Done
        } else {
            InfectedFrame::Show(frame)
        },
{
    if frame >= INFECTED_TRANSFORM_FRAMES {
        InfectedFrame::Done
    } else {
        InfectedFrame::Show(frame)
    }
}

/// The frame after `frame` and the index of the frame duration that applies to it: the
/// duration of that frame, or of the last frame once past it.
pub open spec fn infected_next(frame: usize) -> (usize, usize) {
    let next = (frame + 1) as usize;
    (next, if next < INFECTED_TRANSFORM_FRAMES - 1 {
        next
    } else {
        (INFECTED_TRANSFORM_FRAMES - 1) as usize
    })
}

/// The current transformation frame has run its time: move to the next one. Returns the next
/// frame and the index of the duration to time it with.
pub fn infected_next_frame(frame: usize) -> (r: (usize, usize))
    requires
        frame < INFECTED_TRANSFORM_FRAMES,
    ensures
        r == infected_next(frame),
{
    let next = frame + 1;
    let last = INFECTED_TRANSFORM_FRAMES - 1;
    let index = if next < last {
        next
    } else {
        last
    };
    (next, index)
}

/// The transformation shows its images in order and ends after the last one; the duration
/// index it looks up is always one of the four durations.
pub proof fn law_infected_transform_in_bounds(frame: usize)
    requires
        frame < INFECTED_TRANSFORM_FRAMES,
    ensures
        infected_next(frame).0 == frame + 1,
        infected_next(frame).1 < INFECTED_TRANSFORM_FRAMES,
        infected_next(frame).1 <= infected_next(frame).0,
        frame == INFECTED_TRANSFORM_FRAMES - 1 ==> infected_next(frame).0
            >= INFECTED_TRANSFORM_FRAMES,
{
}

} // verus!
