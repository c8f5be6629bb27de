use vstd::prelude::*;

verus! {

/// What the grenadier is doing.
#[derive(Clone, Copy, Debug, PartialEq, Eq, Structural)]
pub enum EnemyBStateKind {
    Sitting,
    Throwing,
    Hit,
}

/// The grenadier's state.
#[derive(Clone, Copy, Debug, PartialEq, Eq, Structural)]
pub struct EnemyBState {
    pub state: EnemyBStateKind,
    pub facing_right: bool,
}

impl Default for EnemyBState {
    fn default() -> (s: EnemyBState)
        ensures
            s.state == EnemyBStateKind::Sitting,
            s.facing_right,
    {
        EnemyBState { state: EnemyBStateKind::Sitting, facing_right: true }
    }
}

/// The throw animation: frame `1` winds up, frame `2` releases, `0` is idle; `thrown` says
/// whether this throw's grenade has left. Its timer lives with the sprite.
#[derive(Clone, Copy, Debug, PartialEq, Eq, Structural)]
pub struct EnemyBThrowAnim {
    pub frame: u8,
    pub thrown: bool,
}

impl EnemyBThrowAnim {
    /// An idle throw animation.
    pub fn new() -> (a: EnemyBThrowAnim)
        ensures
            a.frame == 0,
            !a.thrown,
    {
        EnemyBThrowAnim { frame: 0, thrown: false }
    }
}

/// What a behaviour frame did, so that the timers can follow: a throw started (the throw
/// timer restarts and the frame timer is set), or the throw frame timer ran out (it is set
/// again).
#[derive(Clone, Copy, Debug, PartialEq, Eq, Structural)]
pub struct EnemyBBehaviorOutcome {
    pub throw_started: bool,
    pub frame_advanced: bool,
}

/// State, throw animation and outcome after one behaviour frame.
pub open spec fn enemy_b_behavior(
    st: EnemyBState,
    anim: EnemyBThrowAnim,
    player_at_or_right: bool,
    throw_ready: bool,
    frame_elapsed: bool,
) -> (EnemyBState, EnemyBThrowAnim, EnemyBBehaviorOutcome) {
    let facing = EnemyBState { state: st.state, facing_right: player_at_or_right };
    match st.state {
        EnemyBStateKind::Sitting => if throw_ready {
            (
                EnemyBState { state: EnemyBStateKind::Throwing, facing_right: player_at_or_right },
                EnemyBThrowAnim { frame: 1, thrown: false },
                EnemyBBehaviorOutcome { throw_started: true, frame_advanced: false },
            )
        } else {
            (facing, anim, EnemyBBehaviorOutcome { throw_started: false, frame_advanced: false })
        },
        EnemyBStateKind::Throwing => if frame_elapsed {
            if anim.frame == 1 {
                (
                    facing,
                    EnemyBThrowAnim { frame: 2, thrown: anim.thrown },
                    EnemyBBehaviorOutcome { throw_started: false, frame_advanced: true },
                )
            } else {
                (
                    EnemyBState {
                        state: EnemyBStateKind::Sitting,
                        facing_right: player_at_or_right,
                    },
                    EnemyBThrowAnim { frame: 0, thrown: anim.thrown },
                    EnemyBBehaviorOutcome { throw_started: false, frame_advanced: true },
                )
            }
        } else {
            (facing, anim, EnemyBBehaviorOutcome { throw_started: false, frame_advanced: false })
        },
        EnemyBStateKind::Hit => (
            facing,
            anim,
            EnemyBBehaviorOutcome { throw_started: false, frame_advanced: false },
        ),
    }
}

/// One behaviour frame of the grenadier. It always turns toward the player
/// (`player_at_or_right`). Sitting, it starts a throw when it is on screen and its throw
/// interval has passed (`throw_ready`). Throwing, each elapsed frame time moves it from the
/// wind-up frame to the release frame, then back to sitting. A hit grenadier does nothing.
pub fn enemy_b_behavior_step(
    st: &mut EnemyBState,
    anim: &mut EnemyBThrowAnim,
    player_at_or_right: bool,
    throw_ready: bool,
    frame_elapsed: bool,
) -> (out: EnemyBBehaviorOutcome)
    ensures
        (*final(st), *final(anim), out) == enemy_b_behavior(
            *old(st),
            *old(anim),
            player_at_or_right,
            throw_ready,
            frame_elapsed,
        ),
{
    st.facing_right = player_at_or_right;
    let mut out = EnemyBBehaviorOutcome { throw_started: false, frame_advanced: false };
    match st.state {
        EnemyBStateKind::Sitting => {
            if throw_ready {
                st.state = EnemyBStateKind::Throwing;
                anim.frame = 1;
                anim.thrown = false;
                out.throw_started = true;
            }
        },
        EnemyBStateKind::Throwing => {
            if frame_elapsed {
                out.frame_advanced = true;
                if anim.frame == 1 {
                    anim.frame = 2;
                } else {
                    st.state = EnemyBStateKind::Sitting;
                    anim.frame = 0;
                }
            }
        },
        EnemyBStateKind::Hit => {},
    }
    out
}

/// Whether the grenade leaves now: on the release frame of a throw, once.
pub open spec fn grenade_due(st: EnemyBState, anim: EnemyBThrowAnim) -> bool {
    st.state == EnemyBStateKind::Throwing && anim.frame == 2 && !anim.thrown
}

/// Releases the grenade of the current throw if it is due; returns whether it was released.
pub fn enemy_b_try_throw_grenade(st: &EnemyBState, anim: &mut EnemyBThrowAnim) -> (release: bool)
    ensures
        release == grenade_due(*st, *old(anim)),
        final(anim).frame == old(anim).frame,
        final(anim).thrown == (old(anim).thrown || release),
{
    if st.state == EnemyBStateKind::Throwing && anim.frame == 2 && !anim.thrown {
        anim.thrown = true;
        true
    } else {
        false
    }
}

/// A throw releases at most one grenade: once released, no further release is due until a
/// behaviour step starts a new throw, and every behaviour step that does not start a throw
/// keeps the released flag.
pub proof fn law_one_grenade_per_throw(
    st: EnemyBState,
    anim: EnemyBThrowAnim,
    player_at_or_right: bool,
    throw_ready: bool,
    frame_elapsed: bool,
)
    requires
        anim.thrown,
    ensures
        !grenade_due(st, anim),
        !enemy_b_behavior(st, anim, player_at_or_right, throw_ready, frame_elapsed).2.throw_started
            ==> enemy_b_behavior(st, anim, player_at_or_right, throw_ready, frame_elapsed).1.thrown,
        enemy_b_behavior(st, anim, player_at_or_right, throw_ready, frame_elapsed).2.throw_started
            ==> st.state == EnemyBStateKind::Sitting,
{
}

/// A hit grenadier stays hit: its behaviour only turns it toward the player, starts no throw
/// and leaves its throw animation alone.
pub proof fn law_hit_is_final(
    st: EnemyBState,
    anim: EnemyBThrowAnim,
    player_at_or_right: bool,
    throw_ready: bool,
    frame_elapsed: bool,
)
    requires
        st.state == EnemyBStateKind::Hit,
    ensures
        enemy_b_behavior(st, anim, player_at_or_right, throw_ready, frame_elapsed) == (
            EnemyBState { state: EnemyBStateKind::Hit, facing_right: player_at_or_right },
            anim,
            EnemyBBehaviorOutcome { throw_started: false, frame_advanced: false },
        ),
{
}

/// The grenadier always faces the player: whatever it is doing, after a behaviour frame it
/// faces right exactly when the player stands at or to the right of it, throws included.
pub proof fn law_faces_player(
    st: EnemyBState,
    anim: EnemyBThrowAnim,
    player_at_or_right: bool,
    throw_ready: bool,
    frame_elapsed: bool,
)
    ensures
        enemy_b_behavior(st, anim, player_at_or_right, throw_ready, frame_elapsed).0.facing_right
            == player_at_or_right,
{
}

/// The image the grenadier shows.
#[derive(Clone, Copy, Debug, PartialEq, Eq, Structural)]
pub enum EnemyBSprite {
    Sit,
    FireA,
    FireB,
    Hit,
}

/// The image for the grenadier's state and throw frame.
pub fn enemy_b_sprite(st: &EnemyBState, anim: &EnemyBThrowAnim) -> (s: EnemyBSprite)
    ensures
        s == match st.state {
            EnemyBStateKind::Sitting => EnemyBSprite::Sit,
            EnemyBStateKind::Throwing => if anim.frame == 1 {
                EnemyBSprite::FireA
            } else {
                EnemyBSprite::FireB
            },
            EnemyBStateKind::Hit => EnemyBSprite::Hit,
        },
{
    match st.state {
        EnemyBStateKind::Sitting => EnemyBSprite::Sit,
        EnemyBStateKind::Throwing => {
            if anim.frame == 1 {
                EnemyBSprite::FireA
            } else {
                EnemyBSprite::FireB
            }
        },
        EnemyBStateKind::Hit => EnemyBSprite::Hit,
    }
}

/// Whether a grenadier can be hit: not already hit and not under spawn protection.
pub fn enemy_b_can_be_hit(st: &EnemyBState, protected: bool) -> (b: bool)
    ensures
        b == (st.state != EnemyBStateKind::Hit && !protected),
{
    st.state != EnemyBStateKind::Hit && !protected
}

/// A projectile hit the grenadier: it is hit for good.
pub fn enemy_b_on_hit(st: &mut EnemyBState)
    ensures
        final(st).state == EnemyBStateKind::Hit,
        final(st).facing_right == old(st).facing_right,
{
    st.state = EnemyBStateKind::Hit;
}

/// The small explosion animation: frames `1` to `6` show the second to seventh image of
/// explosion A; the timer lives with the sprite.
#[derive(Clone, Copy, Debug, PartialEq, Eq, Structural)]
pub struct ExplosionAnim {
    pub frame: u8,
}

/// What a tick of the small explosion does.
#[derive(Clone, Copy, Debug, PartialEq, Eq, Structural)]
pub enum ExplosionAnimStep {
    /// Show the image of explosion A with this index.
    Show(u8),
    Despawn,
}

impl ExplosionAnim {
    /// One frame period has passed: move to the next frame and say what to show.
    pub fn advance(&mut self) -> (step: ExplosionAnimStep)
        requires
            old(self).frame < u8::MAX,
        ensures
            final(self).frame == old(self).frame + 1,
            step == if 1 <= final(self).frame <= 6 {
                ExplosionAnimStep::Show(final(self).frame)
            } else {
                ExplosionAnimStep::Despawn
            },
    {
        self.frame = self.frame + 1;
        if self.frame >= 1 && self.frame <= 6 {
            ExplosionAnimStep::Show(self.frame)
        } else {
            ExplosionAnimStep::Despawn
        }
    }
}

} // verus!
