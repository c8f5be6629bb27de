use vstd::prelude::*;
use crate::random::random_bool;

verus! {

/// How many shots one burst of the first stage fires.
pub const SHOTS_PER_BURST: u8 = 25;

/// How many anchors the boss moves between in the first stage.
pub const MOVE_ANCHOR_COUNT: usize = 3;

/// The first stage's shooting cycle: idle, aiming, or firing a burst; `shot_count` shots of
/// `shots_per_burst` fired so far. The timers and targets live with the boss.
#[derive(Clone, Copy, Debug, PartialEq, Eq, Structural)]
pub struct BossStage1ShootingState {
    pub aiming: bool,
    pub shooting: bool,
    pub shot_count: u8,
    pub shots_per_burst: u8,
}

impl Default for BossStage1ShootingState {
    fn default() -> (s: BossStage1ShootingState)
        ensures
            !s.aiming,
            !s.shooting,
            s.shot_count == 0,
            s.shots_per_burst == SHOTS_PER_BURST,
            s.wf(),
    {
        BossStage1ShootingState {
            aiming: false,
            shooting: false,
            shot_count: 0,
            shots_per_burst: SHOTS_PER_BURST,
        }
    }
}

/// State and burst-over flag after registering one fired shot.
pub open spec fn after_shot(s: BossStage1ShootingState) -> (BossStage1ShootingState, bool) {
    let count = (s.shot_count + 1) as u8;
    if count >= s.shots_per_burst {
        (BossStage1ShootingState { shot_count: count, shooting: false, ..s }, true)
    } else {
        (BossStage1ShootingState { shot_count: count, ..s }, false)
    }
}

impl BossStage1ShootingState {
    /// The boss never aims and fires at once, and a burst in progress has shots left.
    pub open spec fn wf(self) -> bool {
        &&& !(self.aiming && self.shooting)
        &&& self.shooting ==> (self.shot_count == 0 || self.shot_count < self.shots_per_burst)
    }

    /// When the shoot timer has run out and the boss is idle, it starts aiming at the
    /// player's current position. Returns whether it did.
    pub fn try_start_aiming(&mut self, shoot_timer_expired: bool) -> (started: bool)
        requires
            old(self).wf(),
        ensures
            started == (shoot_timer_expired && !old(self).aiming && !old(self).shooting),
            *final(self) == if started {
                BossStage1ShootingState { aiming: true, shot_count: 0, ..*old(self) }
            } else {
                *old(self)
            },
            final(self).wf(),
    {
        if shoot_timer_expired && !self.aiming && !self.shooting {
            self.aiming = true;
            self.shot_count = 0;
            true
        } else {
            false
        }
    }

    /// When the aim time is over, the boss locks its target and starts firing its burst.
    /// Returns whether it did.
    pub fn finish_aiming(&mut self, aim_timer_expired: bool) -> (fired_up: bool)
        requires
            old(self).wf(),
        ensures
            fired_up == (old(self).aiming && aim_timer_expired),
            *final(self) == if fired_up {
                BossStage1ShootingState {
                    aiming: false,
                    shooting: true,
                    shot_count: 0,
                    ..*old(self)
                }
            } else {
                *old(self)
            },
            final(self).wf(),
    {
        if self.aiming && aim_timer_expired {
            self.aiming = false;
            self.shooting = true;
            self.shot_count = 0;
            true
        } else {
            false
        }
    }

    /// One shot of the burst was fired; returns whether that ended the burst (the boss is
    /// then idle again until its shoot timer runs out).
    pub fn register_shot(&mut self) -> (burst_over: bool)
        requires
            old(self).wf(),
            old(self).shooting,
        ensures
            (*final(self), burst_over) == after_shot(*old(self)),
            final(self).wf(),
    {
        self.shot_count = self.shot_count + 1;
        if self.shot_count >= self.shots_per_burst {
            self.shooting = false;
            true
        } else {
            false
        }
    }
}

/// The point the cannon turns toward.
#[derive(Clone, Copy, Debug, PartialEq, Eq, Structural)]
pub enum AimTarget {
    /// Firing: the target locked when the burst started (the player if none was locked).
    Locked,
    /// Recoiling from a hit to the spine: the target remembered before the hit.
    Remembered,
    /// Otherwise the player's current position.
    Player,
}

impl BossStage1ShootingState {
    /// Where the cannon aims, given whether the hit recoil is still holding it.
    pub fn cannon_target(&self, aim_cooldown_active: bool) -> (t: AimTarget)
        ensures
            t == if self.shooting {
                AimTarget::Locked
            } else if aim_cooldown_active {
                AimTarget::Remembered
            } else {
                AimTarget::Player
            },
    {
        if self.shooting {
            AimTarget::Locked
        } else if aim_cooldown_active {
            AimTarget::Remembered
        } else {
            AimTarget::Player
        }
    }

    /// Whether the cannon turns at its slow tracking speed: while aiming or firing it barely
    /// follows the player.
    pub fn cannon_tracks_slowly(&self) -> (b: bool)
        ensures
            b == (self.aiming || self.shooting),
    {
        self.aiming || self.shooting
    }

    /// Whether the boss may turn to face the player: not while firing a burst.
    pub fn may_turn(&self) -> (b: bool)
        ensures
            b == !self.shooting,
    {
        !self.shooting
    }
}

/// The state after `n` shots of a burst that has just started.
pub open spec fn after_shots(s: BossStage1ShootingState, n: nat) -> (BossStage1ShootingState, bool)
    decreases n,
{
    if n == 0 {
        (s, false)
    } else {
        after_shot(after_shots(s, (n - 1) as nat).0)
    }
}

/// A burst fires exactly `shots_per_burst` shots: starting from the first shot of a burst,
/// each of the first `shots_per_burst - 1` shots leaves the boss firing, and the
/// `shots_per_burst`-th ends the burst.
pub proof fn law_burst_fires_exact_count(s: BossStage1ShootingState, n: nat)
    requires
        s.shooting,
        s.shot_count == 0,
        1 <= n <= s.shots_per_burst,
    ensures
        after_shots(s, n).0.shot_count == n,
        after_shots(s, n).0.shots_per_burst == s.shots_per_burst,
        after_shots(s, n).1 <==> n == s.shots_per_burst,
        after_shots(s, n).0.shooting <==> n < s.shots_per_burst,
    decreases n,
{
    if n > 1 {
        law_burst_fires_exact_count(s, (n - 1) as nat);
    } else {
        assert(after_shots(s, 0) == (s, false));
    }
}

/// The first stage's repositioning: whether a move was asked for and whether the boss is
/// moving. The path and timers live with the boss.
#[derive(Clone, Copy, Debug, PartialEq, Eq, Structural)]
pub struct BossStage1MovementState {
    pub pending_move_request: bool,
    pub moving: bool,
}

impl Default for BossStage1MovementState {
    fn default() -> (m: BossStage1MovementState)
        ensures
            !m.pending_move_request,
            !m.moving,
    {
        BossStage1MovementState { pending_move_request: false, moving: false }
    }
}

impl BossStage1MovementState {
    /// A requested move starts once the boss is neither aiming, firing nor already moving;
    /// returns whether it started.
    pub fn try_start_move(&mut self, aiming: bool, shooting: bool) -> (started: bool)
        ensures
            started == (old(self).pending_move_request && !aiming && !shooting
                && !old(self).moving),
            final(self).pending_move_request == old(self).pending_move_request,
            final(self).moving == (old(self).moving || started),
    {
        if self.pending_move_request && !aiming && !shooting && !self.moving {
            self.moving = true;
            true
        } else {
            false
        }
    }

    /// The move has reached its anchor: the boss hovers there and the request is served.
    pub fn finish_move(&mut self)
        ensures
            !final(self).moving,
            !final(self).pending_move_request,
    {
        self.moving = false;
        self.pending_move_request = false;
    }

    /// Asks the boss to move to another anchor once it can.
    pub fn request_move(&mut self)
        ensures
            final(self).pending_move_request,
            final(self).moving == old(self).moving,
    {
        self.pending_move_request = true;
    }

    /// Whether the boss bobs up and down: only while idle (not aiming, firing or moving).
    pub fn idle_wave(&self, aiming: bool, shooting: bool) -> (b: bool)
        ensures
            b == !(aiming || shooting || self.moving),
    {
        !(aiming || shooting || self.moving)
    }
}

/// The anchor a move goes to: one of the two anchors other than the nearest one, the first
/// on heads, the second on tails.
pub open spec fn move_anchor(nearest: usize, coin: bool) -> usize {
    if coin {
        ((nearest + 1) % 3) as usize
    } else {
        ((nearest + 2) % 3) as usize
    }
}

/// The anchor to move to from `nearest`, for a given coin toss.
pub fn pick_move_anchor(nearest: usize, coin: bool) -> (a: usize)
    requires
        nearest < MOVE_ANCHOR_COUNT,
    ensures
        a == move_anchor(nearest, coin),
{
    let others = [(nearest + 1) % 3, (nearest + 2) % 3];
    if coin {
        others[0]
    } else {
        others[1]
    }
}

/// The anchor to move to from `nearest`, chosen at random between the two others.
pub fn choose_move_anchor(nearest: usize) -> (a: usize)
    requires
        nearest < MOVE_ANCHOR_COUNT,
    ensures
        a < MOVE_ANCHOR_COUNT,
        a != nearest,
        a == move_anchor(nearest, true) || a == move_anchor(nearest, false),
{
    let coin = random_bool();
    pick_move_anchor(nearest, coin)
}

/// A move always goes to an anchor, never to the one the boss is nearest to, and either coin
/// gives a different anchor.
pub proof fn law_move_leaves_nearest_anchor(nearest: usize, coin: bool)
    requires
        nearest < MOVE_ANCHOR_COUNT,
    ensures
        move_anchor(nearest, coin) < MOVE_ANCHOR_COUNT,
        move_anchor(nearest, coin) != nearest,
        move_anchor(nearest, true) != move_anchor(nearest, false),
{
}

} // verus!
