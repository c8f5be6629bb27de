use vstd::prelude::*;
use super::stage::{BossStage, BossStageKind, stage_rank};

verus! {

/// The spine's hit points in the first stage.
pub const BOSS_SPINE_HP: u8 = 80;

/// The head's hit points in the second stage.
pub const BOSS_HEAD_HP: u8 = 50;

/// How many explosions go off when the spine breaks.
pub const TRANSITION_EXPLOSION_BURST_COUNT: u8 = 3;

/// The boss's spine, the target of the first stage.
#[derive(Clone, Copy, Debug, PartialEq, Eq, Structural)]
pub struct BossSpine {
    pub hp: u8,
}

impl Default for BossSpine {
    fn default() -> (s: BossSpine)
        ensures
            s.hp == BOSS_SPINE_HP,
    {
        BossSpine { hp: BOSS_SPINE_HP }
    }
}

/// The second stage's state: the head's hit points (the crawl lives with the transform).
#[derive(Clone, Copy, Debug, PartialEq, Eq, Structural)]
pub struct BossStage2State {
    pub head_hp: u8,
}

impl Default for BossStage2State {
    fn default() -> (s: BossStage2State)
        ensures
            s.head_hp == BOSS_HEAD_HP,
    {
        BossStage2State { head_hp: BOSS_HEAD_HP }
    }
}

/// What a projectile reaching a boss weak spot did.
#[derive(Clone, Copy, Debug, PartialEq, Eq, Structural)]
pub enum WeakSpotHit {
    /// The boss is not in the stage where this spot can be hit: nothing happens.
    Ignored,
    /// The spot lost a hit point and holds.
    Damaged,
    /// The spot lost its last hit point: the boss moves on to its next stage.
    Broken,
}

/// Hit points after one hit: one fewer, never below zero.
pub open spec fn weak_spot_hp_after_hit(hp: u8) -> u8 {
    if hp > 0 {
        (hp - 1) as u8
    } else {
        0
    }
}

/// Spine hit points, stage and outcome after a projectile reaches the spine.
pub open spec fn spine_hit(hp: u8, stage: BossStageKind) -> (u8, BossStageKind, WeakSpotHit) {
    if stage != BossStageKind::Stage1 {
        (hp, stage, WeakSpotHit::Ignored)
    } else if weak_spot_hp_after_hit(hp) == 0 {
        (0, BossStageKind::TransitionToStage2, WeakSpotHit::Broken)
    } else {
        (weak_spot_hp_after_hit(hp), stage, WeakSpotHit::Damaged)
    }
}

/// Head hit points, stage and outcome after a projectile reaches the head.
pub open spec fn head_hit(hp: u8, stage: BossStageKind) -> (u8, BossStageKind, WeakSpotHit) {
    if stage != BossStageKind::Stage2 {
        (hp, stage, WeakSpotHit::Ignored)
    } else if weak_spot_hp_after_hit(hp) == 0 {
        (0, BossStageKind::Exploding, WeakSpotHit::Broken)
    } else {
        (weak_spot_hp_after_hit(hp), stage, WeakSpotHit::Damaged)
    }
}

/// A player projectile reached the spine. The spine can only be hit in the first stage; each
/// hit takes one hit point, and the last one breaks the spine and starts the fall to the
/// second stage.
pub fn boss_spine_hit(spine: &mut BossSpine, stage: &mut BossStage) -> (out: WeakSpotHit)
    ensures
        (final(spine).hp, final(stage).0, out) == spine_hit(old(spine).hp, old(stage).0),
{
    if stage.0 != BossStageKind::Stage1 {
        return WeakSpotHit::Ignored;
    }
    spine.hp = if spine.hp > 0 {
        spine.hp - 1
    } else {
        0
    };
    if spine.hp == 0 {
        stage.0 = BossStageKind::TransitionToStage2;
        WeakSpotHit::Broken
    } else {
        WeakSpotHit::Damaged
    }
}

/// A player projectile reached the head. The head can only be hit in the second stage; each
/// hit takes one hit point, and the last one makes the boss explode.
pub fn boss_head_hit(state: &mut BossStage2State, stage: &mut BossStage) -> (out: WeakSpotHit)
    ensures
        (final(state).head_hp, final(stage).0, out) == head_hit(old(state).head_hp, old(stage).0),
{
    if stage.0 != BossStageKind::Stage2 {
        return WeakSpotHit::Ignored;
    }
    state.head_hp = if state.head_hp > 0 {
        state.head_hp - 1
    } else {
        0
    };
    if state.head_hp == 0 {
        stage.0 = BossStageKind::Exploding;
        WeakSpotHit::Broken
    } else {
        WeakSpotHit::Damaged
    }
}

/// Hits never heal the boss and never move it back: a hit keeps or lowers the spot's hit
/// points, keeps the stage or moves it exactly one stage on, and moves it on exactly when
/// the spot is broken.
pub proof fn law_hits_only_move_forward(hp: u8, stage: BossStageKind)
    ensures
        spine_hit(hp, stage).0 <= hp,
        head_hit(hp, stage).0 <= hp,
        spine_hit(hp, stage).1 == stage || stage_rank(spine_hit(hp, stage).1) == stage_rank(stage)
            + 1,
        head_hit(hp, stage).1 == stage || stage_rank(head_hit(hp, stage).1) == stage_rank(stage)
            + 1,
        (spine_hit(hp, stage).1 != stage) <==> spine_hit(hp, stage).2 == WeakSpotHit::Broken,
        (head_hit(hp, stage).1 != stage) <==> head_hit(hp, stage).2 == WeakSpotHit::Broken,
{
}

/// The explosions still to come after the spine breaks (the position and timer live with
/// the boss): `remaining` out of `total`.
#[derive(Clone, Copy, Debug, PartialEq, Eq, Structural)]
pub struct BossTransitionExplosionQueue {
    pub remaining: u8,
    pub total: u8,
}

/// The queue of follow-up explosions for a burst of `burst_count` (at least one explosion;
/// the first goes off at once, so a queue exists only for more than one).
pub open spec fn explosion_queue_for(burst_count: u8) -> Option<BossTransitionExplosionQueue> {
    let total = if burst_count > 1 {
        burst_count
    } else {
        1u8
    };
    if total > 1 {
        Some(BossTransitionExplosionQueue { remaining: (total - 1) as u8, total })
    } else {
        None
    }
}

impl BossTransitionExplosionQueue {
    /// No more explosions remain than the burst has.
    pub open spec fn wf(self) -> bool {
        self.remaining <= self.total
    }

    /// The follow-up explosions of a burst of `burst_count`.
    pub fn for_burst(burst_count: u8) -> (q: Option<BossTransitionExplosionQueue>)
        ensures
            q == explosion_queue_for(burst_count),
            q matches Some(q) ==> q.wf() && q.remaining > 0,
    {
        let total = if burst_count > 1 {
            burst_count
        } else {
            1
        };
        if total > 1 {
            Some(BossTransitionExplosionQueue { remaining: total - 1, total })
        } else {
            None
        }
    }

    /// Whether every explosion has gone off.
    pub fn is_done(&self) -> (b: bool)
        ensures
            b == (self.remaining == 0),
    {
        self.remaining == 0
    }

    /// Sets off the next explosion: returns the index of its offset in the burst and whether
    /// it was the last one.
    pub fn pop(&mut self) -> (r: (usize, bool))
        requires
            0 < old(self).remaining <= old(self).total,
        ensures
            r.0 == old(self).total - old(self).remaining,
            final(self).remaining == old(self).remaining - 1,
            final(self).total == old(self).total,
            r.1 == (final(self).remaining == 0),
            final(self).wf(),
    {
        let index = (self.total - self.remaining) as usize;
        self.remaining = self.remaining - 1;
        (index, self.remaining == 0)
    }
}

/// The follow-up explosions go off at offsets `1`, `2`, ... in order, each index inside the
/// burst, and the queue is done exactly after the last one.
pub proof fn law_queue_pops_in_order(total: u8, remaining: u8)
    requires
        0 < remaining <= total,
    ensures
        total - remaining < total,
        remaining > 1 ==> total - (remaining - 1) == (total - remaining) + 1,
        remaining == 1 ==> total - remaining == total - 1,
        explosion_queue_for(total) matches Some(q) ==> q.remaining == total - 1 && total - q.remaining == 1,
{
}

} // verus!
