use vstd::prelude::*;
use super::parts::{BossParts, BossPartKind};

verus! {

/// How many explosions go off on the boss before the final blast.
pub const PRE_EXPLOSION_COUNT: u8 = 6;

/// The defeated boss's explosion sequence: which steps have happened. The timers live with
/// the boss.
#[derive(Clone, Copy, Debug, PartialEq, Eq, Structural)]
pub struct BossExplodingState {
    pub converted: bool,
    pub released: usize,
    pub defeat_sound_played: bool,
    pub win_started: bool,
    pub result_sent: bool,
    pub pre_explosions_spawned: u8,
    pub final_blast_triggered: bool,
}

impl Default for BossExplodingState {
    fn default() -> (s: BossExplodingState)
        ensures
            !s.converted,
            s.released == 0,
            !s.defeat_sound_played,
            !s.win_started,
            !s.result_sent,
            s.pre_explosions_spawned == 0,
            !s.final_blast_triggered,
            s.wf(),
    {
        BossExplodingState {
            converted: false,
            released: 0,
            defeat_sound_played: false,
            win_started: false,
            result_sent: false,
            pre_explosions_spawned: 0,
            final_blast_triggered: false,
        }
    }
}

/// The order in which the boss falls apart.
pub open spec fn release_order() -> Seq<BossPartKind> {
    seq![
        BossPartKind::Head,
        BossPartKind::LeftArm,
        BossPartKind::RightArm,
        BossPartKind::Spine,
        BossPartKind::Torso,
        BossPartKind::Cannon,
    ]
}

/// The recorded parts among the first `n` kinds of the release order, with their entities,
/// in that order.
pub open spec fn released_parts(parts: BossParts, n: nat) -> Seq<(BossPartKind, u64)>
    decreases n,
{
    if n == 0 {
        Seq::empty()
    } else {
        let before = released_parts(parts, (n - 1) as nat);
        let kind = release_order()[n - 1];
        match parts.entity_of(kind) {
            Some(e) => before.push((kind, e)),
            None => before,
        }
    }
}

/// Where a part stands in the release order.
pub open spec fn release_position(kind: BossPartKind) -> int {
    match kind {
        BossPartKind::Head => 0,
        BossPartKind::LeftArm => 1,
        BossPartKind::RightArm => 2,
        BossPartKind::Spine => 3,
        BossPartKind::Torso => 4,
        BossPartKind::Cannon => 5,
    }
}

/// State after the defeat-sound step, and whether the sound plays now.
pub open spec fn defeat_cue_step(s: BossExplodingState) -> (BossExplodingState, bool) {
    (BossExplodingState { defeat_sound_played: true, ..s }, !s.defeat_sound_played)
}

/// State after the final-blast step, and whether the blast goes off now.
pub open spec fn final_blast_step(s: BossExplodingState) -> (BossExplodingState, bool) {
    if !s.final_blast_triggered && s.pre_explosions_spawned == PRE_EXPLOSION_COUNT {
        (BossExplodingState { final_blast_triggered: true, ..s }, true)
    } else {
        (s, false)
    }
}

/// State after the win step, and whether the victory tune starts now.
pub open spec fn win_step(s: BossExplodingState, delay_reached: bool) -> (BossExplodingState, bool) {
    if !s.win_started && s.converted && delay_reached {
        (BossExplodingState { win_started: true, ..s }, true)
    } else {
        (s, false)
    }
}

/// State after the finishing step, and whether the result is sent now.
pub open spec fn finish_step(s: BossExplodingState, exit_delay_reached: bool) -> (
    BossExplodingState,
    bool,
) {
    if s.win_started && exit_delay_reached && !s.result_sent {
        (BossExplodingState { result_sent: true, ..s }, true)
    } else {
        (s, false)
    }
}

impl BossExplodingState {
    /// The sequence never runs past its steps: at most six pre-explosions, the final blast
    /// only after all of them, the parts released only after the final blast, and the win
    /// only after the parts are released.
    pub open spec fn wf(self) -> bool {
        &&& self.pre_explosions_spawned <= PRE_EXPLOSION_COUNT
        &&& self.final_blast_triggered ==> self.pre_explosions_spawned == PRE_EXPLOSION_COUNT
        &&& self.converted ==> self.final_blast_triggered
        &&& self.released <= 6
        &&& self.win_started ==> self.converted
        &&& self.result_sent ==> self.win_started
    }

    /// The first frame of the sequence plays the defeat sound (and takes control away from
    /// the player); returns whether this is that frame.
    pub fn take_defeat_cue(&mut self) -> (first: bool)
        ensures
            (*final(self), first) == defeat_cue_step(*old(self)),
    {
        if !self.defeat_sound_played {
            self.defeat_sound_played = true;
            true
        } else {
            false
        }
    }

    /// Whether pre-explosions are still to go off.
    pub fn pre_explosions_pending(&self) -> (b: bool)
        ensures
            b == (!self.final_blast_triggered && self.pre_explosions_spawned < PRE_EXPLOSION_COUNT),
    {
        !self.final_blast_triggered && self.pre_explosions_spawned < PRE_EXPLOSION_COUNT
    }

    /// Sets off the next pre-explosion: returns the index of its offset and whether it was
    /// the last one, in which case the final blast follows.
    pub fn next_pre_explosion(&mut self) -> (r: (usize, bool))
        requires
            old(self).wf(),
            !old(self).final_blast_triggered,
            old(self).pre_explosions_spawned < PRE_EXPLOSION_COUNT,
        ensures
            r.0 == old(self).pre_explosions_spawned,
            r.0 < PRE_EXPLOSION_COUNT,
            *final(self) == (BossExplodingState {
                pre_explosions_spawned: (old(self).pre_explosions_spawned + 1) as u8,
                ..*old(self)
            }),
            r.1 == (final(self).pre_explosions_spawned == PRE_EXPLOSION_COUNT),
            final(self).wf(),
    {
        let index = self.pre_explosions_spawned as usize;
        self.pre_explosions_spawned = self.pre_explosions_spawned + 1;
        (index, self.pre_explosions_spawned >= PRE_EXPLOSION_COUNT)
    }

    /// Sets off the final blast once every pre-explosion has gone off; returns whether it
    /// went off now.
    pub fn trigger_final_blast(&mut self) -> (now: bool)
        requires
            old(self).wf(),
        ensures
            (*final(self), now) == final_blast_step(*old(self)),
            final(self).wf(),
    {
        if !self.final_blast_triggered && self.pre_explosions_spawned == PRE_EXPLOSION_COUNT {
            self.final_blast_triggered = true;
            true
        } else {
            false
        }
    }

    /// After the final blast the boss falls apart: returns its recorded parts in release
    /// order with their entities, once; later calls return nothing.
    pub fn release_parts(&mut self, parts: &BossParts) -> (released: Vec<(BossPartKind, u64)>)
        requires
            old(self).wf(),
        ensures
            old(self).final_blast_triggered && !old(self).converted ==> {
                &&& released@ == released_parts(*parts, 6)
                &&& *final(self) == (BossExplodingState {
                    converted: true,
                    released: released@.len() as usize,
                    ..*old(self)
                })
            },
            !(old(self).final_blast_triggered && !old(self).converted) ==> {
                &&& released@.len() == 0
                &&& *final(self) == *old(self)
            },
            final(self).wf(),
    {
        let mut out: Vec<(BossPartKind, u64)> = Vec::new();
        if !self.final_blast_triggered || self.converted {
            return out;
        }
        let order = [
            BossPartKind::Head,
            BossPartKind::LeftArm,
            BossPartKind::RightArm,
            BossPartKind::Spine,
            BossPartKind::Torso,
            BossPartKind::Cannon,
        ];
        assert(order@ == release_order());
        let mut i: usize = 0;
        while i < 6
            invariant
                0 <= i <= 6,
                order@ == release_order(),
                out@ == released_parts(*parts, i as nat),
                out@.len() <= i,
            decreases 6 - i,
        {
            let kind = order[i];
            match parts.get(kind) {
                Some(e) => out.push((kind, e)),
                None => {},
            }
            i = i + 1;
        }
        self.released = out.len();
        self.converted = true;
        out
    }

    /// Once the win delay has passed after the final blast the victory tune starts; returns
    /// whether it starts now.
    pub fn start_win(&mut self, delay_reached: bool) -> (now: bool)
        requires
            old(self).wf(),
        ensures
            (*final(self), now) == win_step(*old(self), delay_reached),
            final(self).wf(),
    {
        if !self.win_started && self.converted && delay_reached {
            self.win_started = true;
            true
        } else {
            false
        }
    }

    /// Once the exit delay has passed after the victory tune started, the result is sent and
    /// the game ends; returns whether that happens now (it happens once).
    pub fn finish(&mut self, exit_delay_reached: bool) -> (now: bool)
        requires
            old(self).wf(),
        ensures
            (*final(self), now) == finish_step(*old(self), exit_delay_reached),
            final(self).wf(),
    {
        if self.win_started && exit_delay_reached && !self.result_sent {
            self.result_sent = true;
            true
        } else {
            false
        }
    }
}

/// Whether a released part is thrown by the blast; the cannon just drops.
pub fn part_is_thrown(kind: BossPartKind) -> (b: bool)
    ensures
        b == (kind != BossPartKind::Cannon),
{
    match kind {
        BossPartKind::Cannon => false,
        _ => true,
    }
}

/// Each one-off step of the defeat sequence happens once: after the defeat sound, the final
/// blast, the victory tune or the result has happened, the same step never happens again.
pub proof fn law_exploding_steps_happen_once(s: BossExplodingState, a: bool, b: bool)
    ensures
        !defeat_cue_step(defeat_cue_step(s).0).1,
        final_blast_step(s).1 ==> !final_blast_step(final_blast_step(s).0).1,
        win_step(s, a).1 ==> !win_step(win_step(s, a).0, b).1,
        finish_step(s, a).1 ==> !finish_step(finish_step(s, a).0, b).1,
{
}

/// Each part is released at most once, in release order, and only parts that were recorded.
pub proof fn law_parts_released_once_in_order(parts: BossParts, n: nat)
    requires
        n <= 6,
    ensures
        released_parts(parts, n).len() <= n,
        forall|i: int, j: int|
            0 <= i < j < released_parts(parts, n).len() ==> #[trigger] released_parts(parts, n)[i].0
                != #[trigger] released_parts(parts, n)[j].0,
        forall|i: int|
            0 <= i < released_parts(parts, n).len() ==> parts.entity_of(
                #[trigger] released_parts(parts, n)[i].0,
            ) == Some(released_parts(parts, n)[i].1),
    decreases n,
{
    if n > 0 {
        law_parts_released_once_in_order(parts, (n - 1) as nat);
        lemma_released_kinds_from_prefix(parts, (n - 1) as nat);
    }
}

proof fn lemma_released_kinds_from_prefix(parts: BossParts, n: nat)
    requires
        n <= 6,
    ensures
        forall|i: int|
            0 <= i < released_parts(parts, n).len() ==> exists|k: int|
                0 <= k < n && release_order()[k] == #[trigger] released_parts(parts, n)[i].0,
    decreases n,
{
    if n > 0 {
        lemma_released_kinds_from_prefix(parts, (n - 1) as nat);
        let before = released_parts(parts, (n - 1) as nat);
        let now = released_parts(parts, n);
        assert forall|i: int| 0 <= i < now.len() implies exists|k: int|
            0 <= k < n && release_order()[k] == #[trigger] now[i].0 by {
            if i < before.len() {
                assert(now[i] == before[i]);
                let k = choose|k: int| 0 <= k < n - 1 && release_order()[k] == before[i].0;
                assert(release_order()[k] == now[i].0);
            } else {
                assert(release_order()[n - 1] == now[i].0);
            }
        }
    }
}

proof fn lemma_release_positions()
    ensures
        forall|i: int| 0 <= i < 6 ==> release_position(#[trigger] release_order()[i]) == i,
        forall|k: BossPartKind| release_order()[#[trigger] release_position(k)] == k,
        forall|k: BossPartKind| 0 <= #[trigger] release_position(k) < 6,
{
    assert(release_order()[0] == BossPartKind::Head);
    assert(release_order()[1] == BossPartKind::LeftArm);
    assert(release_order()[2] == BossPartKind::RightArm);
    assert(release_order()[3] == BossPartKind::Spine);
    assert(release_order()[4] == BossPartKind::Torso);
    assert(release_order()[5] == BossPartKind::Cannon);
}

proof fn lemma_released_by_position(parts: BossParts, n: nat)
    requires
        n <= 6,
    ensures
        forall|i: int|
            0 <= i < released_parts(parts, n).len() ==> release_position(
                #[trigger] released_parts(parts, n)[i].0,
            ) < n,
        forall|i: int, j: int|
            0 <= i < j < released_parts(parts, n).len() ==> release_position(
                #[trigger] released_parts(parts, n)[i].0,
            ) < release_position(#[trigger] released_parts(parts, n)[j].0),
        forall|k: BossPartKind|
            release_position(k) < n && #[trigger] parts.entity_of(k) is Some ==> released_parts(
                parts,
                n,
            ).contains((k, parts.entity_of(k)->0)),
    decreases n,
{
    lemma_release_positions();
    if n > 0 {
        lemma_released_by_position(parts, (n - 1) as nat);
        let before = released_parts(parts, (n - 1) as nat);
        let now = released_parts(parts, n);
        let kind = release_order()[n - 1];
        assert(release_position(kind) == n - 1);
        assert forall|i: int| 0 <= i < now.len() implies release_position(#[trigger] now[i].0) < n by {
            if i < before.len() {
                assert(now[i] == before[i]);
            }
        }
        assert forall|i: int, j: int| 0 <= i < j < now.len() implies release_position(
            #[trigger] now[i].0,
        ) < release_position(#[trigger] now[j].0) by {
            assert(now[i] == before[i]);
            if j < before.len() {
                assert(now[j] == before[j]);
            }
        }
        assert forall|k: BossPartKind|
            release_position(k) < n && #[trigger] parts.entity_of(k) is Some implies now.contains(
            (k, parts.entity_of(k)->0),
        ) by {
            if release_position(k) == n - 1 {
                assert(kind == k);
                assert(now[now.len() - 1] == (k, parts.entity_of(k)->0));
            } else {
                assert(before.contains((k, parts.entity_of(k)->0)));
                let w = choose|w: int| 0 <= w < before.len() && before[w] == (k, parts.entity_of(k)->0);
                assert(now[w] == before[w]);
            }
        }
    }
}

/// The boss falls apart completely and in release order: every part whose entity is recorded
/// is released with that entity, and the released parts come head, left arm, right arm,
/// spine, torso, cannon, skipping only the parts that were never recorded.
pub proof fn law_every_recorded_part_released(parts: BossParts, kind: BossPartKind)
    ensures
        parts.entity_of(kind) matches Some(e) ==> released_parts(parts, 6).contains((kind, e)),
        forall|i: int, j: int|
            0 <= i < j < released_parts(parts, 6).len() ==> release_position(
                #[trigger] released_parts(parts, 6)[i].0,
            ) < release_position(#[trigger] released_parts(parts, 6)[j].0),
{
    lemma_release_positions();
    lemma_released_by_position(parts, 6);
}

} // verus!
