use vstd::prelude::*;
use std::collections::HashMap;

verus! {

broadcast use vstd::std_specs::hash::group_hash_axioms;

/// The separately drawn parts of the boss.
#[derive(Clone, Copy, Debug, Eq, PartialEq, Hash, Structural)]
pub enum BossPartKind {
    Torso,
    Head,
    Spine,
    Cannon,
    LeftArm,
    RightArm,
}

/// The key under which a part is stored.
pub open spec fn part_code(kind: BossPartKind) -> u8 {
    match kind {
        BossPartKind::Torso => 0,
        BossPartKind::Head => 1,
        BossPartKind::Spine => 2,
        BossPartKind::Cannon => 3,
        BossPartKind::LeftArm => 4,
        BossPartKind::RightArm => 5,
    }
}

fn code(kind: BossPartKind) -> (c: u8)
    ensures
        c == part_code(kind),
{
    match kind {
        BossPartKind::Torso => 0,
        BossPartKind::Head => 1,
        BossPartKind::Spine => 2,
        BossPartKind::Cannon => 3,
        BossPartKind::LeftArm => 4,
        BossPartKind::RightArm => 5,
    }
}

/// The entities of the boss's parts (entities by their bit pattern), keyed by part.
#[derive(Debug)]
pub struct BossParts {
    entities: HashMap<u8, u64>,
}

impl View for BossParts {
    type V = Map<u8, u64>;

    closed spec fn view(&self) -> Map<u8, u64> {
        self.entities@
    }
}

impl BossParts {
    /// The entity recorded for `kind`, if any.
    pub open spec fn entity_of(self, kind: BossPartKind) -> Option<u64> {
        if self@.contains_key(part_code(kind)) {
            Some(self@[part_code(kind)])
        } else {
            None
        }
    }

    /// No parts recorded.
    pub fn new() -> (p: BossParts)
        ensures
            p@ == Map::<u8, u64>::empty(),
    {
        BossParts { entities: HashMap::new() }
    }

    /// Records `entity` as the boss's `kind` part, replacing any earlier one.
    pub fn insert(&mut self, kind: BossPartKind, entity: u64)
        ensures
            final(self)@ == old(self)@.insert(part_code(kind), entity),
    {
        self.entities.insert(code(kind), entity);
    }

    /// The entity of the boss's `kind` part, if recorded.
    pub fn get(&self, kind: BossPartKind) -> (e: Option<u64>)
        ensures
            e == self.entity_of(kind),
    {
        match self.entities.get(&code(kind)) {
            Some(e) => Some(*e),
            None => None,
        }
    }
}

impl Default for BossParts {
    fn default() -> (p: BossParts)
        ensures
            p@ == Map::<u8, u64>::empty(),
    {
        BossParts::new()
    }
}

/// Looking up a part gives back the entity last recorded for it, and recording one part
/// leaves every other part as it was.
pub proof fn law_parts_read_back_last_write(
    parts: Map<u8, u64>,
    kind: BossPartKind,
    other: BossPartKind,
    entity: u64,
)
    ensures
        parts.insert(part_code(kind), entity).contains_key(part_code(kind)),
        parts.insert(part_code(kind), entity)[part_code(kind)] == entity,
        other != kind ==> (parts.insert(part_code(kind), entity).contains_key(part_code(other))
            == parts.contains_key(part_code(other))),
        other != kind && parts.contains_key(part_code(other)) ==> parts.insert(
            part_code(kind),
            entity,
        )[part_code(other)] == parts[part_code(other)],
{
}

} // verus!
