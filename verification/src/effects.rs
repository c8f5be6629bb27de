use vstd::prelude::*;

verus! {

/// The four explosion animations.
#[derive(Clone, Copy, Debug, PartialEq, Eq, Structural)]
pub enum ExplosionKind {
    A,
    B,
    C,
    D,
}

/// How many images the animation of `kind` has.
pub open spec fn explosion_frame_count(kind: ExplosionKind) -> nat {
    match kind {
        ExplosionKind::A => 7,
        ExplosionKind::B => 7,
        ExplosionKind::C => 10,
        ExplosionKind::D => 16,
    }
}

/// How many images the animation of `kind` has.
pub fn frame_count(kind: ExplosionKind) -> (n: usize)
    ensures
        n == explosion_frame_count(kind),
{
    match kind {
        ExplosionKind::A => 7,
        ExplosionKind::B => 7,
        ExplosionKind::C => 10,
        ExplosionKind::D => 16,
    }
}

/// What an animation tick does to the sprite: show the image of the given index (`0` is the
/// first image of the kind), or remove the explosion.
#[derive(Clone, Copy, Debug, PartialEq, Eq, Structural)]
pub enum ExplosionFrame {
    Show(usize),
    Despawn,
}

/// The effect of the tick that leaves frame `frame`.
pub open spec fn explosion_step(kind: ExplosionKind, frame: int) -> ExplosionFrame {
    if 0 <= frame < explosion_frame_count(kind) {
        ExplosionFrame::Show(frame as usize)
    } else {
        ExplosionFrame::Despawn
    }
}

/// An explosion that is being played; its frame timer lives with the sprite.
#[derive(Clone, Copy, Debug)]
pub struct Explosion {
    pub kind: ExplosionKind,
    pub frame: usize,
}

impl Explosion {
    /// A fresh explosion of the given kind, showing its first image.
    pub fn new(kind: ExplosionKind) -> (e: Explosion)
        ensures
            e.kind == kind,
            e.frame == 0,
    {
        Explosion { kind, frame: 0 }
    }

    /// One frame period has passed: move to the next frame and say which image to show, or
    /// that the animation is over.
    pub fn advance(&mut self) -> (step: ExplosionFrame)
        requires
            old(self).frame < usize::MAX,
        ensures
            final(self).kind == old(self).kind,
            final(self).frame == old(self).frame + 1,
            step == explosion_step(old(self).kind, old(self).frame as int),
    {
        self.frame = self.frame + 1;
        let count = frame_count(self.kind);
        if self.frame <= count {
            ExplosionFrame::Show(self.frame - 1)
        } else {
            ExplosionFrame::Despawn
        }
    }
}

/// An explosion plays every image of its kind once, in order, and is removed on the tick
/// after its last image.
pub proof fn law_explosion_plays_every_frame_then_despawns(kind: ExplosionKind)
    ensures
        forall|f: int|
            0 <= f < explosion_frame_count(kind) ==> #[trigger] explosion_step(kind, f)
                == ExplosionFrame::Show(f as usize),
        explosion_step(kind, explosion_frame_count(kind) as int) == ExplosionFrame::Despawn,
{
}

} // verus!
