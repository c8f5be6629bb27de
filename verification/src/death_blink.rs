use vstd::prelude::*;

verus! {

/// Opacity levels a dying enemy blinks between.
#[derive(Clone, Copy, Debug, PartialEq, Eq, Structural)]
pub enum BlinkAlpha {
    Dim,
    Opaque,
}

/// The blinking of a dying enemy: how many visibility toggles are left out of how many.
/// Its timer and knock-back motion live with the sprite.
#[derive(Clone, Copy, Debug)]
pub struct DeathBlink {
    pub toggles_left: u8,
    pub toggles_total: u8,
}

/// The opacity a blink step sets, if any, and the toggles left after it.
pub open spec fn blink_step(toggles_left: u8, interval_elapsed: bool, currently_opaque: bool) -> (
    Option<BlinkAlpha>,
    u8,
) {
    if toggles_left > 0 {
        if interval_elapsed {
            (
                Some(
                    if currently_opaque {
                        BlinkAlpha::Dim
                    } else {
                        BlinkAlpha::Opaque
                    },
                ),
                (toggles_left - 1) as u8,
            )
        } else {
            (None, toggles_left)
        }
    } else {
        (Some(BlinkAlpha::Opaque), 0)
    }
}

impl DeathBlink {
    /// No more toggles are left than the blink was made with.
    pub open spec fn wf(self) -> bool {
        self.toggles_left <= self.toggles_total
    }

    /// A blink that will toggle the sprite `toggles` times.
    pub fn new(toggles: u8) -> (b: DeathBlink)
        ensures
            b.toggles_left == toggles,
            b.toggles_total == toggles,
            b.wf(),
    {
        DeathBlink { toggles_left: toggles, toggles_total: toggles }
    }

    /// Whether toggles remain, so that the blink timer runs.
    pub fn is_blinking(&self) -> (b: bool)
        ensures
            b == (self.toggles_left > 0),
    {
        self.toggles_left > 0
    }

    /// One frame of blinking: while toggles remain, each elapsed interval flips the sprite
    /// between opaque and dim and uses up one toggle; once none remain the sprite is kept
    /// opaque. Returns the opacity to set, if any.
    pub fn step(&mut self, interval_elapsed: bool, currently_opaque: bool) -> (set: Option<
        BlinkAlpha,
    >)
        ensures
            (set, final(self).toggles_left) == blink_step(
                old(self).toggles_left,
                interval_elapsed,
                currently_opaque,
            ),
            final(self).toggles_total == old(self).toggles_total,
            old(self).wf() ==> final(self).wf(),
    {
        if self.toggles_left > 0 {
            if interval_elapsed {
                self.toggles_left = self.toggles_left - 1;
                if currently_opaque {
                    Some(BlinkAlpha::Dim)
                } else {
                    Some(BlinkAlpha::Opaque)
                }
            } else {
                None
            }
        } else {
            Some(BlinkAlpha::Opaque)
        }
    }
}

/// The number of toggles left after `n` elapsed intervals, starting with `left`.
pub open spec fn toggles_after(left: u8, n: nat) -> u8
    decreases n,
{
    if n == 0 {
        left
    } else {
        blink_step(toggles_after(left, (n - 1) as nat), true, true).1
    }
}

/// A blink toggles exactly as many times as it was made with: after that many elapsed
/// intervals no toggle is left, and from then on every step keeps the sprite opaque.
pub proof fn law_blink_ends_opaque_after_all_toggles(total: u8, opaque: bool, elapsed: bool)
    ensures
        forall|n: nat| n <= total ==> #[trigger] toggles_after(total, n) == total - n,
        blink_step(toggles_after(total, total as nat), elapsed, opaque) == (
            Some(BlinkAlpha::Opaque),
            0u8,
        ),
{
    assert forall|n: nat| n <= total implies #[trigger] toggles_after(total, n) == total - n by {
        lemma_toggles_after(total, n);
    }
    lemma_toggles_after(total, total as nat);
}

proof fn lemma_toggles_after(total: u8, n: nat)
    requires
        n <= total,
    ensures
        toggles_after(total, n) == total - n,
    decreases n,
{
    if n > 0 {
        lemma_toggles_after(total, (n - 1) as nat);
    }
}

} // verus!
