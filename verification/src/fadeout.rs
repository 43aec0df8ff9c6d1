//! The fade transition between the overworld and the combat screen: a
//! full-screen overlay whose opacity ramps up, switches the game state at
//! the midpoint of its timer, ramps back down, and is despawned at the end.

use vstd::prelude::*;
use vstd::arithmetic::div_mod::{
    lemma_div_is_ordered, lemma_div_pos_is_pos, lemma_multiply_divide_le, lemma_multiply_divide_lt,
};
use crate::GameState;
use crate::timer::Timer;

verus! {

/// Duration of the whole fade, in milliseconds.
pub const FADE_MS: u64 = 1000;

/// The state of a running fade transition.
#[derive(Clone, Copy, PartialEq, Eq, Structural, Debug)]
pub struct ScreenFade {
    /// Opacity of the overlay, in thousandths (0 transparent, 1000 opaque).
    pub alpha_permille: u32,
    /// Whether the state switch at the midpoint has already been issued.
    pub sent: bool,
    /// The state to switch to at the midpoint of the fade.
    pub next_state: GameState,
    /// One-shot timer that paces the fade.
    pub timer: Timer,
}

/// What the caller must do after one fade step: possibly switch the game
/// state, and possibly remove the fade overlay.
#[derive(Clone, Copy, PartialEq, Eq, Structural, Debug)]
pub struct FadeStep {
    pub set_state: Option<GameState>,
    pub despawn: bool,
}

/// Opacity of the fade overlay, in thousandths, as a function of the time
/// elapsed on its timer: it rises from 0 to about 1000 over the first half
/// of the duration and falls back to 0 over the second half.
pub open spec fn fade_alpha_permille(elapsed: int, duration: int) -> int
    recommends
        0 < duration,
        0 <= elapsed <= duration,
{
    if 2 * elapsed < duration {
        2000 * elapsed / duration
    } else {
        2000 * (duration - elapsed) / duration
    }
}

/// A fade as it is first created: transparent, not yet sent, with a fresh
/// one-shot timer of the full fade duration.
pub open spec fn fresh_fade(next: GameState) -> ScreenFade {
    ScreenFade {
        alpha_permille: 0,
        sent: false,
        next_state: next,
        timer: Timer { elapsed_ms: 0, duration_ms: FADE_MS, repeating: false, just_finished: false },
    }
}

impl ScreenFade {
    /// The fade's fields are consistent: the timer is a well-formed one-shot
    /// timer and the opacity is within range.
    pub open spec fn wf(self) -> bool {
        &&& self.timer.wf()
        &&& !self.timer.repeating
        &&& self.alpha_permille <= 1000
    }
}

/// The fade overlay's opacity is a triangular function of elapsed time:
/// it is 0 at both ends of the fade, never exceeds 1000, and the rising
/// half mirrors the falling half exactly.
pub proof fn fade_alpha_is_triangular(elapsed: int, duration: int)
    requires
        0 < duration,
        0 <= elapsed <= duration,
    ensures
        fade_alpha_permille(0, duration) == 0,
        fade_alpha_permille(duration, duration) == 0,
        0 <= fade_alpha_permille(elapsed, duration) <= 1000,
        fade_alpha_permille(elapsed, duration) == fade_alpha_permille(
            duration - elapsed,
            duration,
        ),
{
    lemma_div_pos_is_pos(0, duration);
    if 2 * elapsed < duration {
        lemma_multiply_divide_lt(2000 * elapsed, duration, 1000);
        lemma_div_pos_is_pos(2000 * elapsed, duration);
    } else {
        lemma_multiply_divide_le(2000 * (duration - elapsed), duration, 1000);
        lemma_div_pos_is_pos(2000 * (duration - elapsed), duration);
    }
    if 2 * elapsed == duration {
        assert(duration - elapsed == elapsed);
    }
}

/// On the rising half of the fade, more elapsed time never means a lower
/// opacity.
pub proof fn fade_alpha_rises(e1: int, e2: int, duration: int)
    requires
        0 < duration,
        0 <= e1 <= e2,
        2 * e2 <= duration,
    ensures
        fade_alpha_permille(e1, duration) <= fade_alpha_permille(e2, duration),
{
    if 2 * e2 < duration {
        lemma_div_is_ordered(2000 * e1, 2000 * e2, duration);
    } else {
        // e2 is exactly the midpoint, where both branches agree.
        assert(duration - e2 == e2);
        lemma_div_is_ordered(2000 * e1, 2000 * e2, duration);
    }
}

/// Start a fade toward `next_state`.
pub fn create_fadeout(next_state: GameState) -> (r: ScreenFade)
    ensures
        r == fresh_fade(next_state),
        r.wf(),
{
    ScreenFade {
        alpha_permille: 0,
        sent: false,
        next_state,
        timer: Timer::new(FADE_MS, false),
    }
}

/// Advance a fade by one frame of `delta_ms` milliseconds: tick its timer,
/// recompute the overlay opacity, issue the state switch once the timer
/// passes its midpoint (only the first time), and ask for the overlay to be
/// despawned on the tick the timer finishes.
pub fn fadeout(fade: &mut ScreenFade, delta_ms: u32) -> (step: FadeStep)
    requires
        old(fade).wf(),
    ensures
        final(fade).wf(),
        final(fade).next_state == old(fade).next_state,
        final(fade).timer.duration_ms == old(fade).timer.duration_ms,
        ({
            let total = old(fade).timer.elapsed_ms as int + delta_ms as int;
            let dur = old(fade).timer.duration_ms as int;
            let elapsed = final(fade).timer.elapsed_ms as int;
            &&& elapsed == if total >= dur { dur } else { total }
            &&& final(fade).alpha_permille as int == fade_alpha_permille(elapsed, dur)
            &&& final(fade).sent == (old(fade).sent || 2 * elapsed > dur)
            &&& step.set_state == (if 2 * elapsed > dur && !old(fade).sent {
                Some(old(fade).next_state)
            } else {
                None::<GameState>
            })
            &&& step.despawn == (old(fade).timer.elapsed_ms < old(fade).timer.duration_ms
                && total >= dur)
        }),
{
    fade.timer.tick(delta_ms);
    let elapsed: u64 = fade.timer.elapsed_ms;
    let duration: u64 = fade.timer.duration_ms;
    proof {
        if 2 * elapsed < duration {
            lemma_multiply_divide_lt(2000 * elapsed, duration as int, 1000);
            lemma_div_pos_is_pos(2000 * elapsed, duration as int);
        } else {
            lemma_multiply_divide_le(2000 * (duration - elapsed), duration as int, 1000);
            lemma_div_pos_is_pos(2000 * (duration - elapsed), duration as int);
        }
    }
    if 2 * elapsed < duration {
        fade.alpha_permille = (2000 * elapsed / duration) as u32;
    } else {
        fade.alpha_permille = (2000 * (duration - elapsed) / duration) as u32;
    }
    let set_state: Option<GameState> = if 2 * elapsed > duration && !fade.sent {
        fade.sent = true;
        Some(fade.next_state)
    } else {
        None
    };
    FadeStep { set_state, despawn: fade.timer.just_finished }
}

} // verus!
