//! Screen fades, menu cursors, and the menus built on them.

pub mod menus;
pub mod tutorial;

use crate::core_plugin::GameState;
use crate::timer::OnceTimer;
use vstd::prelude::*;

verus! {

/// Opacity of the fade overlay when the screen is fully covered, in
/// thousandths.
pub const FULL_ALPHA: u32 = 1000;
/// How fast a fade runs: screens covered per second, in thousandths.
pub const FADE_SPEED_MILLI: u32 = 2500;

/// A fade out to another screen and back in.
#[derive(Clone, Copy, Debug, PartialEq, Eq, Structural)]
pub struct ScreenTransition {
    pub active: bool,
    pub fading_out: bool,
    /// Opacity of the overlay, in thousandths.
    pub alpha_milli: u32,
    pub target_state: Option<GameState>,
    /// Screens covered per second, in thousandths.
    pub speed_milli: u32,
}

impl ScreenTransition {
    /// The overlay's opacity stays between clear and fully covered.
    pub open spec fn wf(&self) -> bool {
        self.alpha_milli <= FULL_ALPHA
    }
}

impl Default for ScreenTransition {
    /// No fade under way, overlay clear.
    fn default() -> (t: Self)
        ensures
            t.wf(),
            !t.active,
            !t.fading_out,
            t.alpha_milli == 0,
            t.target_state is None,
            t.speed_milli == FADE_SPEED_MILLI,
    {
        ScreenTransition { active: false, fading_out: false, alpha_milli: 0, target_state: None, speed_milli: FADE_SPEED_MILLI }
    }
}

/// Starts a fade to `target`, unless a fade is already under way: an
/// ongoing fade is never interrupted.
pub fn start_transition(transition: &mut ScreenTransition, target: GameState)
    ensures
        old(transition).active ==> *final(transition) == *old(transition),
        !old(transition).active ==> *final(transition) == (ScreenTransition {
            active: true,
            fading_out: true,
            alpha_milli: 0,
            target_state: Some(target),
            speed_milli: old(transition).speed_milli,
        }),
{
    if transition.active {
        return;
    }
    transition.active = true;
    transition.fading_out = true;
    transition.alpha_milli = 0;
    transition.target_state = Some(target);
}

/// How much opacity `delta_ms` of fading changes.
pub open spec fn fade_step(t: ScreenTransition, delta_ms: u32) -> int {
    (delta_ms * t.speed_milli) / 1000
}

/// One frame of a fade: `(state after, screen to switch to)`. Fading out,
/// the overlay darkens until fully covered; then the target screen is handed
/// out, once, and the fade turns around. Fading in, the overlay clears, and
/// the fade ends when it is clear.
pub open spec fn transition_step(t: ScreenTransition, delta_ms: u32) -> (ScreenTransition, Option<GameState>) {
    let step = fade_step(t, delta_ms);
    if !t.active {
        (t, None)
    } else if t.fading_out {
        if t.alpha_milli + step >= FULL_ALPHA {
            (ScreenTransition { alpha_milli: FULL_ALPHA, target_state: None, fading_out: false, ..t }, t.target_state)
        } else {
            (ScreenTransition { alpha_milli: (t.alpha_milli + step) as u32, ..t }, None)
        }
    } else {
        if step >= t.alpha_milli {
            (ScreenTransition { alpha_milli: 0, active: false, ..t }, None)
        } else {
            (ScreenTransition { alpha_milli: (t.alpha_milli - step) as u32, ..t }, None)
        }
    }
}

/// Advances a fade by `delta_ms` and returns the screen to switch to, if
/// this frame completes the fade out.
pub fn screen_transition_tick(transition: &mut ScreenTransition, delta_ms: u32) -> (r: Option<GameState>)
    requires
        old(transition).wf(),
    ensures
        final(transition).wf(),
        (*final(transition), r) == transition_step(*old(transition), delta_ms),
{
    if !transition.active {
        return None;
    }
    let d: u64 = delta_ms as u64;
    let sp: u64 = transition.speed_milli as u64;
    assert(d * sp <= 0xffff_ffff * 0xffff_ffff) by (nonlinear_arith)
        requires
            d <= 0xffff_ffff,
            sp <= 0xffff_ffff,
    ;
    let step: u64 = (d * sp) / 1000;
    if transition.fading_out {
        let a: u64 = transition.alpha_milli as u64 + step;
        if a >= FULL_ALPHA as u64 {
            transition.alpha_milli = FULL_ALPHA;
            let target = transition.target_state.take();
            transition.fading_out = false;
            target
        } else {
            transition.alpha_milli = a as u32;
            None
        }
    } else {
        if step >= transition.alpha_milli as u64 {
            transition.alpha_milli = 0;
            transition.active = false;
        } else {
            transition.alpha_milli = (transition.alpha_milli as u64 - step) as u32;
        }
        None
    }
}

/// A fade hands out its target screen once: the frame that switches screens
/// hands out the target it was started with, and no later frame of the same
/// fade switches again.
pub proof fn lemma_target_handed_out_once(t: ScreenTransition, d1: u32, d2: u32)
    requires
        t.wf(),
        transition_step(t, d1).1 is Some,
    ensures
        transition_step(t, d1).1 == t.target_state,
        transition_step(transition_step(t, d1).0, d2).1 is None,
{
}

/// A started fade, given enough time, switches to its target: a frame of at
/// least 400 ms at the usual speed completes the fade out.
pub proof fn lemma_fade_out_completes(t: ScreenTransition, delta_ms: u32)
    requires
        t.wf(),
        t.active,
        t.fading_out,
        t.speed_milli == FADE_SPEED_MILLI,
        delta_ms >= 400,
    ensures
        transition_step(t, delta_ms).1 == t.target_state,
        !transition_step(t, delta_ms).0.fading_out,
{
    assert(delta_ms * t.speed_milli >= 1_000_000) by (nonlinear_arith)
        requires
            delta_ms >= 400,
            t.speed_milli == 2500,
    ;
}

/// Delay between two cursor moves, in milliseconds.
pub const CURSOR_COOLDOWN_MS: u32 = 150;

/// The cursor position after a frame: back first, then forward, each
/// wrapping around the ends, when the cooldown allows a move.
pub open spec fn wrap_back(sel: int, count: int) -> int {
    if sel == 0 {
        count - 1
    } else {
        sel - 1
    }
}

pub open spec fn wrap_forward(sel: int, count: int) -> int {
    (sel + 1) % count
}

pub open spec fn moved_cursor(sel: int, count: int, back: bool, forward: bool) -> int {
    let a = if back {
        wrap_back(sel, count)
    } else {
        sel
    };
    if forward {
        wrap_forward(a, count)
    } else {
        a
    }
}

/// One frame of a wrapping cursor over `count` entries: the cooldown runs
/// for `delta_ms`; once it has run out, `back` moves one entry back and
/// `forward` one entry forward (both may happen in one frame), each move
/// restarting the cooldown.
pub fn cursor_step(selected: &mut usize, count: usize, cooldown: &mut OnceTimer, delta_ms: u32, back: bool, forward: bool)
    requires
        count > 0,
        *old(selected) < count,
        old(cooldown).wf(),
    ensures
        *final(selected) < count,
        final(cooldown).wf(),
        final(cooldown).duration_ms == old(cooldown).duration_ms,
        ({
            let t = if old(cooldown).elapsed_ms + delta_ms >= old(cooldown).duration_ms {
                old(cooldown).duration_ms as int
            } else {
                old(cooldown).elapsed_ms + delta_ms
            };
            let ready = t >= old(cooldown).duration_ms;
            &&& ready ==> *final(selected) == moved_cursor(*old(selected) as int, count as int, back, forward)
            &&& !ready ==> *final(selected) == *old(selected)
            &&& (ready && (back || forward)) ==> final(cooldown).elapsed_ms == 0
            &&& !(ready && (back || forward)) ==> final(cooldown).elapsed_ms == t
        }),
{
    cooldown.tick(delta_ms);
    move_cursor(selected, count, cooldown, back, forward);
}

/// Moves a wrapping cursor when its cooldown has run out: `back` one entry
/// back, then `forward` one entry forward, each move restarting the
/// cooldown. The cooldown does not run here.
pub fn move_cursor(selected: &mut usize, count: usize, cooldown: &mut OnceTimer, back: bool, forward: bool)
    requires
        count > 0,
        *old(selected) < count,
        old(cooldown).wf(),
    ensures
        *final(selected) < count,
        final(cooldown).wf(),
        final(cooldown).duration_ms == old(cooldown).duration_ms,
        old(cooldown).is_finished() ==> *final(selected) == moved_cursor(*old(selected) as int, count as int, back, forward),
        !old(cooldown).is_finished() ==> *final(selected) == *old(selected),
        (old(cooldown).is_finished() && (back || forward)) ==> final(cooldown).elapsed_ms == 0,
        !(old(cooldown).is_finished() && (back || forward)) ==> *final(cooldown) == *old(cooldown),
{
    if cooldown.finished() {
        if back {
            *selected = if *selected == 0 {
                count - 1
            } else {
                *selected - 1
            };
            cooldown.reset();
        }
        if forward {
            *selected = (*selected + 1) % count;
            cooldown.reset();
        }
    }
}

/// A cursor over a menu of `count` entries.
#[derive(Clone, Copy, Debug, PartialEq, Eq, Structural)]
pub struct MenuCursor {
    pub selected: usize,
    pub count: usize,
    pub cooldown: OnceTimer,
}

impl MenuCursor {
    /// The cursor points into a non-empty menu.
    pub open spec fn wf(&self) -> bool {
        self.count > 0 && self.selected < self.count && self.cooldown.wf()
    }

    /// A cursor on the first entry, its cooldown just started.
    pub fn new(count: usize) -> (c: Self)
        requires
            count > 0,
        ensures
            c.wf(),
            c.selected == 0,
            c.count == count,
            c.cooldown.duration_ms == CURSOR_COOLDOWN_MS,
            c.cooldown.elapsed_ms == 0,
    {
        MenuCursor { selected: 0, count, cooldown: OnceTimer::new(CURSOR_COOLDOWN_MS) }
    }

    /// One frame of menu input: up moves back, down forward, wrapping.
    pub fn navigate(&mut self, delta_ms: u32, up: bool, down: bool)
        requires
            old(self).wf(),
        ensures
            final(self).wf(),
            final(self).count == old(self).count,
            final(self).selected == moved_cursor(old(self).selected as int, old(self).count as int, up, down)
                || final(self).selected == old(self).selected,
            old(self).cooldown.elapsed_ms + delta_ms >= old(self).cooldown.duration_ms
                ==> final(self).selected == moved_cursor(old(self).selected as int, old(self).count as int, up, down),
            old(self).cooldown.elapsed_ms + delta_ms < old(self).cooldown.duration_ms
                ==> final(self).selected == old(self).selected,
    {
        let count = self.count;
        cursor_step(&mut self.selected, count, &mut self.cooldown, delta_ms, up, down);
    }
}

} // verus!
