//! The first screen model of the game: its screens, party and inventory
//! resources, settings, and a fade that always restarts.

use bevy::ecs::entity::Entity;
use vstd::prelude::*;

verus! {

/// bevy's `Entity` handle. The library only stores such handles and never
/// looks inside one.
#[verifier::external_type_specification]
#[verifier::external_body]
pub struct ExEntity(Entity);

/// Top-level screen.
#[derive(Clone, Copy, Debug, PartialEq, Eq, Structural, Hash)]
pub enum GameState {
    TitleScreen,
    MainMenu,
    Overworld,
    Battle,
    Shop,
    Inventory,
    Settings,
    PauseMenu,
}

impl Default for GameState {
    /// The title screen.
    fn default() -> (s: Self)
        ensures
            s == GameState::TitleScreen,
    {
        GameState::TitleScreen
    }
}

/// The party as entities on screen, and its gold.
pub struct PartyResource {
    pub members: Vec<Entity>,
    pub gold: u32,
}

impl Default for PartyResource {
    /// No members, no gold.
    fn default() -> (p: Self)
        ensures
            p.members@.len() == 0,
            p.gold == 0,
    {
        PartyResource { members: Vec::new(), gold: 0 }
    }
}

/// What kind of thing an inventory entry is.
#[derive(Clone, Copy, Debug, PartialEq, Eq, Structural)]
pub enum ItemType {
    Consumable,
    Equipment,
    KeyItem,
}

/// A stack of items.
#[derive(Clone, Debug)]
pub struct InventoryItem {
    pub name: String,
    pub quantity: u32,
    pub item_type: ItemType,
}

pub struct InventoryResource {
    pub items: Vec<InventoryItem>,
}

impl Default for InventoryResource {
    /// Empty.
    fn default() -> (r: Self)
        ensures
            r.items@.len() == 0,
    {
        InventoryResource { items: Vec::new() }
    }
}

/// Volumes in percent, and the window mode.
#[derive(Clone, Copy, Debug, PartialEq, Eq, Structural)]
pub struct GameSettings {
    pub music_volume: u32,
    pub sfx_volume: u32,
    pub fullscreen: bool,
}

impl Default for GameSettings {
    /// Music 70%, effects 80%, windowed.
    fn default() -> (s: Self)
        ensures
            s.music_volume == 70,
            s.sfx_volume == 80,
            !s.fullscreen,
    {
        GameSettings { music_volume: 70, sfx_volume: 80, fullscreen: false }
    }
}

/// Opacity of a fully covered screen, in thousandths.
pub const FULL_ALPHA: u32 = 1000;

/// A fade out to another screen and back in.
#[derive(Clone, Copy, Debug, PartialEq, Eq, Structural)]
pub struct ScreenTransition {
    pub active: bool,
    pub fading_out: bool,
    /// Opacity of the overlay, in thousandths.
    pub alpha_milli: u32,
    pub target_state: Option<GameState>,
    /// Screens covered per second, in thousandths.
    pub speed_milli: u32,
}

impl ScreenTransition {
    pub open spec fn wf(&self) -> bool {
        self.alpha_milli <= FULL_ALPHA
    }
}

impl Default for ScreenTransition {
    /// No fade, overlay clear, two screens per second.
    fn default() -> (t: Self)
        ensures
            t.wf(),
            !t.active,
            !t.fading_out,
            t.alpha_milli == 0,
            t.target_state is None,
            t.speed_milli == 2000,
    {
        ScreenTransition { active: false, fading_out: false, alpha_milli: 0, target_state: None, speed_milli: 2000 }
    }
}

/// Starts a fade to `target`, restarting any fade under way.
pub fn start_transition(transition: &mut ScreenTransition, target: GameState)
    ensures
        *final(transition) == (ScreenTransition {
            active: true,
            fading_out: true,
            alpha_milli: 0,
            target_state: Some(target),
            speed_milli: old(transition).speed_milli,
        }),
{
    transition.active = true;
    transition.fading_out = true;
    transition.alpha_milli = 0;
    transition.target_state = Some(target);
}

/// One frame of a fade: `(state after, screen to switch to)`, as in the
/// menus' fade.
pub open spec fn transition_step(t: ScreenTransition, delta_ms: u32) -> (ScreenTransition, Option<GameState>) {
    let step = (delta_ms * t.speed_milli) / 1000;
    if !t.active {
        (t, None)
    } else if t.fading_out {
        if t.alpha_milli + step >= FULL_ALPHA {
            (ScreenTransition { alpha_milli: FULL_ALPHA, target_state: None, fading_out: false, ..t }, t.target_state)
        } else {
            (ScreenTransition { alpha_milli: (t.alpha_milli + step) as u32, ..t }, None)
        }
    } else {
        if step >= t.alpha_milli {
            (ScreenTransition { alpha_milli: 0, active: false, ..t }, None)
        } else {
            (ScreenTransition { alpha_milli: (t.alpha_milli - step) as u32, ..t }, None)
        }
    }
}

/// Advances a fade by `delta_ms` and returns the screen to switch to, if
/// this frame completes the fade out.
pub fn screen_transition_tick(transition: &mut ScreenTransition, delta_ms: u32) -> (r: Option<GameState>)
    requires
        old(transition).wf(),
    ensures
        final(transition).wf(),
        (*final(transition), r) == transition_step(*old(transition), delta_ms),
{
    if !transition.active {
        return None;
    }
    let d: u64 = delta_ms as u64;
    let sp: u64 = transition.speed_milli as u64;
    assert(d * sp <= 0xffff_ffff * 0xffff_ffff) by (nonlinear_arith)
        requires
            d <= 0xffff_ffff,
            sp <= 0xffff_ffff,
    ;
    let step: u64 = (d * sp) / 1000;
    if transition.fading_out {
        let a: u64 = transition.alpha_milli as u64 + step;
        if a >= FULL_ALPHA as u64 {
            transition.alpha_milli = FULL_ALPHA;
            let target = transition.target_state.take();
            transition.fading_out = false;
            target
        } else {
            transition.alpha_milli = a as u32;
            None
        }
    } else {
        if step >= transition.alpha_milli as u64 {
            transition.alpha_milli = 0;
            transition.active = false;
        } else {
            transition.alpha_milli = (transition.alpha_milli as u64 - step) as u32;
        }
        None
    }
}

} // verus!
