use vstd::prelude::*;

use crate::input::InputState;
use crate::player::{frame_offset, Player};
use crate::sprite::Vec2i;
use crate::surface::{clamp_extent, SurfaceConfig};

verus! {

#[derive(Clone, Copy, PartialEq, Eq, Structural, Debug)]
pub enum Phase {
    Uninitialized,
    Ready,
    ShuttingDown,
}

/// What the window system reported.
#[derive(Clone, Copy, PartialEq, Eq, Structural, Debug)]
pub enum Event {
    /// The event loop started; the window is `width` x `height` pixels.
    Init(u32, u32),
    /// The window wants a new frame.
    Redraw,
    /// The window now measures `width` x `height` pixels.
    Resized(u32, u32),
    /// A physical key changed state (`repeat` for auto-repeated key-downs).
    Key { code: u8, pressed: bool, repeat: bool },
    /// The escape key.
    Escape,
    CloseRequested,
}

/// What the host must do after an event.
#[derive(Clone, Copy, PartialEq, Eq, Structural, Debug)]
pub enum Action {
    /// Create the surface, the render pipeline and the player's GPU resources.
    Setup,
    /// Write the player's transform buffer, render the frame and present it.
    Draw,
    /// Reconfigure the surface with the current size.
    Reconfigure,
    /// Leave the event loop.
    Exit,
    Nothing,
}

pub open spec fn next_phase(phase: Phase, ev: Event) -> Phase {
    match (phase, ev) {
        (Phase::ShuttingDown, _) => Phase::ShuttingDown,
        (_, Event::Escape) | (_, Event::CloseRequested) => Phase::ShuttingDown,
        (Phase::Uninitialized, Event::Init(_, _)) => Phase::Ready,
        _ => phase,
    }
}

pub open spec fn action_for(phase: Phase, ev: Event) -> Action {
    match (phase, ev) {
        (Phase::ShuttingDown, _) => Action::Nothing,
        (_, Event::Escape) | (_, Event::CloseRequested) => Action::Exit,
        (Phase::Uninitialized, Event::Init(_, _)) => Action::Setup,
        (Phase::Ready, Event::Redraw) => Action::Draw,
        (Phase::Ready, Event::Resized(_, _)) => Action::Reconfigure,
        _ => Action::Nothing,
    }
}

/// The key table after `ev`: key-down and key-up transitions are recorded,
/// repeats are not.
pub open spec fn keys_after(keys: Seq<bool>, phase: Phase, ev: Event) -> Seq<bool> {
    match ev {
        Event::Key { code, pressed, repeat } => if !repeat && phase != Phase::ShuttingDown {
            keys.update(code as int, pressed)
        } else {
            keys
        },
        _ => keys,
    }
}

/// The application's frame loop: phase, key table, surface size and player.
pub struct Game {
    pub phase: Phase,
    pub input: InputState,
    pub surface: Option<SurfaceConfig>,
    pub player: Option<Player>,
    pub left_key: u8,
    pub right_key: u8,
}

impl Game {
    pub open spec fn wf(&self) -> bool {
        &&& self.input.wf()
        &&& (self.surface matches Some(s) ==> s.wf())
        &&& (self.player matches Some(p) ==> p.wf())
        &&& (self.phase == Phase::Ready ==> self.surface is Some && self.player is Some)
    }

    /// A loop that has not started, with no key held.
    pub fn new(left_key: u8, right_key: u8) -> (r: Game)
        ensures
            r.wf(),
            r.phase == Phase::Uninitialized,
            r.surface is None,
            r.player is None,
            r.left_key == left_key,
            r.right_key == right_key,
            forall|k: u8| !#[trigger] r.input.pressed(k),
    {
        Game {
            phase: Phase::Uninitialized,
            input: InputState::new(),
            surface: None,
            player: None,
            left_key,
            right_key,
        }
    }

    /// Takes one event and says what the host must do.
    pub fn handle(&mut self, ev: Event) -> (a: Action)
        requires
            old(self).wf(),
        ensures
            final(self).wf(),
            a == action_for(old(self).phase, ev),
            final(self).phase == next_phase(old(self).phase, ev),
            final(self).left_key == old(self).left_key,
            final(self).right_key == old(self).right_key,
            final(self).input@ == keys_after(old(self).input@, old(self).phase, ev),
            a == Action::Setup ==> (ev matches Event::Init(w, h) && final(self).surface == Some(
                SurfaceConfig { width: clamp_extent(w), height: clamp_extent(h) },
            ) && final(self).player.unwrap().sprite_view().offset_view() == (Vec2i { x: 0, y: 0 })
                && final(self).player.unwrap().left_key_view() == old(self).left_key
                && final(self).player.unwrap().right_key_view() == old(self).right_key),
            a == Action::Reconfigure ==> (ev matches Event::Resized(w, h) && final(self).surface
                == Some(SurfaceConfig { width: clamp_extent(w), height: clamp_extent(h) })
                && final(self).player == old(self).player),
            a == Action::Draw ==> {
                let p = old(self).player.unwrap();
                let q = final(self).player.unwrap();
                &&& final(self).surface == old(self).surface
                &&& q.left_key_view() == p.left_key_view()
                &&& q.right_key_view() == p.right_key_view()
                &&& q.sprite_view().offset_view() == frame_offset(
                    p.sprite_view().offset_view(),
                    old(self).input.pressed(p.right_key_view()),
                    old(self).input.pressed(p.left_key_view()),
                )
            },
            a != Action::Setup && a != Action::Reconfigure && a != Action::Draw
                ==> final(self).surface == old(self).surface
                && final(self).player == old(self).player,
    {
        if self.phase == Phase::ShuttingDown {
            return Action::Nothing;
        }
        match ev {
            Event::Escape | Event::CloseRequested => {
                self.phase = Phase::ShuttingDown;
                Action::Exit
            },
            Event::Init(w, h) => {
                if self.phase == Phase::Uninitialized {
                    self.surface = Some(SurfaceConfig::new(w, h));
                    self.player = Some(Player::init(self.left_key, self.right_key));
                    self.phase = Phase::Ready;
                    Action::Setup
                } else {
                    Action::Nothing
                }
            },
            Event::Redraw => {
                if self.phase == Phase::Ready {
                    let mut player = self.player.take().unwrap();
                    player.update(&self.input);
                    self.player = Some(player);
                    Action::Draw
                } else {
                    Action::Nothing
                }
            },
            Event::Resized(w, h) => {
                if self.phase == Phase::Ready {
                    self.surface = Some(SurfaceConfig::new(w, h));
                    Action::Reconfigure
                } else {
                    Action::Nothing
                }
            },
            Event::Key { code, pressed, repeat } => {
                if !repeat {
                    self.input.register_key_state(code, pressed);
                }
                Action::Nothing
            },
        }
    }
}

} // verus!
