use vstd::prelude::*;

use crate::input::InputState;
use crate::sprite::{can_move, coord_ok, size_ok, translate_scale, vec_add, Sprite, Vec2i};

verus! {

/// Local motion per frame while a direction key is held (0.07 of the quad).
pub const SPEED: i64 = 7;

pub open spec fn start_position() -> Vec2i {
    Vec2i { x: 3000, y: 3000 }
}

pub open spec fn start_size() -> Vec2i {
    Vec2i { x: 1300, y: 800 }
}

pub open spec fn right_step() -> Vec2i {
    Vec2i { x: SPEED, y: 0 }
}

pub open spec fn left_step() -> Vec2i {
    Vec2i { x: (-SPEED) as i64, y: 0 }
}

/// `offset` moved by `d` when `held` and the motion stays in range.
pub open spec fn step_if(offset: Vec2i, held: bool, d: Vec2i) -> Vec2i {
    if held && can_move(offset, d) {
        vec_add(offset, d)
    } else {
        offset
    }
}

/// One frame of motion: right first, then left.
pub open spec fn frame_offset(offset: Vec2i, right: bool, left: bool) -> Vec2i {
    step_if(step_if(offset, right, right_step()), left, left_step())
}

/// The keyboard-driven sprite.
pub struct Player {
    sprite: Sprite,
    left_key: u8,
    right_key: u8,
}

impl Player {
    pub closed spec fn sprite_view(&self) -> Sprite {
        self.sprite
    }

    pub closed spec fn left_key_view(&self) -> u8 {
        self.left_key
    }

    pub closed spec fn right_key_view(&self) -> u8 {
        self.right_key
    }

    pub open spec fn wf(&self) -> bool {
        &&& self.sprite_view().wf()
        &&& self.sprite_view().position_view() == start_position()
        &&& self.sprite_view().size_view() == start_size()
    }

    /// The player sprite at world position (30, 30) with size (13, 8), moved
    /// left and right by the keys with codes `left_key` and `right_key`.
    pub fn init(left_key: u8, right_key: u8) -> (r: Player)
        ensures
            r.wf(),
            r.left_key_view() == left_key,
            r.right_key_view() == right_key,
            r.sprite_view().offset_view() == (Vec2i { x: 0, y: 0 }),
            r.sprite_view().matrix() == translate_scale(start_position(), start_size()),
    {
        let pos = Vec2i { x: 3000, y: 3000 };
        let size = Vec2i { x: 1300, y: 800 };
        assert(coord_ok(pos) && size_ok(size));
        Player { sprite: Sprite::new(pos, size), left_key, right_key }
    }

    /// Moves the sprite by one frame's motion for the held direction keys.
    pub fn update(&mut self, input: &InputState)
        requires
            old(self).wf(),
            input.wf(),
        ensures
            final(self).wf(),
            final(self).left_key_view() == old(self).left_key_view(),
            final(self).right_key_view() == old(self).right_key_view(),
            final(self).sprite_view().offset_view() == frame_offset(
                old(self).sprite_view().offset_view(),
                input.pressed(old(self).right_key_view()),
                input.pressed(old(self).left_key_view()),
            ),
    {
        if input.is_key_pressed(self.right_key) {
            self.sprite.move_by(Vec2i { x: SPEED, y: 0 });
        }
        if input.is_key_pressed(self.left_key) {
            self.sprite.move_by(Vec2i { x: -SPEED, y: 0 });
        }
    }

    pub fn get_sprite(&self) -> (r: &Sprite)
        ensures
            *r == self.sprite_view(),
    {
        &self.sprite
    }
}

} // verus!
