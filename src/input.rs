use vstd::prelude::*;

verus! {

/// Number of distinct physical key codes tracked by [`InputState`].
pub const KEY_COUNT: usize = 256;

/// Pressed/released table keyed by physical key code.
pub struct InputState {
    keys: Vec<bool>,
}

impl InputState {
    /// The table as a sequence indexed by key code.
    pub closed spec fn view(&self) -> Seq<bool> {
        self.keys@
    }

    pub open spec fn wf(&self) -> bool {
        self.view().len() == KEY_COUNT
    }

    pub open spec fn pressed(&self, key: u8) -> bool {
        self.view()[key as int]
    }

    /// A table where every key is released.
    pub fn new() -> (r: InputState)
        ensures
            r.wf(),
            forall|k: u8| !#[trigger] r.pressed(k),
    {
        let mut keys: Vec<bool> = Vec::new();
        let mut i: usize = 0;
        while i < KEY_COUNT
            invariant
                i <= KEY_COUNT,
                keys@.len() == i,
                forall|j: int| 0 <= j < i ==> !#[trigger] keys@[j],
            decreases KEY_COUNT - i,
        {
            keys.push(false);
            i = i + 1;
        }
        InputState { keys }
    }

    /// Records a key-down (`pressed`) or key-up transition of `key`.
    pub fn register_key_state(&mut self, key: u8, pressed: bool)
        requires
            old(self).wf(),
        ensures
            final(self).wf(),
            final(self).view() == old(self).view().update(key as int, pressed),
    {
        self.keys.set(key as usize, pressed);
    }

    /// Whether `key` is currently held down.
    pub fn is_key_pressed(&self, key: u8) -> (r: bool)
        requires
            self.wf(),
        ensures
            r == self.pressed(key),
    {
        self.keys[key as usize]
    }
}

/// Reading a key right after recording a transition of it gives that
/// transition's state, and every other key keeps its state.
pub proof fn lemma_register_then_read(before: InputState, after: InputState, key: u8, pressed: bool)
    requires
        before.wf(),
        after.view() == before.view().update(key as int, pressed),
    ensures
        after.wf(),
        after.pressed(key) == pressed,
        forall|other: u8| other != key ==> #[trigger] after.pressed(other) == before.pressed(other),
{
}

} // verus!
