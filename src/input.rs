//! Logical input: which buttons are held, and which were pressed since the
//! edges were last cleared.
use vstd::prelude::*;

verus! {

/// A logical button.
#[derive(Clone, Copy, Debug, PartialEq, Eq, Structural)]
pub enum Input {
    Left,
    Right,
    Jump,
    Shoot,
    Tool,
}

/// One flag per logical button.
#[derive(Clone, Copy, Debug, PartialEq, Eq, Structural)]
pub struct Buttons {
    pub left: bool,
    pub right: bool,
    pub jump: bool,
    pub shoot: bool,
    pub tool: bool,
}

impl Buttons {
    pub open spec fn has(self, b: Input) -> bool {
        match b {
            Input::Left => self.left,
            Input::Right => self.right,
            Input::Jump => self.jump,
            Input::Shoot => self.shoot,
            Input::Tool => self.tool,
        }
    }

    pub fn none() -> (r: Buttons)
        ensures
            forall|b: Input| !r.has(b),
    {
        Buttons { left: false, right: false, jump: false, shoot: false, tool: false }
    }

    pub fn contains(&self, b: Input) -> (r: bool)
        ensures
            r == self.has(b),
    {
        match b {
            Input::Left => self.left,
            Input::Right => self.right,
            Input::Jump => self.jump,
            Input::Shoot => self.shoot,
            Input::Tool => self.tool,
        }
    }

    pub fn set(&mut self, b: Input, v: bool)
        ensures
            final(self).has(b) == v,
            forall|c: Input| c != b ==> final(self).has(c) == old(self).has(c),
    {
        match b {
            Input::Left => self.left = v,
            Input::Right => self.right = v,
            Input::Jump => self.jump = v,
            Input::Shoot => self.shoot = v,
            Input::Tool => self.tool = v,
        }
    }
}

/// The input snapshot handed to the simulation each frame.
#[derive(Clone, Copy, Debug)]
pub struct InputState {
    /// Buttons held now.
    pub keys: Buttons,
    /// Buttons that went from released to held since the edges were cleared.
    pub just_pressed: Buttons,
}

/// The horizontal axis: -1 for Left, +1 for Right, 0 for both or neither.
pub open spec fn axis_of(keys: Buttons) -> int {
    (if keys.right { 1int } else { 0int }) - (if keys.left { 1int } else { 0int })
}

impl InputState {
    pub fn new() -> (r: InputState)
        ensures
            forall|b: Input| !r.keys.has(b) && !r.just_pressed.has(b),
    {
        InputState { keys: Buttons::none(), just_pressed: Buttons::none() }
    }

    /// A button went down: it is held, and pressed this frame unless it was
    /// already held.
    pub fn register_keypress(&mut self, b: Input)
        ensures
            final(self).keys.has(b),
            final(self).just_pressed.has(b) == (old(self).just_pressed.has(b) || !old(self).keys.has(b)),
            forall|c: Input| c != b ==> final(self).keys.has(c) == old(self).keys.has(c)
                && final(self).just_pressed.has(c) == old(self).just_pressed.has(c),
    {
        if !self.keys.contains(b) {
            self.just_pressed.set(b, true);
        }
        self.keys.set(b, true);
    }

    /// A button went up.
    pub fn unregister_keypress(&mut self, b: Input)
        ensures
            !final(self).keys.has(b),
            final(self).just_pressed == old(self).just_pressed,
            forall|c: Input| c != b ==> final(self).keys.has(c) == old(self).keys.has(c),
    {
        self.keys.set(b, false);
    }

    /// Forgets the rising edges, once per real frame.
    pub fn clear_edges(&mut self)
        ensures
            final(self).keys == old(self).keys,
            forall|c: Input| !final(self).just_pressed.has(c),
    {
        self.just_pressed = Buttons::none();
    }

    pub fn xaxis(&self) -> (r: i64)
        ensures
            r as int == axis_of(self.keys),
    {
        let mut a: i64 = 0;
        if self.keys.left {
            a = a - 1;
        }
        if self.keys.right {
            a = a + 1;
        }
        a
    }
}

} // verus!
