use vstd::prelude::*;

verus! {

/// The state of one mouse button: whether it is down in this frame and
/// whether it was down in the previous one.
#[derive(PartialEq, Eq, Structural, Clone, Copy, Debug)]
pub struct MouseButton {
    pub pressed: bool,
    pub old_pressed: bool,
}

impl Default for MouseButton {
    fn default() -> (b: MouseButton)
        ensures
            !b.pressed,
            !b.old_pressed,
    {
        MouseButton { pressed: false, old_pressed: false }
    }
}

impl MouseButton {
    /// One frame: the button's state moves to the previous frame and
    /// `pressed` becomes the new state.
    pub fn set_state(&mut self, pressed: bool)
        ensures
            final(self).pressed == pressed,
            final(self).old_pressed == old(self).pressed,
    {
        self.old_pressed = self.pressed;
        self.pressed = pressed;
    }

    pub fn is_pressed(&self) -> (r: bool)
        ensures
            r == self.pressed,
    {
        self.pressed
    }

    pub fn is_released(&self) -> (r: bool)
        ensures
            r == !self.pressed,
    {
        !self.pressed
    }

    pub fn is_just_pressed(&self) -> (r: bool)
        ensures
            r == (self.pressed && !self.old_pressed),
    {
        self.pressed && !self.old_pressed
    }

    pub fn is_just_released(&self) -> (r: bool)
        ensures
            r == (!self.pressed && self.old_pressed),
    {
        !self.pressed && self.old_pressed
    }
}

#[derive(PartialEq, Eq, Structural, Clone, Copy, Hash, Debug)]
pub enum MouseButtonId {
    Right,
    Left,
}

/// The pointer: its position in window pixels and its two buttons.
pub struct Mouse {
    pub x: i32,
    pub y: i32,
    pub left: MouseButton,
    pub right: MouseButton,
}

impl Mouse {
    pub open spec fn button(&self, id: MouseButtonId) -> MouseButton {
        match id {
            MouseButtonId::Left => self.left,
            MouseButtonId::Right => self.right,
        }
    }

    pub fn new() -> (m: Mouse)
        ensures
            m.x == 0,
            m.y == 0,
            !m.left.pressed && !m.left.old_pressed,
            !m.right.pressed && !m.right.old_pressed,
    {
        Mouse { x: 0, y: 0, left: MouseButton::default(), right: MouseButton::default() }
    }

    /// Refreshes the pointer from a raw snapshot of its position and buttons.
    pub fn update(&mut self, x: i32, y: i32, left_down: bool, right_down: bool)
        ensures
            final(self).x == x,
            final(self).y == y,
            final(self).left == (MouseButton { pressed: left_down, old_pressed: old(self).left.pressed }),
            final(self).right == (MouseButton {
                pressed: right_down,
                old_pressed: old(self).right.pressed,
            }),
    {
        self.x = x;
        self.y = y;
        self.left.set_state(left_down);
        self.right.set_state(right_down);
    }

    fn button_ref(&self, id: MouseButtonId) -> (r: &MouseButton)
        ensures
            *r == self.button(id),
    {
        match id {
            MouseButtonId::Left => &self.left,
            MouseButtonId::Right => &self.right,
        }
    }

    pub fn button_is_pressed(&self, id: MouseButtonId) -> (r: bool)
        ensures
            r == self.button(id).pressed,
    {
        self.button_ref(id).is_pressed()
    }

    pub fn button_is_released(&self, id: MouseButtonId) -> (r: bool)
        ensures
            r == !self.button(id).pressed,
    {
        self.button_ref(id).is_released()
    }

    pub fn button_is_just_released(&self, id: MouseButtonId) -> (r: bool)
        ensures
            r == (!self.button(id).pressed && self.button(id).old_pressed),
    {
        self.button_ref(id).is_just_released()
    }

    pub fn button_is_just_pressed(&self, id: MouseButtonId) -> (r: bool)
        ensures
            r == (self.button(id).pressed && !self.button(id).old_pressed),
    {
        self.button_ref(id).is_just_pressed()
    }
}

} // verus!
