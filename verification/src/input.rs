//! The controls of the game and what the input devices report of them in
//! one frame.

use vstd::prelude::*;

verus! {

/// A logical control, whichever key or pad button it is bound to.
#[derive(Debug, Clone, Copy, Hash, PartialEq, Eq, Structural)]
pub enum Control {
    A,
    B,
    Up,
    Down,
    Left,
    Right,
    Start,
    Select,
}

/// A set of controls.
#[derive(Debug, Clone, Copy, PartialEq, Eq, Structural)]
pub struct ControlSet {
    pub a: bool,
    pub b: bool,
    pub up: bool,
    pub down: bool,
    pub left: bool,
    pub right: bool,
    pub start: bool,
    pub select: bool,
}

impl ControlSet {
    /// Whether `control` is in the set.
    pub open spec fn has(self, control: Control) -> bool {
        match control {
            Control::A => self.a,
            Control::B => self.b,
            Control::Up => self.up,
            Control::Down => self.down,
            Control::Left => self.left,
            Control::Right => self.right,
            Control::Start => self.start,
            Control::Select => self.select,
        }
    }

    /// The empty set.
    pub fn new() -> (set: ControlSet)
        ensures
            forall|c: Control| !set.has(c),
    {
        ControlSet {
            a: false,
            b: false,
            up: false,
            down: false,
            left: false,
            right: false,
            start: false,
            select: false,
        }
    }

    pub fn contains(&self, control: Control) -> (r: bool)
        ensures
            r == self.has(control),
    {
        match control {
            Control::A => self.a,
            Control::B => self.b,
            Control::Up => self.up,
            Control::Down => self.down,
            Control::Left => self.left,
            Control::Right => self.right,
            Control::Start => self.start,
            Control::Select => self.select,
        }
    }

    /// Adds `control` to the set.
    pub fn insert(&mut self, control: Control)
        ensures
            forall|c: Control| final(self).has(c) == (c == control || old(self).has(c)),
    {
        match control {
            Control::A => self.a = true,
            Control::B => self.b = true,
            Control::Up => self.up = true,
            Control::Down => self.down = true,
            Control::Left => self.left = true,
            Control::Right => self.right = true,
            Control::Start => self.start = true,
            Control::Select => self.select = true,
        }
    }
}

/// What one input device reports in a frame.
#[derive(Debug, Clone, Copy, PartialEq, Eq, Structural)]
pub struct DeviceState {
    /// The controls that went down in this frame.
    pub pressed: ControlSet,
    /// The controls that are held down.
    pub down: ControlSet,
}

impl DeviceState {
    /// A device on which nothing is touched.
    pub fn new() -> (device: DeviceState)
        ensures
            forall|c: Control| !device.pressed.has(c) && !device.down.has(c),
    {
        DeviceState { pressed: ControlSet::new(), down: ControlSet::new() }
    }
}

/// The input of one frame, as far as the interface logic reads it.
#[derive(Debug, Clone, Copy, PartialEq, Eq, Structural)]
pub struct Context {
    pub keyboard: DeviceState,
    pub gamepad: DeviceState,
}

impl Context {
    /// A frame without input.
    pub fn new() -> (ctx: Context)
        ensures
            forall|c: Control| !was_pressed(ctx, c) && !is_down(ctx, c),
    {
        Context { keyboard: DeviceState::new(), gamepad: DeviceState::new() }
    }
}

/// Whether any device reports that `control` went down in this frame.
pub open spec fn was_pressed(ctx: Context, control: Control) -> bool {
    ctx.keyboard.pressed.has(control) || ctx.gamepad.pressed.has(control)
}

/// Whether any device reports that `control` is held down.
pub open spec fn is_down(ctx: Context, control: Control) -> bool {
    ctx.keyboard.down.has(control) || ctx.gamepad.down.has(control)
}

/// Whether `control` was activated in this frame, on the keyboard or on the
/// gamepad.
pub fn pressed(ctx: &Context, control: Control) -> (r: bool)
    ensures
        r == was_pressed(*ctx, control),
{
    if ctx.keyboard.pressed.contains(control) {
        return true;
    }
    if ctx.gamepad.pressed.contains(control) {
        return true;
    }
    false
}

/// Whether `control` is held down, on the keyboard or on the gamepad.
pub fn down(ctx: &Context, control: Control) -> (r: bool)
    ensures
        r == is_down(*ctx, control),
{
    if ctx.keyboard.down.contains(control) {
        return true;
    }
    if ctx.gamepad.down.contains(control) {
        return true;
    }
    false
}

} // verus!
