//! Events that a frontend sends to the components of the bar.

use vstd::prelude::*;

use crate::components::ComponentID;

verus! {

/// Event which can be transmitted to the components through `Bar::notify`.
#[derive(Copy, Clone, PartialEq, Eq, Hash, Debug, Ord, PartialOrd, Structural)]
pub enum Event {
    /// Mouse button action anywhere on the screen.
    Click(MouseButton, MouseButtonState, Point),
    /// Mouse motion anywhere on the screen.
    MouseMotion(Point),
    /// Makes a component aware of its position on the screen.
    PositionChange(ComponentPosition),
}

/// Button on the mouse.
#[derive(Copy, Clone, PartialEq, Eq, Hash, Debug, Ord, PartialOrd, Structural)]
pub enum MouseButton {
    Left,
    Center,
    Right,
    WheelUp,
    WheelDown,
}

/// Mouse button states.
#[derive(Copy, Clone, PartialEq, Eq, Hash, Debug, Ord, PartialOrd, Structural)]
pub enum MouseButtonState {
    Pressed,
    Released,
}

/// Exact position of a component on the screen.
#[derive(Copy, Clone, PartialEq, Eq, Hash, Debug, Ord, PartialOrd, Structural)]
pub struct ComponentPosition {
    pub comp_id: ComponentID,
    pub min_x: usize,
    pub max_x: usize,
    pub min_y: usize,
    pub max_y: usize,
}

/// Point on the screen.
#[derive(Copy, Clone, PartialEq, Eq, Hash, Debug, Ord, PartialOrd, Structural)]
pub struct Point {
    pub x: u32,
    pub y: u32,
}

} // verus!
