//! Small value types shared by a window manager built on the focus ring.

use vstd::prelude::*;

verus! {

/// An X window ID.
pub type WinId = u32;

/// An x,y coordinate pair.
#[derive(Debug, Copy, Clone)]
pub struct Point {
    /// An absolute x coordinate relative to the root window.
    pub x: u32,
    /// An absolute y coordinate relative to the root window.
    pub y: u32,
}

impl Point {
    /// Create a new Point.
    pub fn new(x: u32, y: u32) -> (p: Point)
        ensures
            p.x == x,
            p.y == y,
    {
        Point { x, y }
    }
}

/// Increment / decrement a value.
#[derive(Debug, Copy, Clone)]
pub enum Change {
    /// Increase the value.
    More,
    /// Decrease the value, possibly clamping.
    Less,
}

/// X window border kind.
#[derive(Debug)]
pub enum Border {
    /// Window is urgent.
    Urgent,
    /// Window currently has focus.
    Focused,
    /// Window does not have focus.
    Unfocused,
}

/// An X window / screen position: top left corner + extent.
#[derive(Debug, PartialEq, Eq, Clone, Copy, Structural)]
pub struct Region {
    x: u32,
    y: u32,
    w: u32,
    h: u32,
}

impl Region {
    /// The component values (x, y, w, h) of this Region.
    pub closed spec fn spec_values(&self) -> (u32, u32, u32, u32) {
        (self.x, self.y, self.w, self.h)
    }

    /// Create a new Region.
    pub fn new(x: u32, y: u32, w: u32, h: u32) -> (r: Region)
        ensures
            r.spec_values() == (x, y, w, h),
    {
        Region { x, y, w, h }
    }

    /// Destructure this Region into its component values (x, y, w, h).
    pub fn values(&self) -> (v: (u32, u32, u32, u32))
        ensures
            v == self.spec_values(),
    {
        (self.x, self.y, self.w, self.h)
    }
}

/// A set of named color codes.
#[derive(Debug, Clone, Copy)]
pub struct ColorScheme {
    /// Background.
    pub bg: u32,
    /// Foreground color 1.
    pub fg_1: u32,
    /// Foreground color 2.
    pub fg_2: u32,
    /// Foreground color 3.
    pub fg_3: u32,
    /// Focused border color.
    pub highlight: u32,
    /// Urgent border color.
    pub urgent: u32,
}

/// An X key-code along with a modifier mask.
#[derive(Debug, PartialEq, Eq, Hash, Clone, Copy)]
pub struct KeyCode {
    /// Modifier key bit mask.
    pub mask: u16,
    /// X key code.
    pub code: u8,
}

} // verus!
