use vstd::prelude::*;

verus! {

/// The keys the game reads.
#[derive(Clone, Copy, PartialEq, Eq, Structural, Debug)]
pub enum Key {
    P,
    Space,
    Enter,
    Right,
    Left,
    Down,
    Up,
}

impl Key {
    /// The key's code in the windowing library's numbering.
    pub fn code(&self) -> (r: i32)
        ensures
            r == match *self {
                Key::P => 80i32,
                Key::Space => 32,
                Key::Enter => 257,
                Key::Right => 262,
                Key::Left => 263,
                Key::Down => 264,
                Key::Up => 265,
            },
    {
        match self {
            Key::P => 80,
            Key::Space => 32,
            Key::Enter => 257,
            Key::Right => 262,
            Key::Left => 263,
            Key::Down => 264,
            Key::Up => 265,
        }
    }
}

/// The keyboard as seen by one frame: keys held down, and keys that went
/// down on this frame.
#[derive(Clone, Copy, PartialEq, Eq, Structural, Debug)]
pub struct Input {
    /// Left arrow held.
    pub left: bool,
    /// Right arrow held.
    pub right: bool,
    /// Enter pressed on this frame.
    pub enter: bool,
    /// P pressed on this frame.
    pub pause: bool,
    /// Space pressed on this frame.
    pub serve: bool,
}

impl Input {
    /// No key held or pressed.
    pub fn none() -> (r: Input)
        ensures
            !r.left && !r.right && !r.enter && !r.pause && !r.serve,
    {
        Input { left: false, right: false, enter: false, pause: false, serve: false }
    }
}

} // verus!
