//! The semantic event model handed to the application: immutable,
//! fully-owned, short-lived messages.

use vstd::prelude::*;
use crate::geometry::{Point, Size};
use crate::key::{Code, Mods, Sym};
use crate::mouse::Buttons;
use crate::window::WindowState;

verus! {

/// One semantic event: window lifecycle, geometry change, pointer
/// transition, pointer button or motion, or keyboard. Key presses carry
/// the text the key currently produces; releases always carry none.
#[derive(Debug)]
pub enum Event {
    Show,
    Hide,
    Expose,
    Close,
    Resize(Size),
    Move(Point),
    StateChange(WindowState),
    Enter(Point),
    Leave(Point),
    MousePress(Point, Buttons, Mods),
    MouseRelease(Point, Buttons, Mods),
    MouseMove(Point, Buttons, Mods),
    KeyPress(Sym, Code, String),
    KeyRelease(Sym, Code, String),
}

} // verus!
