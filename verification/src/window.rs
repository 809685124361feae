//! The window event translator: a state machine over the raw protocol
//! event stream that produces the semantic event stream. Key events are
//! routed through the keyboard state, pointer events through the button
//! translators, the close-window handshake is recognized through the
//! symbol table, and keymap-state notifications update the keyboard
//! without surfacing an event.

use vstd::prelude::*;
use crate::atom::{Atom, AtomTable};
use crate::event::Event;
use crate::geometry::Point;
use crate::key::Mods;
use crate::keyboard::{KeySource, Keyboard, StateNotify};
use crate::keymap::spec_keycode;
use crate::mouse::{Buttons, LEFT, MIDDLE, RIGHT};

verus! {

/// The window's display state as the window manager reports it.
#[derive(Copy, Clone, PartialEq, Eq, Structural, Debug)]
pub enum WindowState {
    Normal,
    Minimized,
    Maximized,
    Fullscreen,
    Hidden,
}

/// One raw protocol event, reduced to the plain values the translator
/// reads. The platform layer fills this from the wire representation.
#[derive(Copy, Clone, Debug)]
pub enum RawEvent {
    /// A key was pressed; `detail` is the raw scan code.
    KeyPress { detail: u8 },
    /// A key was released; `detail` is the raw scan code.
    KeyRelease { detail: u8 },
    /// A pointer button went down; `detail` names the button.
    ButtonPress { detail: u8, x: i16, y: i16 },
    /// A pointer button came up; `detail` names the button.
    ButtonRelease { detail: u8, x: i16, y: i16 },
    /// The pointer entered the window.
    Enter { x: i16, y: i16 },
    /// The pointer left the window.
    Leave { x: i16, y: i16 },
    /// The pointer moved; `state` is the held-button mask carried on the
    /// event itself.
    Motion { x: i16, y: i16, state: u16 },
    /// A client message; `msg_type` is its protocol-type symbol handle and
    /// `data0` its first 32-bit data word.
    ClientMessage { msg_type: u32, data0: u32 },
    /// A keymap-state-change notification.
    StateNotify(StateNotify),
    /// Any raw event kind the translator does not recognize.
    Other,
}

/// The held-button mask of a motion event decoded into button bits.
pub open spec fn spec_buttons_mask(state: u16) -> u8 {
    ((if state & 0x100 != 0 {
        LEFT
    } else {
        0
    }) | (if state & 0x200 != 0 {
        MIDDLE
    } else {
        0
    })) | (if state & 0x400 != 0 {
        RIGHT
    } else {
        0
    })
}

/// Decodes the held-button mask carried by a pointer-motion event. The
/// protocol reports the three buttons in three adjacent mask bits.
pub fn translate_buttons(state: u16) -> (b: Buttons)
    ensures
        b.bits() == spec_buttons_mask(state),
{
    let l: u8 = if state & 0x100 != 0 {
        LEFT
    } else {
        0
    };
    let m: u8 = if state & 0x200 != 0 {
        MIDDLE
    } else {
        0
    };
    let r: u8 = if state & 0x400 != 0 {
        RIGHT
    } else {
        0
    };
    let f: u8 = l | m | r;
    proof {
        assert((l | m | r) & 7 == (l | m | r)) by (bit_vector)
            requires
                (l == 1 || l == 0) && (m == 2 || m == 0) && (r == 4 || r == 0),
        ;
    }
    Buttons::new(f)
}

/// The button a press or release event names in its detail field.
pub open spec fn spec_button_detail(detail: u8) -> u8 {
    if detail == 1 {
        LEFT
    } else if detail == 2 {
        MIDDLE
    } else if detail == 3 {
        RIGHT
    } else {
        0
    }
}

/// Decodes the single button index carried by a press or release event.
/// This decoding is deliberately independent of the motion-event mask
/// decoding: the source data differs in shape.
pub fn button_from_detail(detail: u8) -> (b: Buttons)
    ensures
        b.bits() == spec_button_detail(detail),
{
    if detail == 1 {
        Buttons::left()
    } else if detail == 2 {
        Buttons::middle()
    } else if detail == 3 {
        Buttons::right()
    } else {
        Buttons::none()
    }
}

/// One window bound to one input device: the interned symbol table, the
/// keyboard state, the protocol window handle, the default screen index
/// and the current title. The transport connection itself lives with the
/// platform layer, which feeds `translate_event` one raw event at a time.
pub struct Window<R> {
    atoms: AtomTable,
    kbd: Keyboard<R>,
    win: u32,
    def_screen: usize,
    title: String,
}

impl<R: KeySource> Window<R> {
    /// The symbol table, for specification purposes.
    pub closed spec fn spec_atoms(&self) -> AtomTable {
        self.atoms
    }

    /// The keyboard state, for specification purposes.
    pub closed spec fn spec_kbd(&self) -> Keyboard<R> {
        self.kbd
    }

    /// The protocol window handle, for specification purposes.
    pub closed spec fn spec_win(&self) -> u32 {
        self.win
    }

    /// The default screen index, for specification purposes.
    pub closed spec fn spec_def_screen(&self) -> usize {
        self.def_screen
    }

    /// The current title, for specification purposes.
    pub closed spec fn spec_title(&self) -> Seq<char> {
        self.title@
    }

    /// The symbol table is complete.
    pub open spec fn wf(&self) -> bool {
        self.spec_atoms().wf()
    }

    /// A client message opens the close-window handshake exactly when its
    /// protocol type is the interned protocols symbol and its first data
    /// word is the interned delete-window handle.
    pub open spec fn spec_is_close(&self, msg_type: u32, data0: u32) -> bool {
        msg_type == self.spec_atoms().spec_handle(Atom::WM_PROTOCOLS) && data0
            == self.spec_atoms().spec_handle(Atom::WM_DELETE_WINDOW)
    }

    /// Assembles a window once the platform layer has connected, interned
    /// the symbols, bound the keyboard and created the protocol window.
    pub fn from_parts(
        atoms: AtomTable,
        kbd: Keyboard<R>,
        win: u32,
        def_screen: usize,
        title: String,
    ) -> (w: Window<R>)
        requires
            atoms.wf(),
        ensures
            w.wf(),
            w.spec_atoms() == atoms,
            w.spec_kbd() == kbd,
            w.spec_win() == win,
            w.spec_def_screen() == def_screen,
            w.spec_title() == title@,
    {
        Window { atoms, kbd, win, def_screen, title }
    }

    /// Translates one raw protocol event into at most one semantic event.
    /// Key events go through the keyboard state and update the running
    /// modifier cache; pointer events pair position with decoded buttons
    /// and the cached modifiers; a matching client message becomes
    /// `Close`; a state notification for the bound device updates the
    /// keyboard and surfaces nothing; everything else surfaces nothing.
    pub fn translate_event(&mut self, raw: RawEvent) -> (r: Option<Event>)
        requires
            old(self).wf(),
        ensures
            final(self).wf(),
            final(self).spec_atoms() == old(self).spec_atoms(),
            final(self).spec_win() == old(self).spec_win(),
            final(self).spec_def_screen() == old(self).spec_def_screen(),
            final(self).spec_title() == old(self).spec_title(),
            final(self).spec_kbd().spec_device() == old(self).spec_kbd().spec_device(),
            match raw {
                RawEvent::KeyPress { detail } => {
                    &&& r matches Some(ev)
                    &&& ev is KeyPress
                    &&& (ev matches Event::KeyPress(_, c, _) ==> c == spec_keycode(detail))
                    &&& final(self).spec_kbd().mods_bits() == crate::keyboard::spec_mods_after(
                        old(self).spec_kbd().mods_bits(),
                        spec_keycode(detail),
                        true,
                    )
                },
                RawEvent::KeyRelease { detail } => {
                    &&& r matches Some(ev)
                    &&& ev is KeyRelease
                    &&& (ev matches Event::KeyRelease(_, c, t) ==> c == spec_keycode(detail) && t@
                        == Seq::<char>::empty())
                    &&& final(self).spec_kbd().mods_bits() == crate::keyboard::spec_mods_after(
                        old(self).spec_kbd().mods_bits(),
                        spec_keycode(detail),
                        false,
                    )
                },
                RawEvent::ButtonPress { detail, x, y } => {
                    &&& *final(self) == *old(self)
                    &&& r matches Some(Event::MousePress(p, b, m))
                    &&& p == (Point { x: x as i32, y: y as i32 })
                    &&& b.bits() == spec_button_detail(detail)
                    &&& m == Mods::spec_new(old(self).spec_kbd().mods_bits())
                },
                RawEvent::ButtonRelease { detail, x, y } => {
                    &&& *final(self) == *old(self)
                    &&& r matches Some(Event::MouseRelease(p, b, m))
                    &&& p == (Point { x: x as i32, y: y as i32 })
                    &&& b.bits() == spec_button_detail(detail)
                    &&& m == Mods::spec_new(old(self).spec_kbd().mods_bits())
                },
                RawEvent::Enter { x, y } => {
                    &&& *final(self) == *old(self)
                    &&& r matches Some(Event::Enter(p))
                    &&& p == (Point { x: x as i32, y: y as i32 })
                },
                RawEvent::Leave { x, y } => {
                    &&& *final(self) == *old(self)
                    &&& r matches Some(Event::Leave(p))
                    &&& p == (Point { x: x as i32, y: y as i32 })
                },
                RawEvent::Motion { x, y, state } => {
                    &&& *final(self) == *old(self)
                    &&& r matches Some(Event::MouseMove(p, b, m))
                    &&& p == (Point { x: x as i32, y: y as i32 })
                    &&& b.bits() == spec_buttons_mask(state)
                    &&& m == Mods::spec_new(old(self).spec_kbd().mods_bits())
                },
                RawEvent::ClientMessage { msg_type, data0 } => {
                    &&& *final(self) == *old(self)
                    &&& (old(self).spec_is_close(msg_type, data0) ==> r matches Some(
                        Event::Close,
                    ))
                    &&& (!old(self).spec_is_close(msg_type, data0) ==> r is None)
                },
                RawEvent::StateNotify(n) => {
                    &&& r is None
                    &&& final(self).spec_kbd().mods_bits() == old(self).spec_kbd().mods_bits()
                },
                RawEvent::Other => {
                    &&& *final(self) == *old(self)
                    &&& r is None
                },
            },
    {
        match raw {
            RawEvent::KeyPress { detail } => Some(self.kbd.make_key_event(detail, true)),
            RawEvent::KeyRelease { detail } => Some(self.kbd.make_key_event(detail, false)),
            RawEvent::ButtonPress { detail, x, y } => {
                let p = Point::new(x as i32, y as i32);
                Some(Event::MousePress(p, button_from_detail(detail), self.kbd.get_mods()))
            },
            RawEvent::ButtonRelease { detail, x, y } => {
                let p = Point::new(x as i32, y as i32);
                Some(Event::MouseRelease(p, button_from_detail(detail), self.kbd.get_mods()))
            },
            RawEvent::Enter { x, y } => Some(Event::Enter(Point::new(x as i32, y as i32))),
            RawEvent::Leave { x, y } => Some(Event::Leave(Point::new(x as i32, y as i32))),
            RawEvent::Motion { x, y, state } => {
                let p = Point::new(x as i32, y as i32);
                Some(Event::MouseMove(p, translate_buttons(state), self.kbd.get_mods()))
            },
            RawEvent::ClientMessage { msg_type, data0 } => {
                if msg_type == self.atoms.handle_of(Atom::WM_PROTOCOLS) && data0
                    == self.atoms.handle_of(Atom::WM_DELETE_WINDOW) {
                    Some(Event::Close)
                } else {
                    None
                }
            },
            RawEvent::StateNotify(n) => {
                if n.device_id == self.kbd.get_device_id() {
                    self.kbd.update_state(&n);
                }
                None
            },
            RawEvent::Other => None,
        }
    }

    pub fn get_title(&self) -> (t: String)
        ensures
            t@ == self.spec_title(),
    {
        self.title.clone()
    }

    /// Records a new title. A no-op when the new value equals the current
    /// one; otherwise the stored title changes and the caller must
    /// re-issue the title property on the connection, which the returned
    /// flag reports.
    pub fn set_title(&mut self, title: String) -> (changed: bool)
        ensures
            changed == (title@ != old(self).spec_title()),
            final(self).spec_title() == title@,
            final(self).spec_atoms() == old(self).spec_atoms(),
            final(self).spec_kbd() == old(self).spec_kbd(),
            final(self).spec_win() == old(self).spec_win(),
            final(self).spec_def_screen() == old(self).spec_def_screen(),
    {
        if title != self.title {
            self.title = title;
            true
        } else {
            false
        }
    }

    pub fn default_screen(&self) -> (s: usize)
        ensures
            s == self.spec_def_screen(),
    {
        self.def_screen
    }
}

} // verus!
