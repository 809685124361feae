use toy_xcb::atom::{Atom, AtomTable};
use toy_xcb::event::Event;
use toy_xcb::geometry::Point;
use toy_xcb::key::{Code, Sym, MODS_CTRL_MASK, MODS_LEFT_CTRL, MODS_LEFT_SHIFT};
use toy_xcb::keyboard::{KeySource, Keyboard, StateNotify};
use toy_xcb::mouse::LEFT;
use toy_xcb::window::{button_from_detail, translate_buttons, RawEvent, Window};
use toy_xcb::Error;

/// A scripted resolver standing in for the live keymap state: answers a
/// fixed symbol and text for every scan code and accepts state updates.
struct FakeSource {
    sym: u32,
    text: &'static str,
}

impl KeySource for FakeSource {
    fn lookup_sym(&self, _code: u8) -> u32 {
        self.sym
    }

    fn lookup_utf8(&self, _code: u8) -> String {
        String::from(self.text)
    }

    fn apply_state(
        &mut self,
        _base_mods: u32,
        _latched_mods: u32,
        _locked_mods: u32,
        _base_group: u32,
        _latched_group: u32,
        _locked_group: u32,
    ) {
    }
}

fn fake_keyboard(sym: u32, text: &'static str) -> Keyboard<FakeSource> {
    Keyboard::new(
        FakeSource { sym, text },
        3,
    )
}

fn fake_window(sym: u32, text: &'static str) -> Window<FakeSource> {
    let handles: Vec<u32> = (1..=21).collect();
    let atoms = AtomTable::new(handles).unwrap();
    Window::from_parts(atoms, fake_keyboard(sym, text), 77, 0, String::from("hello"))
}

fn state_notify(device_id: i32) -> StateNotify {
    StateNotify {
        device_id,
        base_mods: 4,
        latched_mods: 0,
        locked_mods: 2,
        base_group: 0,
        latched_group: 0,
        locked_group: 1,
    }
}

#[test]
fn key_press_resolves_code_sym_and_text() {
    // scan code 24 is the Q position; the fake resolver reports lowercase q
    let mut kbd = fake_keyboard(0x71, "q");
    let ev = kbd.make_key_event(24, true);
    match ev {
        Event::KeyPress(sym, code, text) => {
            assert_eq!(Sym::Q, sym);
            assert_eq!(Code::Q, code);
            assert_eq!("q", text);
        }
        other => panic!("expected a key press, got {:?}", other),
    }
    assert_eq!(0, kbd.get_mods().fields());
}

#[test]
fn key_release_has_no_text() {
    let mut kbd = fake_keyboard(0x71, "q");
    let ev = kbd.make_key_event(24, false);
    match ev {
        Event::KeyRelease(sym, code, text) => {
            assert_eq!(Sym::Q, sym);
            assert_eq!(Code::Q, code);
            assert_eq!("", text);
        }
        other => panic!("expected a key release, got {:?}", other),
    }
}

#[test]
fn mods_cache_roundtrip() {
    // left-ctrl press then release returns the cache to its pre-press value
    let mut kbd = fake_keyboard(0xffe3, "");
    assert_eq!(0, kbd.get_mods().fields());

    let _ = kbd.make_key_event(37, true);
    assert_eq!(MODS_LEFT_CTRL, kbd.get_mods().fields());
    assert!(kbd.get_mods().has_ctrl());
    assert!(kbd.get_mods().is_left());

    let _ = kbd.make_key_event(37, false);
    assert_eq!(0, kbd.get_mods().fields());
}

#[test]
fn mods_cache_press_without_release_stays() {
    let mut kbd = fake_keyboard(0xffe3, "");
    let _ = kbd.make_key_event(37, true);
    // a non-modifier key in between leaves the bit set
    let _ = kbd.make_key_event(24, true);
    let _ = kbd.make_key_event(24, false);
    assert_eq!(MODS_LEFT_CTRL, kbd.get_mods().fields());
}

#[test]
fn mods_cache_two_modifiers() {
    let mut kbd = fake_keyboard(0xffe3, "");
    let _ = kbd.make_key_event(37, true); // left ctrl down
    let _ = kbd.make_key_event(50, true); // left shift down
    assert_eq!(MODS_LEFT_CTRL | MODS_LEFT_SHIFT, kbd.get_mods().fields());
    let _ = kbd.make_key_event(50, false); // left shift up
    // the side bit is shared: releasing left shift clears it, and only
    // the ctrl key bit remains
    assert_eq!(MODS_CTRL_MASK, kbd.get_mods().fields());
}

#[test]
fn close_handshake_emits_close_once() {
    // WM_PROTOCOLS is the second atom (handle 2), WM_DELETE_WINDOW the
    // third (handle 3) in the fake table
    let mut w = fake_window(0, "");
    let r = w.translate_event(RawEvent::ClientMessage {
        msg_type: 2,
        data0: 3,
    });
    assert!(matches!(r, Some(Event::Close)));
}

#[test]
fn client_message_mismatch_is_consumed() {
    let mut w = fake_window(0, "");
    // right type, wrong data word
    assert!(w
        .translate_event(RawEvent::ClientMessage {
            msg_type: 2,
            data0: 4,
        })
        .is_none());
    // wrong type, right data word
    assert!(w
        .translate_event(RawEvent::ClientMessage {
            msg_type: 1,
            data0: 3,
        })
        .is_none());
}

#[test]
fn state_notify_other_device_changes_nothing() {
    let mut w = fake_window(0xffe3, "");
    // press left ctrl so the cache holds something observable
    let _ = w.translate_event(RawEvent::KeyPress { detail: 37 });

    // a notification for a different device than the bound one
    let r = w.translate_event(RawEvent::StateNotify(state_notify(99)));
    assert!(r.is_none());

    // the running mods are unchanged, observed through a motion event
    let r = w.translate_event(RawEvent::Motion {
        x: 1,
        y: 2,
        state: 0,
    });
    match r {
        Some(Event::MouseMove(_, _, mods)) => assert_eq!(MODS_LEFT_CTRL, mods.fields()),
        other => panic!("expected a mouse move, got {:?}", other),
    }
}

#[test]
fn state_notify_bound_device_is_consumed() {
    let mut w = fake_window(0, "");
    let r = w.translate_event(RawEvent::StateNotify(state_notify(3)));
    assert!(r.is_none());
}

#[test]
fn wait_event_absorbs_consumed_events() {
    // of three raw events the first two are internally consumed and the
    // third yields the single semantic event the caller observes
    let mut w = fake_window(0, "");
    let raws = vec![
        RawEvent::StateNotify(state_notify(99)),
        RawEvent::Other,
        RawEvent::ButtonPress {
            detail: 1,
            x: 10,
            y: 20,
        },
    ];
    let mut produced = Vec::new();
    for raw in raws {
        if let Some(ev) = w.translate_event(raw) {
            produced.push(ev);
        }
    }
    assert_eq!(1, produced.len());
    match &produced[0] {
        Event::MousePress(p, b, m) => {
            assert_eq!(Point::new(10, 20), *p);
            assert_eq!(LEFT, b.fields());
            assert_eq!(0, m.fields());
        }
        other => panic!("expected a mouse press, got {:?}", other),
    }
}

#[test]
fn motion_decodes_carried_mask() {
    let mut w = fake_window(0, "");
    let r = w.translate_event(RawEvent::Motion {
        x: -4,
        y: 7,
        state: 0x100 | 0x400,
    });
    match r {
        Some(Event::MouseMove(p, b, _)) => {
            assert_eq!(Point::new(-4, 7), p);
            assert!(b.has_left());
            assert!(b.has_right());
            assert!(!b.has_middle());
        }
        other => panic!("expected a mouse move, got {:?}", other),
    }
}

#[test]
fn button_decodings_are_independent() {
    // press/release identity comes from the detail index
    assert_eq!(1, button_from_detail(1).fields());
    assert_eq!(2, button_from_detail(2).fields());
    assert_eq!(4, button_from_detail(3).fields());
    assert_eq!(0, button_from_detail(4).fields());
    assert_eq!(0, button_from_detail(0).fields());

    // motion state comes from the carried mask bits
    assert_eq!(0, translate_buttons(0).fields());
    assert_eq!(1, translate_buttons(0x100).fields());
    assert_eq!(2, translate_buttons(0x200).fields());
    assert_eq!(4, translate_buttons(0x400).fields());
    assert_eq!(7, translate_buttons(0x700).fields());
    // unrelated mask bits are ignored
    assert_eq!(0, translate_buttons(0x00ff).fields());
}

#[test]
fn enter_and_leave_carry_position_only() {
    let mut w = fake_window(0, "");
    match w.translate_event(RawEvent::Enter { x: 5, y: 6 }) {
        Some(Event::Enter(p)) => assert_eq!(Point::new(5, 6), p),
        other => panic!("expected enter, got {:?}", other),
    }
    match w.translate_event(RawEvent::Leave { x: 8, y: 9 }) {
        Some(Event::Leave(p)) => assert_eq!(Point::new(8, 9), p),
        other => panic!("expected leave, got {:?}", other),
    }
}

#[test]
fn button_release_carries_cached_mods() {
    let mut w = fake_window(0xffe3, "");
    let _ = w.translate_event(RawEvent::KeyPress { detail: 37 });
    match w.translate_event(RawEvent::ButtonRelease {
        detail: 3,
        x: 0,
        y: 0,
    }) {
        Some(Event::MouseRelease(_, b, m)) => {
            assert_eq!(4, b.fields());
            assert_eq!(MODS_LEFT_CTRL, m.fields());
        }
        other => panic!("expected a mouse release, got {:?}", other),
    }
}

#[test]
fn title_and_screen() {
    let mut w = fake_window(0, "");
    assert_eq!("hello", w.get_title());
    assert_eq!(0, w.default_screen());

    // setting the same title is a no-op
    assert!(!w.set_title(String::from("hello")));
    assert_eq!("hello", w.get_title());

    // a new title is recorded and must be re-issued
    assert!(w.set_title(String::from("world")));
    assert_eq!("world", w.get_title());
}

#[test]
fn atom_table_construction() {
    let atoms = AtomTable::new((1..=21).collect::<Vec<u32>>()).unwrap();
    assert_eq!(1, atoms.handle_of(Atom::UTF8_STRING));
    assert_eq!(2, atoms.handle_of(Atom::WM_PROTOCOLS));
    assert_eq!(3, atoms.handle_of(Atom::WM_DELETE_WINDOW));
    assert_eq!(21, atoms.handle_of(Atom::_NET_WM_NAME));

    // an incomplete reply set is fatal
    assert!(matches!(
        AtomTable::new(vec![1, 2, 3]),
        Err(Error::MissingAtom)
    ));
    assert!(matches!(
        AtomTable::new((1..=22).collect::<Vec<u32>>()),
        Err(Error::MissingAtom)
    ));
}

#[test]
fn atom_names_and_order() {
    assert_eq!(21, Atom::num_variants());
    let vs = Atom::variants();
    assert_eq!(21, vs.len());
    assert_eq!(Atom::UTF8_STRING, vs[0]);
    assert_eq!(Atom::WM_PROTOCOLS, vs[1]);
    assert_eq!(Atom::WM_DELETE_WINDOW, vs[2]);
    assert_eq!(Atom::_NET_WM_NAME, vs[20]);
    for (i, a) in vs.iter().enumerate() {
        assert_eq!(i, a.index());
    }
    assert_eq!("WM_PROTOCOLS", Atom::WM_PROTOCOLS.name());
    assert_eq!("_NET_WM_STATE", Atom::_NET_WM_STATE.name());
    assert_eq!("UTF8_STRING", Atom::UTF8_STRING.name());
}

#[test]
fn state_notify_matching_device_reaches_resolver() {
    // at the keyboard level, a notification is applied to the resolver and
    // leaves the running mods alone
    let mut kbd = fake_keyboard(0, "");
    kbd.update_state(&state_notify(3));
    assert_eq!(0, kbd.get_mods().fields());
    assert_eq!(3, kbd.get_device_id());
}
