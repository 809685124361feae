//! Per-device keyboard state: resolves one raw key event at a time into a
//! semantic key event, and tracks the running modifier bitmask derived
//! from presses and releases of modifier-position keys. The live
//! modifier-resolution state is consulted through the `KeySource`
//! resolver the keyboard owns; the platform layer supplies the resolver
//! backed by the native keymap library, and translation is verified for
//! every answer a resolver can give.

use vstd::prelude::*;
use crate::event::Event;
use crate::key::{
    Code, Mods, MODS_LEFT_ALT, MODS_LEFT_CTRL, MODS_LEFT_SHIFT, MODS_LEFT_SUPER, MODS_RIGHT_ALT,
    MODS_RIGHT_CTRL, MODS_RIGHT_SHIFT, MODS_RIGHT_SUPER,
};
use crate::keymap::{keycode_from_raw, spec_keycode, sym_from_keysym};

verus! {

/// A keymap-state-change notification: the three modifier-group bitmasks
/// and the three layout-group indices for one input device.
#[derive(Copy, Clone, Debug)]
pub struct StateNotify {
    pub device_id: i32,
    pub base_mods: u32,
    pub latched_mods: u32,
    pub locked_mods: u32,
    pub base_group: u32,
    pub latched_group: u32,
    pub locked_group: u32,
}

/// What the live modifier-resolution state of one device can answer:
/// the active key symbol and produced text for a scan code, and the
/// application of a state-change notification. Nothing is assumed of an
/// implementation; key translation is verified for every answer.
pub trait KeySource {
    /// The raw protocol key symbol a scan code currently resolves to.
    fn lookup_sym(&self, code: u8) -> u32;

    /// The UTF-8 text a scan code currently produces; empty for keys that
    /// produce none.
    fn lookup_utf8(&self, code: u8) -> String;

    /// Applies the modifier-group masks and layout-group indices of a
    /// state-change notification to the live state.
    fn apply_state(
        &mut self,
        base_mods: u32,
        latched_mods: u32,
        locked_mods: u32,
        base_group: u32,
        latched_group: u32,
        locked_group: u32,
    );
}

/// The modifier bits a physical key position carries: the eight
/// modifier-position codes each set one key bit and one side bit; every
/// other position carries none.
pub open spec fn spec_mod_mask(c: Code) -> u8 {
    match c {
        Code::LeftCtrl => MODS_LEFT_CTRL,
        Code::LeftShift => MODS_LEFT_SHIFT,
        Code::LeftAlt => MODS_LEFT_ALT,
        Code::LeftSuper => MODS_LEFT_SUPER,
        Code::RightCtrl => MODS_RIGHT_CTRL,
        Code::RightShift => MODS_RIGHT_SHIFT,
        Code::RightAlt => MODS_RIGHT_ALT,
        Code::RightSuper => MODS_RIGHT_SUPER,
        _ => 0,
    }
}

fn mod_mask_for(c: Code) -> (m: u8)
    ensures
        m == spec_mod_mask(c),
{
    match c {
        Code::LeftCtrl => MODS_LEFT_CTRL,
        Code::LeftShift => MODS_LEFT_SHIFT,
        Code::LeftAlt => MODS_LEFT_ALT,
        Code::LeftSuper => MODS_LEFT_SUPER,
        Code::RightCtrl => MODS_RIGHT_CTRL,
        Code::RightShift => MODS_RIGHT_SHIFT,
        Code::RightAlt => MODS_RIGHT_ALT,
        Code::RightSuper => MODS_RIGHT_SUPER,
        _ => 0,
    }
}

/// The running modifier byte after one key event: a modifier-position key
/// sets its bits on press and clears them on release; any other key leaves
/// the byte unchanged.
pub open spec fn spec_mods_after(mods: u8, c: Code, press: bool) -> u8 {
    let m = spec_mod_mask(c);
    if m == 0 {
        mods
    } else if press {
        mods | m
    } else {
        mods & !m
    }
}

/// One bound input device: its resolver, its stable device identifier and
/// the running modifier cache. The cache is mutated only by processing
/// press or release of modifier-position keys. Readers and the writer of
/// the live resolver state are serialized by the exclusive borrows the
/// mutating methods take: no call-site discipline beyond the borrow
/// checker is needed, and a caller sharing this component across threads
/// must wrap it in a lock as a whole.
pub struct Keyboard<R> {
    source: R,
    device_id: i32,
    mods: u8,
}

impl<R: KeySource> Keyboard<R> {
    /// The running modifier byte, for specification purposes.
    pub closed spec fn mods_bits(&self) -> u8 {
        self.mods
    }

    /// The bound device identifier, for specification purposes.
    pub closed spec fn spec_device(&self) -> i32 {
        self.device_id
    }

    /// Binds a freshly constructed resolver to a device; the modifier
    /// cache starts empty.
    pub fn new(source: R, device_id: i32) -> (k: Keyboard<R>)
        ensures
            k.mods_bits() == 0,
            k.spec_device() == device_id,
    {
        Keyboard { source, device_id, mods: 0 }
    }

    /// Translates one raw key event. The physical code comes from the
    /// dense scan-code table; the symbol is whatever the resolver answers,
    /// run through the verified symbol map; the modifier cache is updated
    /// exactly when the physical code is a modifier position. Press events
    /// carry the resolved text; release events always carry none. Never
    /// fails: unknown codes and symbols degrade to `Unknown`.
    pub fn make_key_event(&mut self, code: u8, press: bool) -> (ev: Event)
        ensures
            final(self).mods_bits() == spec_mods_after(old(self).mods_bits(), spec_keycode(code), press),
            final(self).spec_device() == old(self).spec_device(),
            press ==> ev is KeyPress,
            !press ==> ev is KeyRelease,
            ev matches Event::KeyPress(_, c, _) ==> c == spec_keycode(code),
            ev matches Event::KeyRelease(_, c, t) ==> c == spec_keycode(code) && t@ == Seq::<char>::empty(),
    {
        let kc = keycode_from_raw(code);
        let mod_mask = mod_mask_for(kc);
        if mod_mask != 0 {
            if press {
                self.mods = self.mods | mod_mask;
            } else {
                self.mods = self.mods & !mod_mask;
            }
        }
        let raw_sym = self.source.lookup_sym(code);
        let sym = sym_from_keysym(raw_sym);
        if press {
            let text = self.source.lookup_utf8(code);
            Event::KeyPress(sym, kc, text)
        } else {
            Event::KeyRelease(sym, kc, String::new())
        }
    }

    /// The cached running modifier snapshot; no protocol interaction.
    pub fn get_mods(&self) -> (m: Mods)
        ensures
            m == Mods::spec_new(self.mods_bits()),
    {
        Mods::new(self.mods)
    }

    /// Applies a state-change notification to the live resolver state.
    /// The modifier cache is not touched: it tracks key events only.
    pub fn update_state(&mut self, n: &StateNotify)
        ensures
            final(self).mods_bits() == old(self).mods_bits(),
            final(self).spec_device() == old(self).spec_device(),
    {
        self.source.apply_state(
            n.base_mods,
            n.latched_mods,
            n.locked_mods,
            n.base_group,
            n.latched_group,
            n.locked_group,
        );
    }

    pub fn get_device_id(&self) -> (d: i32)
        ensures
            d == self.spec_device(),
    {
        self.device_id
    }
}

/// Modifier-cache round trip: pressing left-ctrl and then releasing it
/// returns the running modifier byte to its pre-press value, provided the
/// left-ctrl bits were clear before the press; a press without the
/// matching release leaves the bits set.
pub proof fn lemma_mods_cache_roundtrip(mods: u8)
    requires
        mods & MODS_LEFT_CTRL == 0,
    ensures
        spec_mods_after(spec_mods_after(mods, Code::LeftCtrl, true), Code::LeftCtrl, false) == mods,
        spec_mods_after(mods, Code::LeftCtrl, true) & MODS_LEFT_CTRL == MODS_LEFT_CTRL,
{
    assert(MODS_LEFT_CTRL == 0x21) by (bit_vector);
    assert((mods | 0x21) & !0x21 == mods) by (bit_vector)
        requires
            mods & 0x21 == 0,
    ;
    assert((mods | 0x21) & 0x21 == 0x21) by (bit_vector);
}

} // verus!
