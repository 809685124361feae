use toy_xcb::key::{
    Code, Mods, Sym, MODS_ALT_MASK, MODS_CTRL_MASK, MODS_DEFINED_MASK, MODS_LEFT_MASK,
    MODS_RIGHT_MASK, MODS_SHIFT_MASK,
};
use toy_xcb::keymap::{build_keycode_table, keycode_from_raw, sym_from_keysym};

#[test]
fn keycode_table_total() {
    // every raw scan code resolves, to a named code or Unknown
    let table = build_keycode_table();
    assert_eq!(256, table.len());
    for raw in 0..=255u8 {
        assert_eq!(table[raw as usize], keycode_from_raw(raw));
    }
    assert_eq!(Code::Unknown, keycode_from_raw(0));
    assert_eq!(Code::Escape, keycode_from_raw(9));
    assert_eq!(Code::Q, keycode_from_raw(24));
    assert_eq!(Code::LeftCtrl, keycode_from_raw(37));
    assert_eq!(Code::RightShift, keycode_from_raw(62));
    assert_eq!(Code::F1, keycode_from_raw(67));
    assert_eq!(Code::KP_Period, keycode_from_raw(91));
    assert_eq!(Code::Delete, keycode_from_raw(119));
    assert_eq!(Code::LANG1, keycode_from_raw(130));
    assert_eq!(Code::Unknown, keycode_from_raw(255));
}

#[test]
fn keysym_case_folding() {
    // each lowercase Latin-1 letter resolves as its uppercase counterpart
    for i in 0..26u32 {
        let lower = 0x61 + i;
        let upper = 0x41 + i;
        assert_eq!(sym_from_keysym(upper), sym_from_keysym(lower));
    }
    assert_eq!(Sym::A, sym_from_keysym(0x61));
    assert_eq!(Sym::Z, sym_from_keysym(0x7a));
}

#[test]
fn keysym_latin1() {
    assert_eq!(Sym::space, sym_from_keysym(0x20));
    assert_eq!(Sym::exclam, sym_from_keysym(0x21));
    assert_eq!(Sym::D0, sym_from_keysym(0x30));
    assert_eq!(Sym::D9, sym_from_keysym(0x39));
    assert_eq!(Sym::at, sym_from_keysym(0x40));
    assert_eq!(Sym::grave, sym_from_keysym(0x60));
    assert_eq!(Sym::asciitilde, sym_from_keysym(0x7e));
    // the delete position has no printable symbol
    assert_eq!(Sym::Unknown, sym_from_keysym(0x7f));
    // below the printable range nothing is mapped
    assert_eq!(Sym::Unknown, sym_from_keysym(0x1f));
}

#[test]
fn keysym_function_keys() {
    // the contiguous raw range resolves to F1..F24 exactly in order
    let expected = [
        Sym::F1,
        Sym::F2,
        Sym::F3,
        Sym::F4,
        Sym::F5,
        Sym::F6,
        Sym::F7,
        Sym::F8,
        Sym::F9,
        Sym::F10,
        Sym::F11,
        Sym::F12,
        Sym::F13,
        Sym::F14,
        Sym::F15,
        Sym::F16,
        Sym::F17,
        Sym::F18,
        Sym::F19,
        Sym::F20,
        Sym::F21,
        Sym::F22,
        Sym::F23,
        Sym::F24,
    ];
    for (i, e) in expected.iter().enumerate() {
        assert_eq!(*e, sym_from_keysym(0xffbe + i as u32));
    }
    // the neighbours of the range fall back to the sparse table
    assert_ne!(Sym::F1, sym_from_keysym(0xffbd));
    assert_ne!(Sym::F24, sym_from_keysym(0xffd6));
}

#[test]
fn keysym_sparse_table() {
    assert_eq!(Sym::Escape, sym_from_keysym(0xff1b));
    assert_eq!(Sym::Backspace, sym_from_keysym(0xff08));
    assert_eq!(Sym::Return, sym_from_keysym(0xff0d));
    assert_eq!(Sym::LeftShift, sym_from_keysym(0xffe1));
    assert_eq!(Sym::RightCtrl, sym_from_keysym(0xffe4));
    // vendor-specific and legacy hardcoded values
    assert_eq!(Sym::SysRq, sym_from_keysym(0x1005FF60));
    assert_eq!(Sym::SysRq, sym_from_keysym(0x1007ff00));
    assert_eq!(Sym::F11, sym_from_keysym(0x1005FF10));
    assert_eq!(Sym::LeftTab, sym_from_keysym(0x1000FF74));
    assert_eq!(Sym::MicMute, sym_from_keysym(0x1008ffb2));
    // an unmapped value degrades to Unknown
    assert_eq!(Sym::Unknown, sym_from_keysym(0xdeadbeef));
    assert_eq!(Sym::Unknown, sym_from_keysym(0));
}

#[test]
fn mods_new_masks_idempotently() {
    // building from a byte equals building from the byte already masked
    for b in 0..=255u16 {
        let b = b as u8;
        assert_eq!(Mods::new(b), Mods::new(b & MODS_DEFINED_MASK));
    }
    assert_eq!(0x7f, Mods::new(0xff).fields());
    assert_eq!(0, Mods::new(0x80).fields());
}

#[test]
fn mods_accessors() {
    let m = Mods::new(MODS_LEFT_MASK | MODS_CTRL_MASK | MODS_SHIFT_MASK);
    assert!(m.is_left());
    assert!(!m.is_right());
    assert!(m.has_ctrl());
    assert!(m.has_shift());
    assert!(!m.has_meta());
    assert!(!m.has_alt());
    assert!(!m.has_super());

    assert!(m.has_all(MODS_CTRL_MASK | MODS_SHIFT_MASK));
    assert!(!m.has_all(MODS_CTRL_MASK | MODS_ALT_MASK));
    assert!(m.has_any(MODS_CTRL_MASK | MODS_ALT_MASK));
    assert!(!m.has_any(MODS_ALT_MASK));
    assert!(m.has_none(MODS_ALT_MASK));
    assert!(!m.has_none(MODS_CTRL_MASK));

    // side bits do not count as key bits for the has_* queries
    assert!(m.has_none(MODS_LEFT_MASK | MODS_RIGHT_MASK));
}

#[test]
fn mods_ops() {
    let a = Mods::new(MODS_CTRL_MASK | MODS_LEFT_MASK);
    let b = Mods::new(MODS_SHIFT_MASK | MODS_LEFT_MASK);

    assert_eq!(MODS_LEFT_MASK, (a & b).fields());
    assert_eq!(
        MODS_CTRL_MASK | MODS_SHIFT_MASK | MODS_LEFT_MASK,
        (a | b).fields()
    );
    assert_eq!(MODS_CTRL_MASK | MODS_SHIFT_MASK, (a ^ b).fields());

    assert_eq!(0, Mods::default().fields());
}
