//! Keyboard vocabulary: the modifier bitfield, the physical key code
//! enumeration (by key position, layout independent) and the logical key
//! symbol enumeration (by key meaning under the current layout).

use vstd::prelude::*;

verus! {

pub const MODS_CTRL_MASK: u8 = 0x01;

pub const MODS_SHIFT_MASK: u8 = 0x02;

pub const MODS_META_MASK: u8 = 0x04;

pub const MODS_ALT_MASK: u8 = 0x08;

pub const MODS_SUPER_MASK: u8 = 0x10;

pub const MODS_KEY_MASK: u8 = 0x1f;

pub const MODS_LEFT_MASK: u8 = 0x20;

pub const MODS_RIGHT_MASK: u8 = 0x40;

pub const MODS_SIDE_MASK: u8 = 0x60;

/// Every bit a `Mods` value may carry: the key bits and the side bits.
pub const MODS_DEFINED_MASK: u8 = MODS_KEY_MASK | MODS_SIDE_MASK;

pub const MODS_LEFT_CTRL: u8 = MODS_LEFT_MASK | MODS_CTRL_MASK;

pub const MODS_LEFT_SHIFT: u8 = MODS_LEFT_MASK | MODS_SHIFT_MASK;

pub const MODS_LEFT_META: u8 = MODS_LEFT_MASK | MODS_META_MASK;

pub const MODS_LEFT_ALT: u8 = MODS_LEFT_MASK | MODS_ALT_MASK;

pub const MODS_LEFT_SUPER: u8 = MODS_LEFT_MASK | MODS_SUPER_MASK;

pub const MODS_RIGHT_CTRL: u8 = MODS_RIGHT_MASK | MODS_CTRL_MASK;

pub const MODS_RIGHT_SHIFT: u8 = MODS_RIGHT_MASK | MODS_SHIFT_MASK;

pub const MODS_RIGHT_META: u8 = MODS_RIGHT_MASK | MODS_META_MASK;

pub const MODS_RIGHT_ALT: u8 = MODS_RIGHT_MASK | MODS_ALT_MASK;

pub const MODS_RIGHT_SUPER: u8 = MODS_RIGHT_MASK | MODS_SUPER_MASK;

pub const MODS_CTRL: u8 = MODS_LEFT_CTRL | MODS_RIGHT_CTRL;

pub const MODS_SHIFT: u8 = MODS_LEFT_SHIFT | MODS_RIGHT_SHIFT;

pub const MODS_META: u8 = MODS_LEFT_META | MODS_RIGHT_META;

pub const MODS_ALT: u8 = MODS_LEFT_ALT | MODS_RIGHT_ALT;

pub const MODS_SUPER: u8 = MODS_LEFT_SUPER | MODS_RIGHT_SUPER;

/// Which modifier keys are held, and whether the most recent relevant key
/// was a left- or right-side instance. Key bits and side bits occupy
/// disjoint ranges of one byte; construction masks out undefined bits, so
/// no undefined bit ever survives.
#[derive(Copy, Clone, PartialEq, Eq, Structural, Debug)]
pub struct Mods {
    fields: u8,
}

impl Mods {
    /// The raw bits of the field, for specification purposes.
    pub closed spec fn bits(&self) -> u8 {
        self.fields
    }

    /// What construction from an arbitrary byte yields.
    pub closed spec fn spec_new(fields: u8) -> Mods {
        Mods { fields: fields & MODS_DEFINED_MASK }
    }

    pub fn new(fields: u8) -> (m: Mods)
        ensures
            m == Mods::spec_new(fields),
            m.bits() == fields & MODS_DEFINED_MASK,
    {
        Mods { fields: fields & MODS_DEFINED_MASK }
    }

    pub fn fields(&self) -> (r: u8)
        ensures
            r == self.bits(),
    {
        self.fields
    }

    pub fn is_left(&self) -> (r: bool)
        ensures
            r == ((self.bits() & MODS_LEFT_MASK) != 0),
    {
        (self.fields & MODS_LEFT_MASK) != 0
    }

    pub fn is_right(&self) -> (r: bool)
        ensures
            r == ((self.bits() & MODS_RIGHT_MASK) != 0),
    {
        (self.fields & MODS_RIGHT_MASK) != 0
    }

    pub fn has_ctrl(&self) -> (r: bool)
        ensures
            r == ((self.bits() & MODS_CTRL_MASK) != 0),
    {
        (self.fields & MODS_CTRL_MASK) != 0
    }

    pub fn has_shift(&self) -> (r: bool)
        ensures
            r == ((self.bits() & MODS_SHIFT_MASK) != 0),
    {
        (self.fields & MODS_SHIFT_MASK) != 0
    }

    pub fn has_meta(&self) -> (r: bool)
        ensures
            r == ((self.bits() & MODS_META_MASK) != 0),
    {
        (self.fields & MODS_META_MASK) != 0
    }

    pub fn has_alt(&self) -> (r: bool)
        ensures
            r == ((self.bits() & MODS_ALT_MASK) != 0),
    {
        (self.fields & MODS_ALT_MASK) != 0
    }

    pub fn has_super(&self) -> (r: bool)
        ensures
            r == ((self.bits() & MODS_SUPER_MASK) != 0),
    {
        (self.fields & MODS_SUPER_MASK) != 0
    }

    pub fn has_all(&self, fields: u8) -> (r: bool)
        ensures
            r == ((self.bits() & (fields & MODS_KEY_MASK)) == (fields & MODS_KEY_MASK)),
    {
        let masked: u8 = fields & MODS_KEY_MASK;
        (self.fields & masked) == masked
    }

    pub fn has_any(&self, fields: u8) -> (r: bool)
        ensures
            r == ((self.bits() & (fields & MODS_KEY_MASK)) != 0),
    {
        let masked: u8 = fields & MODS_KEY_MASK;
        (self.fields & masked) != 0
    }

    pub fn has_none(&self, fields: u8) -> (r: bool)
        ensures
            r == ((self.bits() & (fields & MODS_KEY_MASK)) == 0),
    {
        let masked: u8 = fields & MODS_KEY_MASK;
        (self.fields & masked) == 0
    }
}

impl Default for Mods {
    fn default() -> (m: Mods)
        ensures
            m.bits() == 0,
    {
        Mods { fields: 0 }
    }
}

impl vstd::std_specs::ops::BitAndSpecImpl for Mods {
    open spec fn obeys_bitand_spec() -> bool {
        true
    }

    open spec fn bitand_req(self, rhs: Mods) -> bool {
        true
    }

    closed spec fn bitand_spec(self, rhs: Mods) -> Mods {
        Mods { fields: self.fields & rhs.fields }
    }
}

impl core::ops::BitAnd for Mods {
    type Output = Mods;

    fn bitand(self, rhs: Mods) -> (r: Mods)
        ensures
            r.bits() == self.bits() & rhs.bits(),
    {
        Mods { fields: self.fields & rhs.fields }
    }
}

impl vstd::std_specs::ops::BitOrSpecImpl for Mods {
    open spec fn obeys_bitor_spec() -> bool {
        true
    }

    open spec fn bitor_req(self, rhs: Mods) -> bool {
        true
    }

    closed spec fn bitor_spec(self, rhs: Mods) -> Mods {
        Mods { fields: self.fields | rhs.fields }
    }
}

impl core::ops::BitOr for Mods {
    type Output = Mods;

    fn bitor(self, rhs: Mods) -> (r: Mods)
        ensures
            r.bits() == self.bits() | rhs.bits(),
    {
        Mods { fields: self.fields | rhs.fields }
    }
}

impl vstd::std_specs::ops::BitXorSpecImpl for Mods {
    open spec fn obeys_bitxor_spec() -> bool {
        true
    }

    open spec fn bitxor_req(self, rhs: Mods) -> bool {
        true
    }

    closed spec fn bitxor_spec(self, rhs: Mods) -> Mods {
        Mods { fields: self.fields ^ rhs.fields }
    }
}

impl core::ops::BitXor for Mods {
    type Output = Mods;

    fn bitxor(self, rhs: Mods) -> (r: Mods)
        ensures
            r.bits() == self.bits() ^ rhs.bits(),
    {
        Mods { fields: self.fields ^ rhs.fields }
    }
}

/// Construction masks idempotently: a `Mods` built from a byte equals one
/// built from that byte already masked to the defined bits.
pub proof fn lemma_mods_new_idempotent(b: u8)
    ensures
        Mods::spec_new(b) == Mods::spec_new(b & MODS_DEFINED_MASK),
{
    assert((b & 0x7f) & 0x7f == b & 0x7f) by (bit_vector);
    assert(MODS_DEFINED_MASK == 0x7f) by (bit_vector);
}

/// A constructed `Mods` carries no bit outside the defined mask.
pub proof fn lemma_mods_new_defined(b: u8)
    ensures
        Mods::spec_new(b).bits() & MODS_DEFINED_MASK == Mods::spec_new(b).bits(),
{
    assert((b & 0x7f) & 0x7f == b & 0x7f) by (bit_vector);
    assert(MODS_DEFINED_MASK == 0x7f) by (bit_vector);
}

/// Physical key positions: where a key sits, independent of layout.
/// The set follows the USB HID usage table.
#[allow(non_camel_case_types)]
#[derive(Copy, Clone, Debug, Hash, PartialEq, Eq, Structural)]
pub enum Code {
    NoKey,
    ErrorRollOver,
    POSTFail,
    ErrorUndefined,
    A,
    B,
    C,
    D,
    E,
    F,
    G,
    H,
    I,
    J,
    K,
    L,
    M,
    N,
    O,
    P,
    Q,
    R,
    S,
    T,
    U,
    V,
    W,
    X,
    Y,
    Z,
    N1,
    N2,
    N3,
    N4,
    N5,
    N6,
    N7,
    N8,
    N9,
    N0,
    Enter,
    Escape,
    Backspace,
    Tab,
    Space,
    Minus,
    Equals,
    LeftBracket,
    RightBracket,
    Backslash,
    UK_Hash,
    Semicolon,
    Quote,
    Grave,
    Comma,
    Period,
    Slash,
    CapsLock,
    F1,
    F2,
    F3,
    F4,
    F5,
    F6,
    F7,
    F8,
    F9,
    F10,
    F11,
    F12,
    PrintScreen,
    ScrollLock,
    Pause,
    Insert,
    Home,
    PageUp,
    Delete,
    End,
    PageDown,
    Right,
    Left,
    Down,
    Up,
    KP_NumLock,
    KP_Divide,
    KP_Multiply,
    KP_Subtract,
    KP_Add,
    KP_Enter,
    KP_1,
    KP_2,
    KP_3,
    KP_4,
    KP_5,
    KP_6,
    KP_7,
    KP_8,
    KP_9,
    KP_0,
    KP_Period,
    UK_Backslash,
    KP_Equal,
    F13,
    F14,
    F15,
    F16,
    F17,
    F18,
    F19,
    F20,
    F21,
    F22,
    F23,
    F24,
    Execute,
    Help,
    Menu,
    Select,
    Stop,
    Again,
    Undo,
    Cut,
    Copy,
    Paste,
    Find,
    Mute,
    VolumeUp,
    VolumeDown,
    LockingCapsLock,
    LockingNumLock,
    LockingScrollLock,
    KP_Comma,
    KP_EqualSign,
    International1,
    International2,
    International3,
    International4,
    International5,
    International6,
    International7,
    International8,
    International9,
    LANG1,
    LANG2,
    LANG3,
    LANG4,
    LANG5,
    LANG6,
    LANG7,
    LANG8,
    LANG9,
    AltErase,
    SysReq,
    Cancel,
    Clear,
    Prior,
    Return,
    Separator,
    Out,
    Oper,
    ClearAgain,
    CrSelProps,
    ExSel,
    KP_00,
    KP_000,
    ThousandsSep,
    DecimalSep,
    CurrencyUnit,
    CurrencySubUnit,
    KP_LeftParent,
    KP_RightParent,
    KP_LeftCurly,
    KP_RightCurly,
    KP_Tab,
    KP_Backspace,
    KP_A,
    KP_B,
    KP_C,
    KP_D,
    KP_E,
    KP_F,
    KP_XOR,
    KP_Pow,
    KP_Percent,
    KP_LeftAngle,
    KP_RightAngle,
    KP_BitAnd,
    KP_LogicAnd,
    KP_BitOr,
    KP_LogicOr,
    KP_Colon,
    KP_Hash,
    KP_Space,
    KP_At,
    KP_Not,
    KP_MemStore,
    KP_MemRecall,
    KP_MemClear,
    KP_MemAdd,
    KP_MemSubtract,
    KP_MemMultiply,
    KP_MemDivide,
    KP_PlusMinus,
    KP_Clear,
    KP_ClearEntry,
    KP_Binary,
    KP_Octal,
    KP_Decimal,
    KP_Hexadecimal,
    LeftCtrl,
    LeftShift,
    LeftAlt,
    LeftSuper,
    RightCtrl,
    RightShift,
    RightAlt,
    RightSuper,
    Unknown,
}

/// Logical key meanings: what a key produces under the current layout and
/// modifier state. Case is conveyed by modifier state and resolved text,
/// so only uppercase letter symbols are named.
#[allow(non_camel_case_types)]
#[derive(Copy, Clone, Debug, Hash, PartialEq, Eq, Structural)]
pub enum Sym {
    NoSymbol,
    Unknown,
    Escape,
    Tab,
    LeftTab,
    Backspace,
    Return,
    Delete,
    SysRq,
    Pause,
    Clear,
    CapsLock,
    NumLock,
    ScrollLock,
    Left,
    Up,
    Right,
    Down,
    PageUp,
    PageDown,
    Home,
    End,
    Print,
    Insert,
    Menu,
    Help,
    Break,
    F1,
    F2,
    F3,
    F4,
    F5,
    F6,
    F7,
    F8,
    F9,
    F10,
    F11,
    F12,
    F13,
    F14,
    F15,
    F16,
    F17,
    F18,
    F19,
    F20,
    F21,
    F22,
    F23,
    F24,
    KP_Enter,
    KP_Delete,
    KP_Home,
    KP_Begin,
    KP_End,
    KP_PageUp,
    KP_PageDown,
    KP_Up,
    KP_Down,
    KP_Left,
    KP_Right,
    KP_Equal,
    KP_Multiply,
    KP_Add,
    KP_Divide,
    KP_Subtract,
    KP_Decimal,
    KP_Separator,
    KP_0,
    KP_1,
    KP_2,
    KP_3,
    KP_4,
    KP_6,
    KP_7,
    KP_8,
    KP_9,
    dead_grave,
    dead_acute,
    dead_circumflex,
    dead_tilde,
    dead_macron,
    dead_breve,
    dead_abovedot,
    dead_diaeresis,
    dead_abovering,
    dead_doubleacute,
    dead_caron,
    dead_cedilla,
    dead_ogonek,
    dead_iota,
    dead_voiced_sound,
    dead_semivoiced_sound,
    dead_belowdot,
    dead_hook,
    dead_horn,
    dead_stroke,
    dead_abovecomma,
    dead_abovereversedcomma,
    dead_doublegrave,
    dead_belowring,
    dead_belowmacron,
    dead_belowcircumflex,
    dead_belowtilde,
    dead_belowbreve,
    dead_belowdiaeresis,
    dead_invertedbreve,
    dead_belowcomma,
    dead_currency,
    dead_lowline,
    dead_aboveverticalline,
    dead_belowverticalline,
    dead_longsolidusoverlay,
    dead_a,
    dead_A,
    dead_e,
    dead_E,
    dead_i,
    dead_I,
    dead_o,
    dead_O,
    dead_u,
    dead_U,
    dead_small_schwa,
    dead_capital_schwa,
    ModeSwitch,
    LeftCtrl,
    RightCtrl,
    LeftShift,
    RightShift,
    LeftMeta,
    RightMeta,
    LeftAlt,
    RightAlt,
    LeftSuper,
    RightSuper,
    Ctrl,
    Shift,
    Meta,
    Alt,
    Super,
    space,
    exclam,
    quotedbl,
    numbersign,
    dollar,
    percent,
    ampersand,
    apostrophe,
    parenleft,
    parenright,
    asterisk,
    plus,
    comma,
    minus,
    period,
    slash,
    D0,
    D1,
    D2,
    D3,
    D4,
    D5,
    D6,
    D7,
    D8,
    D9,
    colon,
    semicolon,
    less,
    equal,
    greater,
    question,
    at,
    A,
    B,
    C,
    D,
    E,
    F,
    G,
    H,
    I,
    J,
    K,
    L,
    M,
    N,
    O,
    P,
    Q,
    R,
    S,
    T,
    U,
    V,
    W,
    X,
    Y,
    Z,
    bracketleft,
    backslash,
    bracketright,
    asciicircum,
    underscore,
    grave,
    braceleft,
    bar,
    braceright,
    asciitilde,
    Back,
    Forward,
    Stop,
    Refresh,
    VolumeDown,
    VolumeMute,
    VolumeUp,
    BassBoost,
    BassUp,
    BassDown,
    TrebleUp,
    TrebleDown,
    MediaPlay,
    MediaStop,
    MediaPrevious,
    MediaNext,
    MediaRecord,
    MediaPause,
    MediaTogglePlayPause,
    HomePage,
    Favorites,
    Search,
    Standby,
    OpenUrl,
    MyComputer,
    LaunchMail,
    LaunchMedia,
    Launch0,
    Launch1,
    Launch2,
    Launch3,
    Launch4,
    Launch5,
    Launch6,
    Launch7,
    Launch8,
    Launch9,
    LaunchA,
    LaunchB,
    LaunchC,
    LaunchD,
    LaunchE,
    LaunchF,
    MonBrightnessUp,
    MonBrightnessDown,
    KeyboardLightOnOff,
    KeyboardBrightnessUp,
    KeyboardBrightnessDown,
    PowerOff,
    WakeUp,
    Eject,
    ScreenSaver,
    WWW,
    Memo,
    LightBulb,
    Shop,
    History,
    AddFavorite,
    HotLinks,
    BrightnessAdjust,
    Finance,
    Community,
    AudioRewind,
    BackForward,
    ApplicationLeft,
    ApplicationRight,
    Book,
    CD,
    Calculator,
    ToDoList,
    ClearGrab,
    Close,
    Copy,
    Cut,
    Display,
    DOS,
    Documents,
    Excel,
    Explorer,
    Game,
    Go,
    iTouch,
    LogOff,
    Market,
    Meeting,
    MenuKB,
    MenuPB,
    MySites,
    News,
    OfficeHome,
    OptionKey,
    Paste,
    Phone,
    Calendar,
    Reply,
    Reload,
    RotateWindows,
    RotationPB,
    RotationKB,
    Save,
    Send,
    Spell,
    SplitScreen,
    Support,
    TaskPane,
    Terminal,
    Tools,
    Travel,
    Video,
    Word,
    Xfer,
    ZoomIn,
    ZoomOut,
    Away,
    Messenger,
    WebCam,
    MailForward,
    Pictures,
    Music,
    Battery,
    Bluetooth,
    WLAN,
    UWB,
    AudioForward,
    AudioRepeat,
    AudioRandomPlay,
    Subtitle,
    AudioCycleTrack,
    Time,
    Hibernate,
    View,
    TopMenu,
    PowerDown,
    Suspend,
    ContrastAdjust,
    LaunchG,
    LaunchH,
    TouchpadToggle,
    TouchpadOn,
    TouchpadOff,
    MicMute,
    Red,
    Green,
    Yellow,
    Blue,
    ChannelUp,
    ChannelDown,
    Guide,
    Info,
    Settings,
    MicVolumeUp,
    MicVolumeDown,
    New,
    Open,
    Find,
    Undo,
    Redo,
    MediaLast,
    Select,
    Yes,
    No,
    Cancel,
    Printer,
    Execute,
    Sleep,
    Play,
    Zoom,
    Exit,
    Context1,
    Context2,
    Context3,
    Context4,
    Call,
    Hangup,
    Flip,
    ToggleCallHangup,
    VoiceDial,
    LastNumberRedial,
    Camera,
    CameraFocus,
}

} // verus!
