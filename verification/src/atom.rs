//! The symbol table: the fixed ordered set of protocol symbol names
//! interned once at startup, and the immutable map from each name to its
//! server-resolved integer handle.

use vstd::prelude::*;
use crate::error::Error;

verus! {

/// How many symbols the fixed set holds.
pub const ATOM_COUNT: usize = 21;

/// The named protocol symbols this system interns, in intern order.
#[allow(non_camel_case_types)]
#[derive(Copy, Clone, Debug, Hash, PartialEq, Eq, Structural)]
pub enum Atom {
    UTF8_STRING,
    WM_PROTOCOLS,
    WM_DELETE_WINDOW,
    WM_TRANSIENT_FOR,
    WM_CHANGE_STATE,
    WM_STATE,
    _NET_WM_STATE,
    _NET_WM_STATE_MODAL,
    _NET_WM_STATE_STICKY,
    _NET_WM_STATE_MAXIMIZED_VERT,
    _NET_WM_STATE_MAXIMIZED_HORZ,
    _NET_WM_STATE_SHADED,
    _NET_WM_STATE_SKIP_TASKBAR,
    _NET_WM_STATE_SKIP_PAGER,
    _NET_WM_STATE_HIDDEN,
    _NET_WM_STATE_FULLSCREEN,
    _NET_WM_STATE_ABOVE,
    _NET_WM_STATE_BELOW,
    _NET_WM_STATE_DEMANDS_ATTENTION,
    _NET_WM_STATE_FOCUSED,
    _NET_WM_NAME,
}

impl Atom {
    /// Position of this symbol in the fixed intern order.
    pub open spec fn spec_index(self) -> int {
        match self {
            Atom::UTF8_STRING => 0,
            Atom::WM_PROTOCOLS => 1,
            Atom::WM_DELETE_WINDOW => 2,
            Atom::WM_TRANSIENT_FOR => 3,
            Atom::WM_CHANGE_STATE => 4,
            Atom::WM_STATE => 5,
            Atom::_NET_WM_STATE => 6,
            Atom::_NET_WM_STATE_MODAL => 7,
            Atom::_NET_WM_STATE_STICKY => 8,
            Atom::_NET_WM_STATE_MAXIMIZED_VERT => 9,
            Atom::_NET_WM_STATE_MAXIMIZED_HORZ => 10,
            Atom::_NET_WM_STATE_SHADED => 11,
            Atom::_NET_WM_STATE_SKIP_TASKBAR => 12,
            Atom::_NET_WM_STATE_SKIP_PAGER => 13,
            Atom::_NET_WM_STATE_HIDDEN => 14,
            Atom::_NET_WM_STATE_FULLSCREEN => 15,
            Atom::_NET_WM_STATE_ABOVE => 16,
            Atom::_NET_WM_STATE_BELOW => 17,
            Atom::_NET_WM_STATE_DEMANDS_ATTENTION => 18,
            Atom::_NET_WM_STATE_FOCUSED => 19,
            Atom::_NET_WM_NAME => 20,
        }
    }

    /// The canonical protocol name of this symbol.
    pub open spec fn spec_name(self) -> Seq<char> {
        match self {
            Atom::UTF8_STRING => "UTF8_STRING"@,
            Atom::WM_PROTOCOLS => "WM_PROTOCOLS"@,
            Atom::WM_DELETE_WINDOW => "WM_DELETE_WINDOW"@,
            Atom::WM_TRANSIENT_FOR => "WM_TRANSIENT_FOR"@,
            Atom::WM_CHANGE_STATE => "WM_CHANGE_STATE"@,
            Atom::WM_STATE => "WM_STATE"@,
            Atom::_NET_WM_STATE => "_NET_WM_STATE"@,
            Atom::_NET_WM_STATE_MODAL => "_NET_WM_STATE_MODAL"@,
            Atom::_NET_WM_STATE_STICKY => "_NET_WM_STATE_STICKY"@,
            Atom::_NET_WM_STATE_MAXIMIZED_VERT => "_NET_WM_STATE_MAXIMIZED_VERT"@,
            Atom::_NET_WM_STATE_MAXIMIZED_HORZ => "_NET_WM_STATE_MAXIMIZED_HORZ"@,
            Atom::_NET_WM_STATE_SHADED => "_NET_WM_STATE_SHADED"@,
            Atom::_NET_WM_STATE_SKIP_TASKBAR => "_NET_WM_STATE_SKIP_TASKBAR"@,
            Atom::_NET_WM_STATE_SKIP_PAGER => "_NET_WM_STATE_SKIP_PAGER"@,
            Atom::_NET_WM_STATE_HIDDEN => "_NET_WM_STATE_HIDDEN"@,
            Atom::_NET_WM_STATE_FULLSCREEN => "_NET_WM_STATE_FULLSCREEN"@,
            Atom::_NET_WM_STATE_ABOVE => "_NET_WM_STATE_ABOVE"@,
            Atom::_NET_WM_STATE_BELOW => "_NET_WM_STATE_BELOW"@,
            Atom::_NET_WM_STATE_DEMANDS_ATTENTION => "_NET_WM_STATE_DEMANDS_ATTENTION"@,
            Atom::_NET_WM_STATE_FOCUSED => "_NET_WM_STATE_FOCUSED"@,
            Atom::_NET_WM_NAME => "_NET_WM_NAME"@,
        }
    }

    pub fn index(self) -> (i: usize)
        ensures
            i == self.spec_index(),
            i < ATOM_COUNT,
    {
        match self {
            Atom::UTF8_STRING => 0,
            Atom::WM_PROTOCOLS => 1,
            Atom::WM_DELETE_WINDOW => 2,
            Atom::WM_TRANSIENT_FOR => 3,
            Atom::WM_CHANGE_STATE => 4,
            Atom::WM_STATE => 5,
            Atom::_NET_WM_STATE => 6,
            Atom::_NET_WM_STATE_MODAL => 7,
            Atom::_NET_WM_STATE_STICKY => 8,
            Atom::_NET_WM_STATE_MAXIMIZED_VERT => 9,
            Atom::_NET_WM_STATE_MAXIMIZED_HORZ => 10,
            Atom::_NET_WM_STATE_SHADED => 11,
            Atom::_NET_WM_STATE_SKIP_TASKBAR => 12,
            Atom::_NET_WM_STATE_SKIP_PAGER => 13,
            Atom::_NET_WM_STATE_HIDDEN => 14,
            Atom::_NET_WM_STATE_FULLSCREEN => 15,
            Atom::_NET_WM_STATE_ABOVE => 16,
            Atom::_NET_WM_STATE_BELOW => 17,
            Atom::_NET_WM_STATE_DEMANDS_ATTENTION => 18,
            Atom::_NET_WM_STATE_FOCUSED => 19,
            Atom::_NET_WM_NAME => 20,
        }
    }

    pub fn name(self) -> (n: &'static str)
        ensures
            n@ == self.spec_name(),
    {
        match self {
            Atom::UTF8_STRING => "UTF8_STRING",
            Atom::WM_PROTOCOLS => "WM_PROTOCOLS",
            Atom::WM_DELETE_WINDOW => "WM_DELETE_WINDOW",
            Atom::WM_TRANSIENT_FOR => "WM_TRANSIENT_FOR",
            Atom::WM_CHANGE_STATE => "WM_CHANGE_STATE",
            Atom::WM_STATE => "WM_STATE",
            Atom::_NET_WM_STATE => "_NET_WM_STATE",
            Atom::_NET_WM_STATE_MODAL => "_NET_WM_STATE_MODAL",
            Atom::_NET_WM_STATE_STICKY => "_NET_WM_STATE_STICKY",
            Atom::_NET_WM_STATE_MAXIMIZED_VERT => "_NET_WM_STATE_MAXIMIZED_VERT",
            Atom::_NET_WM_STATE_MAXIMIZED_HORZ => "_NET_WM_STATE_MAXIMIZED_HORZ",
            Atom::_NET_WM_STATE_SHADED => "_NET_WM_STATE_SHADED",
            Atom::_NET_WM_STATE_SKIP_TASKBAR => "_NET_WM_STATE_SKIP_TASKBAR",
            Atom::_NET_WM_STATE_SKIP_PAGER => "_NET_WM_STATE_SKIP_PAGER",
            Atom::_NET_WM_STATE_HIDDEN => "_NET_WM_STATE_HIDDEN",
            Atom::_NET_WM_STATE_FULLSCREEN => "_NET_WM_STATE_FULLSCREEN",
            Atom::_NET_WM_STATE_ABOVE => "_NET_WM_STATE_ABOVE",
            Atom::_NET_WM_STATE_BELOW => "_NET_WM_STATE_BELOW",
            Atom::_NET_WM_STATE_DEMANDS_ATTENTION => "_NET_WM_STATE_DEMANDS_ATTENTION",
            Atom::_NET_WM_STATE_FOCUSED => "_NET_WM_STATE_FOCUSED",
            Atom::_NET_WM_NAME => "_NET_WM_NAME",
        }
    }

    /// The symbols in intern order.
    pub open spec fn spec_variants() -> Seq<Atom> {
        seq![
            Atom::UTF8_STRING,
            Atom::WM_PROTOCOLS,
            Atom::WM_DELETE_WINDOW,
            Atom::WM_TRANSIENT_FOR,
            Atom::WM_CHANGE_STATE,
            Atom::WM_STATE,
            Atom::_NET_WM_STATE,
            Atom::_NET_WM_STATE_MODAL,
            Atom::_NET_WM_STATE_STICKY,
            Atom::_NET_WM_STATE_MAXIMIZED_VERT,
            Atom::_NET_WM_STATE_MAXIMIZED_HORZ,
            Atom::_NET_WM_STATE_SHADED,
            Atom::_NET_WM_STATE_SKIP_TASKBAR,
            Atom::_NET_WM_STATE_SKIP_PAGER,
            Atom::_NET_WM_STATE_HIDDEN,
            Atom::_NET_WM_STATE_FULLSCREEN,
            Atom::_NET_WM_STATE_ABOVE,
            Atom::_NET_WM_STATE_BELOW,
            Atom::_NET_WM_STATE_DEMANDS_ATTENTION,
            Atom::_NET_WM_STATE_FOCUSED,
            Atom::_NET_WM_NAME,
        ]
    }

    /// Every symbol, in intern order: entry `i` has index `i`.
    pub fn variants() -> (v: Vec<Atom>)
        ensures
            v@ == Atom::spec_variants(),
            v@.len() == ATOM_COUNT,
    {
        let v: Vec<Atom> = vec![
            Atom::UTF8_STRING,
            Atom::WM_PROTOCOLS,
            Atom::WM_DELETE_WINDOW,
            Atom::WM_TRANSIENT_FOR,
            Atom::WM_CHANGE_STATE,
            Atom::WM_STATE,
            Atom::_NET_WM_STATE,
            Atom::_NET_WM_STATE_MODAL,
            Atom::_NET_WM_STATE_STICKY,
            Atom::_NET_WM_STATE_MAXIMIZED_VERT,
            Atom::_NET_WM_STATE_MAXIMIZED_HORZ,
            Atom::_NET_WM_STATE_SHADED,
            Atom::_NET_WM_STATE_SKIP_TASKBAR,
            Atom::_NET_WM_STATE_SKIP_PAGER,
            Atom::_NET_WM_STATE_HIDDEN,
            Atom::_NET_WM_STATE_FULLSCREEN,
            Atom::_NET_WM_STATE_ABOVE,
            Atom::_NET_WM_STATE_BELOW,
            Atom::_NET_WM_STATE_DEMANDS_ATTENTION,
            Atom::_NET_WM_STATE_FOCUSED,
            Atom::_NET_WM_NAME,
        ];
        proof {
            assert(v@ =~= Atom::spec_variants());
        }
        v
    }

    pub fn num_variants() -> (n: usize)
        ensures
            n == ATOM_COUNT,
    {
        ATOM_COUNT
    }
}

/// Immutable map from each named symbol to its server-resolved handle,
/// populated once at window construction and read-only thereafter.
pub struct AtomTable {
    handles: Vec<u32>,
}

impl AtomTable {
    /// The resolved handles, one per symbol in intern order.
    pub closed spec fn spec_handles(&self) -> Seq<u32> {
        self.handles@
    }

    /// The table is complete: one handle for every named symbol.
    pub open spec fn wf(&self) -> bool {
        self.spec_handles().len() == ATOM_COUNT
    }

    /// The handle resolved for a symbol.
    pub open spec fn spec_handle(&self, a: Atom) -> u32 {
        self.spec_handles()[a.spec_index()]
    }

    /// Builds the table from the handles the server resolved, in intern
    /// order. Succeeds exactly when every symbol got a handle; a short or
    /// long reply set means a required symbol is missing.
    pub fn new(handles: Vec<u32>) -> (r: Result<AtomTable, Error>)
        ensures
            r is Ok <==> handles@.len() == ATOM_COUNT,
            r is Ok ==> r->Ok_0.wf() && r->Ok_0.spec_handles() == handles@,
            r is Err ==> r->Err_0 is MissingAtom,
    {
        if handles.len() == ATOM_COUNT {
            Ok(AtomTable { handles })
        } else {
            Err(Error::MissingAtom)
        }
    }

    /// O(1) typed lookup; total on a complete table.
    pub fn handle_of(&self, a: Atom) -> (h: u32)
        requires
            self.wf(),
        ensures
            h == self.spec_handle(a),
    {
        let i = a.index();
        self.handles[i]
    }
}

} // verus!
