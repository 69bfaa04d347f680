//! The window that the renderer presents to: how it is made, and strings in
//! the form the native interface takes them.

use vstd::prelude::*;
use vstd::string::StrSliceExecFns;
use crate::swap_chain::SURFACE_HEIGHT;
use crate::swap_chain::SURFACE_WIDTH;

verus! {

/// Class style: redraw when the height changes.
pub const CS_VREDRAW: u32 = 0x0001;

/// Class style: redraw when the width changes.
pub const CS_HREDRAW: u32 = 0x0002;

/// Class style: each window has a device context of its own.
pub const CS_OWNDC: u32 = 0x0020;

/// Window style: title bar, border, system menu, sizing frame, minimize and
/// maximize box.
pub const WS_OVERLAPPEDWINDOW: u32 = 0x00CF_0000;

/// Window style: visible from the start.
pub const WS_VISIBLE: u32 = 0x1000_0000;

/// Position: wherever the system puts the window.
pub const CW_USEDEFAULT: i32 = -2147483648;

/// Show the window in its current size and position.
pub const SW_SHOW: i32 = 5;

/// A window, known by its native handle. The null handle is no window.
#[derive(Clone, Copy, Debug, PartialEq, Eq, Structural)]
pub struct Window {
    pub handle: usize,
}

/// What a window class is registered and a window is created with.
#[derive(Clone, Copy, Debug, PartialEq, Eq)]
pub struct WindowRequest {
    pub class_style: u32,
    pub class_name: &'static str,
    pub title: &'static str,
    pub ex_style: u32,
    pub style: u32,
    pub x: i32,
    pub y: i32,
    pub width: i32,
    pub height: i32,
}

/// The window of the renderer: an overlapped, visible window as large as the
/// surface, placed by the system.
pub fn window_request() -> (request: WindowRequest)
    ensures
        request.class_style == 0x23,
        request.class_name@ == "sample"@,
        request.title@ == "title"@,
        request.ex_style == 0,
        request.style == 0x10CF_0000,
        request.x == CW_USEDEFAULT,
        request.y == CW_USEDEFAULT,
        request.width == SURFACE_WIDTH,
        request.height == SURFACE_HEIGHT,
{
    assert(CS_OWNDC | CS_HREDRAW | CS_VREDRAW == 0x23) by (bit_vector);
    assert(WS_OVERLAPPEDWINDOW | WS_VISIBLE == 0x10CF_0000) by (bit_vector);
    WindowRequest {
        class_style: CS_OWNDC | CS_HREDRAW | CS_VREDRAW,
        class_name: "sample",
        title: "title",
        ex_style: 0,
        style: WS_OVERLAPPEDWINDOW | WS_VISIBLE,
        x: CW_USEDEFAULT,
        y: CW_USEDEFAULT,
        width: 1280,
        height: 720,
    }
}

/// The window that the system made, if it made one: `handle` is what the
/// creation returned, and null means that it failed.
pub fn create_window(handle: usize) -> (window: Option<Window>)
    ensures
        handle != 0 ==> window == Some(Window { handle }),
        handle == 0 ==> window is None,
{
    if handle != 0 {
        Some(Window { handle })
    } else {
        None
    }
}

/// How a window is shown.
#[derive(Clone, Copy, Debug, PartialEq, Eq, Structural)]
pub struct ShowRequest {
    pub handle: usize,
    pub command: i32,
}

/// Shows `window` as it is, and has it painted.
pub fn show_window(window: Window) -> (request: ShowRequest)
    ensures
        request == (ShowRequest { handle: window.handle, command: SW_SHOW }),
{
    ShowRequest { handle: window.handle, command: SW_SHOW }
}

/// The UTF-16 code units of one character: the character itself below
/// `0x10000`, a pair of surrogates from there on.
pub open spec fn utf16_units(c: char) -> Seq<u16> {
    let code = c as u32;
    if code < 0x10000 {
        seq![code as u16]
    } else {
        seq![
            (0xD800 + (code - 0x10000) / 0x400) as u16,
            (0xDC00 + (code - 0x10000) % 0x400) as u16,
        ]
    }
}

/// The UTF-16 code units of a text.
pub open spec fn utf16(text: Seq<char>) -> Seq<u16>
    decreases text.len(),
{
    if text.len() == 0 {
        Seq::empty()
    } else {
        utf16(text.drop_last()) + utf16_units(text.last())
    }
}

/// Whether a code unit is the second half of a surrogate pair.
pub open spec fn is_low_surrogate(unit: u16) -> bool {
    0xDC00 <= unit <= 0xDFFF
}

proof fn lemma_units_of_char(c: char)
    ensures
        utf16_units(c).len() == 1 || utf16_units(c).len() == 2,
        utf16_units(c).len() == 1 ==> !is_low_surrogate(utf16_units(c).last()) && utf16_units(
            c,
        )[0] == c as u32,
        utf16_units(c).len() == 2 ==> is_low_surrogate(utf16_units(c).last()) && c as u32
            == 0x10000 + (utf16_units(c)[0] - 0xD800) * 0x400 + (utf16_units(c)[1] - 0xDC00),
{
}

proof fn lemma_same_code_same_char(c: char, d: char)
    requires
        c as u32 == d as u32,
    ensures
        c == d,
{
}

/// No two texts have the same UTF-16 code units.
pub proof fn lemma_utf16_is_injective(first: Seq<char>, second: Seq<char>)
    requires
        utf16(first) == utf16(second),
    ensures
        first == second,
    decreases first.len(),
{
    if first.len() > 0 {
        lemma_units_of_char(first.last());
    }
    if second.len() > 0 {
        lemma_units_of_char(second.last());
    }
    if first.len() > 0 && second.len() > 0 {
        let whole = utf16(first);
        let head = utf16(first.drop_last());
        let other_head = utf16(second.drop_last());
        assert(whole.last() == utf16_units(second.last()).last());
        assert(head =~= whole.take(head.len() as int));
        assert(other_head =~= whole.take(head.len() as int));
        assert(utf16_units(second.last()) =~= whole.skip(head.len() as int));
        lemma_same_code_same_char(first.last(), second.last());
        lemma_utf16_is_injective(first.drop_last(), second.drop_last());
        assert(second =~= second.drop_last().push(second.last()));
    } else {
        assert(utf16(first).len() == 0 && utf16(second).len() == 0);
    }
}

/// `text` in UTF-16.
pub fn to_wchar(text: &str) -> (wide: Vec<u16>)
    ensures
        wide@ == utf16(text@),
{
    let mut wide: Vec<u16> = Vec::new();
    let length = text.unicode_len();
    let mut done: usize = 0;
    while done < length
        invariant
            length == text@.len(),
            done <= length,
            wide@ == utf16(text@.take(done as int)),
        decreases length - done,
    {
        let c = text.get_char(done);
        let code: u32 = c as u32;
        proof {
            let next = text@.take(done + 1);
            assert(next.drop_last() == text@.take(done as int));
        }
        if code < 0x10000 {
            wide.push(code as u16);
        } else {
            let high: u32 = 0xD800 + (code - 0x10000) / 0x400;
            let low: u32 = 0xDC00 + (code - 0x10000) % 0x400;
            wide.push(high as u16);
            wide.push(low as u16);
        }
        done = done + 1;
    }
    proof {
        assert(text@.take(done as int) == text@);
    }
    wide
}

/// `value` as the native interface takes a string: in UTF-16, with a zero
/// after its last code unit.
pub fn win32_string(value: &str) -> (wide: Vec<u16>)
    ensures
        wide@ == utf16(value@).push(0),
{
    let mut wide = to_wchar(value);
    wide.push(0);
    wide
}

} // verus!
