//! The floating composer on Windows: a window that shows without taking the foreground, and
//! the rule for handing the foreground back. The window calls themselves are the
//! application's.

use crate::text::{chars_of, is_word};
use vstd::prelude::*;

verus! {

/// The window does not become the foreground window when clicked.
pub const WS_EX_NOACTIVATE: isize = 0x0800_0000;

/// A tool window: kept off the taskbar.
pub const WS_EX_TOOLWINDOW: isize = 0x0000_0080;

/// A window that always has a taskbar button.
pub const WS_EX_APPWINDOW: isize = 0x0004_0000;

/// The extended style with the composer's no-activate setting turned on or off. On: it never
/// takes the foreground and has no taskbar button. Off (to take typed keys): it may be
/// activated. No other style bit is touched.
pub fn no_activate_style(style: isize, on: bool) -> (r: isize)
    ensures
        on ==> r & WS_EX_NOACTIVATE == WS_EX_NOACTIVATE && r & WS_EX_TOOLWINDOW == WS_EX_TOOLWINDOW
            && r & WS_EX_APPWINDOW == 0,
        !on ==> r & WS_EX_NOACTIVATE == 0,
        r & !(WS_EX_NOACTIVATE | WS_EX_TOOLWINDOW | WS_EX_APPWINDOW) == style & !(WS_EX_NOACTIVATE
            | WS_EX_TOOLWINDOW | WS_EX_APPWINDOW),
        !on ==> r & WS_EX_TOOLWINDOW == style & WS_EX_TOOLWINDOW && r & WS_EX_APPWINDOW == style
            & WS_EX_APPWINDOW,
{
    let bits: isize = WS_EX_NOACTIVATE | WS_EX_TOOLWINDOW;
    let r = if on {
        (style | bits) & !WS_EX_APPWINDOW
    } else {
        style & !WS_EX_NOACTIVATE
    };
    assert(WS_EX_NOACTIVATE | WS_EX_TOOLWINDOW == 0x0800_0080isize) by (bit_vector);
    if on {
        assert(((style | 0x0800_0080isize) & !0x0004_0000isize) & 0x0800_0000isize == 0x0800_0000isize
            && ((style | 0x0800_0080isize) & !0x0004_0000isize) & 0x0000_0080isize == 0x0000_0080isize
            && ((style | 0x0800_0080isize) & !0x0004_0000isize) & 0x0004_0000isize == 0
            && ((style | 0x0800_0080isize) & !0x0004_0000isize) & !0x0804_0080isize == style
            & !0x0804_0080isize) by (bit_vector);
    } else {
        assert((style & !0x0800_0000isize) & 0x0800_0000isize == 0 && (style & !0x0800_0000isize)
            & !0x0804_0080isize == style & !0x0804_0080isize && (style & !0x0800_0000isize)
            & 0x0000_0080isize == style & 0x0000_0080isize && (style & !0x0800_0000isize)
            & 0x0004_0000isize == style & 0x0004_0000isize) by (bit_vector);
    }
    assert((WS_EX_NOACTIVATE | WS_EX_TOOLWINDOW | WS_EX_APPWINDOW) == 0x0804_0080isize) by (
    bit_vector);
    r
}

/// The taskbar, its overflow and the desktop.
pub open spec fn shell_surface(class: Seq<char>) -> bool {
    ||| class == "Shell_TrayWnd"@
    ||| class == "Shell_SecondaryTrayWnd"@
    ||| class == "NotifyIconOverflowWindow"@
    ||| class == "TopLevelWindowForOverflowXamlIsland"@
    ||| class == "Progman"@
    ||| class == "WorkerW"@
}

/// Whether the foreground window is worth handing the foreground back to once the composer
/// has taken keys: another program's window, not the taskbar or the desktop.
pub fn foreground_to_return(pid: u32, own_pid: u32, class: &str) -> (r: bool)
    ensures
        r == (pid != own_pid && !shell_surface(class@)),
{
    let c = chars_of(class);
    let c = c.as_slice();
    let shell = is_word(c, "Shell_TrayWnd") || is_word(c, "Shell_SecondaryTrayWnd") || is_word(
        c,
        "NotifyIconOverflowWindow",
    ) || is_word(c, "TopLevelWindowForOverflowXamlIsland") || is_word(c, "Progman") || is_word(
        c,
        "WorkerW",
    );
    pid != own_pid && !shell
}

} // verus!
