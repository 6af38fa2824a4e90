//! The macOS paste destination: a Cmd+V into the window that was in front at the keypress,
//! made only while nothing has moved since.
//!
//! The event counters include the shortcut's own key presses, so up to three key presses are
//! the shortcut, not typing. Reading the window list and the counters is the application's.

use crate::destination::windows_paste::{counter_delta, str_view, wrapping_delta};
use crate::pipeline::{DeliveryError, Liveness};
use vstd::prelude::*;

verus! {

/// Key presses that belong to the shortcut itself.
pub const SHORTCUT_KEYS: u32 = 3;

/// The virtual key the paste is made with.
pub const KEY_V: u16 = 9;

/// One entry of the window list: owner process, layer and window number, each `None` where
/// the list did not give a number.
pub type WindowInfo = (Option<i64>, Option<i64>, Option<i64>);

/// The frontmost ordinary window of another program: the first entry, in list order, on the
/// normal layer, owned by a process other than `own`, with a window number. The process number
/// is narrowed to `i32` as a cast does.
pub open spec fn front_window_spec(list: Seq<WindowInfo>, own: i64) -> Option<(i32, i64)>
    decreases list.len(),
{
    if list.len() == 0 {
        None
    } else {
        match list[0] {
            (Some(pid), Some(0), Some(number)) if pid != own => Some((pid as i32, number)),
            _ => front_window_spec(list.drop_first(), own),
        }
    }
}

pub fn front_window(list: &[WindowInfo], own: i64) -> (r: Option<(i32, i64)>)
    ensures
        r == front_window_spec(list@, own),
{
    let n = list.len();
    let mut i: usize = 0;
    assert(list@.subrange(0, n as int) =~= list@);
    while i < n
        invariant
            n == list@.len(),
            i <= n,
            front_window_spec(list@, own) == front_window_spec(list@.subrange(i as int, n as int), own),
        decreases n - i,
    {
        let ghost rest = list@.subrange(i as int, n as int);
        assert(rest[0] == list@[i as int]);
        assert(rest.drop_first() =~= list@.subrange(i + 1, n as int));
        match list[i] {
            (Some(pid), Some(layer), Some(number)) => {
                if layer == 0 && pid != own {
                    return Some((pid as i32, number));
                }
            },
            _ => {},
        }
        i = i + 1;
    }
    None
}

/// All clicks, left, right and other, summed as the counters wrap.
pub fn total_clicks(left: u32, right: u32, other: u32) -> (r: u32)
    ensures
        r == (left + right + other) % 4294967296,
{
    let s: u64 = left as u64 + right as u64 + other as u64;
    (s % 4294967296u64) as u32
}

/// What was in front at the keypress, and the counts then.
#[derive(Debug, Clone, Copy, PartialEq, Eq, Structural)]
pub struct FocusStamp {
    pid: i32,
    window: i64,
    clicks: u32,
    keys: u32,
}

impl FocusStamp {
    pub closed spec fn pid_spec(self) -> i32 {
        self.pid
    }

    pub closed spec fn window_spec(self) -> i64 {
        self.window
    }

    pub closed spec fn clicks_spec(self) -> u32 {
        self.clicks
    }

    pub closed spec fn keys_spec(self) -> u32 {
        self.keys
    }

    /// A stamp of the front window `(pid, window)` with the counts at the keypress.
    pub fn new(front: (i32, i64), clicks: u32, keys: u32) -> (s: Self)
        ensures
            s.pid_spec() == front.0,
            s.window_spec() == front.1,
            s.clicks_spec() == clicks,
            s.keys_spec() == keys,
    {
        FocusStamp { pid: front.0, window: front.1, clicks, keys }
    }

    pub fn pid(&self) -> (r: i32)
        ensures
            r == self.pid_spec(),
    {
        self.pid
    }

    /// Why the stamp no longer holds, if it does not: the front window went, the program or
    /// window changed, there was a click, or more key presses than the shortcut's.
    pub open spec fn moved_spec(self, front: Option<(i32, i64)>, clicks_now: u32, keys_now: u32) -> Option<Seq<char>> {
        match front {
            None => Some("no-front-window"@),
            Some((pid, window)) => if pid != self.pid_spec() {
                Some("app-switched"@)
            } else if window != self.window_spec() {
                Some("window-changed"@)
            } else if clicks_now != self.clicks_spec() {
                Some("clicked"@)
            } else if counter_delta(keys_now, self.keys_spec()) > SHORTCUT_KEYS {
                Some("typed"@)
            } else {
                None
            },
        }
    }

    pub fn moved(&self, front: Option<(i32, i64)>, clicks_now: u32, keys_now: u32) -> (r: Option<&'static str>)
        ensures
            str_view(r) == self.moved_spec(front, clicks_now, keys_now),
    {
        match front {
            None => return Some("no-front-window"),
            Some((pid, window)) => {
                if pid != self.pid {
                    return Some("app-switched");
                }
                if window != self.window {
                    return Some("window-changed");
                }
            },
        }
        if clicks_now != self.clicks {
            return Some("clicked");
        }
        if wrapping_delta(keys_now, self.keys) > SHORTCUT_KEYS {
            return Some("typed");
        }
        None
    }
}

/// A paste into the window stamped at the keypress.
pub struct PasteDestination {
    stamp: FocusStamp,
    label: String,
    borrow: bool,
}

impl PasteDestination {
    pub closed spec fn stamp_spec(self) -> FocusStamp {
        self.stamp
    }

    pub closed spec fn label_spec(self) -> Seq<char> {
        self.label@
    }

    pub closed spec fn borrows(self) -> bool {
        self.borrow
    }

    pub fn new(stamp: FocusStamp, label: String, borrow: bool) -> (d: Self)
        ensures
            d.stamp_spec() == stamp,
            d.label_spec() == label@,
            d.borrows() == borrow,
    {
        PasteDestination { stamp, label, borrow }
    }

    pub fn label(&self) -> (r: String)
        ensures
            r@ == self.label_spec(),
    {
        let mut s = String::new();
        crate::text::push_str(&mut s, self.label.as_str());
        s
    }

    pub fn stamp(&self) -> (r: FocusStamp)
        ensures
            r == self.stamp_spec(),
    {
        self.stamp
    }

    /// Alive exactly while nothing has moved.
    pub fn liveness(&self, front: Option<(i32, i64)>, clicks_now: u32, keys_now: u32) -> (l: Liveness)
        ensures
            match self.stamp_spec().moved_spec(front, clicks_now, keys_now) {
                None => l is Alive,
                Some(why) => l matches Liveness::Dead { reason } && reason@ == why,
            },
    {
        match self.stamp.moved(front, clicks_now, keys_now) {
            None => Liveness::Alive,
            Some(why) => Liveness::dead(why),
        }
    }

    /// The check in front of the keystroke: lost if anything moved, else whether to borrow the
    /// normal clipboard for it.
    pub fn deliver_check(&self, front: Option<(i32, i64)>, clicks_now: u32, keys_now: u32) -> (r: Result<bool, DeliveryError>)
        ensures
            self.stamp_spec().moved_spec(front, clicks_now, keys_now) is Some ==> r == Err::<
                bool,
                DeliveryError,
            >(DeliveryError::DestinationLost),
            self.stamp_spec().moved_spec(front, clicks_now, keys_now) is None ==> r == Ok::<
                bool,
                DeliveryError,
            >(self.borrows()),
    {
        if self.stamp.moved(front, clicks_now, keys_now).is_some() {
            Err(DeliveryError::DestinationLost)
        } else {
            Ok(self.borrow)
        }
    }
}

} // verus!
