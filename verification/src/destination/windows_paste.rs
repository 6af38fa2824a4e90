//! The Windows paste destination: a Ctrl+V into the window that had focus at the keypress, made
//! only while nothing has moved since.
//!
//! "Moved" is judged from the foreground window and focus, and from counts of real clicks and
//! real key presses since the keypress. The stop press itself is the one key press allowed.
//! Reading the window, the counts and the keyboard is the application's; the rules are here.

use crate::pipeline::{DeliveryError, Liveness};
use crate::text::{
    char_pred, chars_of, eq_ignore_ascii_case, eq_ignore_case, is_word, lower_seq, starts_with,
    slice_chars, tail_after, trim, trim_chars, after_last_path_sep,
};
use crate::win_shortcut::{key_name, key_name_spec};
use vstd::prelude::*;

verus! {

/// The virtual key the paste is made with.
pub const VK_V: u16 = 0x56;

/// Left Control.
pub const VK_LCONTROL: u16 = 0xA2;

/// An unassigned key, pressed and released around a paste made while Alt or Windows is held,
/// so releasing them does not open a menu.
pub const VK_MASK: u16 = 0xE8;

/// The counter difference `now - then`, as `u32::wrapping_sub` gives it.
pub open spec fn counter_delta(now: u32, then: u32) -> int {
    if now >= then {
        now - then
    } else {
        now + 4294967296 - then
    }
}

pub fn wrapping_delta(now: u32, then: u32) -> (r: u32)
    ensures
        r == counter_delta(now, then),
{
    if now >= then {
        now - then
    } else {
        ((now as u64) + 4294967296u64 - (then as u64)) as u32
    }
}

pub open spec fn mouse_button(vk: u32) -> bool {
    vk == 0x01 || vk == 0x02 || vk == 0x04 || vk == 0x05 || vk == 0x06
}

/// Mouse buttons have virtual-key codes too, but holding one is not holding a key.
pub fn is_mouse_button(vk: u32) -> (r: bool)
    ensures
        r == mouse_button(vk),
{
    vk == 0x01 || vk == 0x02 || vk == 0x04 || vk == 0x05 || vk == 0x06
}

pub open spec fn modifier_key(vk: u32) -> bool {
    (0x10 <= vk <= 0x12) || (0xA0 <= vk <= 0xA5) || vk == 0x5B || vk == 0x5C
}

/// Shift, Ctrl, Alt and Windows, either side. They move nothing.
pub fn is_modifier(vk: u32) -> (r: bool)
    ensures
        r == modifier_key(vk),
{
    (0x10 <= vk && vk <= 0x12) || (0xA0 <= vk && vk <= 0xA5) || vk == 0x5B || vk == 0x5C
}

/// A key press that can move the caret: a real one, not an auto-repeat, not a modifier.
pub fn counts_as_typing(vk: u32, injected: bool, repeat: bool) -> (r: bool)
    ensures
        r == (!injected && !repeat && !modifier_key(vk)),
{
    !injected && !repeat && !is_modifier(vk)
}

/// Whether a key held at the keypress blocks the paste: any key but a modifier, a mouse
/// button, or the shortcut's own key.
pub fn blocks_paste_when_held(vk: u32, trigger: u32) -> (r: bool)
    ensures
        r == (!modifier_key(vk) && !mouse_button(vk) && vk != trigger),
{
    !is_modifier(vk) && !is_mouse_button(vk) && vk != trigger
}

pub open spec fn str_view(o: Option<&'static str>) -> Option<Seq<char>> {
    match o {
        Some(s) => Some(s@),
        None => None,
    }
}

/// What the counts since the keypress say: any click moved things; exactly one key press is
/// the stop press; none means the stop press was not seen, which is no proof of anything; more
/// is typing.
pub open spec fn input_moved_spec(clicks: u32, keys: u32) -> Option<Seq<char>> {
    if clicks != 0 {
        Some("clicked"@)
    } else if keys == 1 {
        None
    } else if keys == 0 {
        Some("stop-not-seen"@)
    } else {
        Some("typed"@)
    }
}

pub fn input_moved(clicks: u32, keys: u32) -> (r: Option<&'static str>)
    ensures
        str_view(r) == input_moved_spec(clicks, keys),
{
    if clicks != 0 {
        return Some("clicked");
    }
    match keys {
        1 => None,
        0 => Some("stop-not-seen"),
        _ => Some("typed"),
    }
}

pub open spec fn shell_class(class: Seq<char>) -> bool {
    class == "Progman"@ || class == "WorkerW"@ || class == "Shell_TrayWnd"@ || class
        == "Shell_SecondaryTrayWnd"@
}

/// The desktop and the taskbar are never a destination.
pub fn is_shell(class: &str) -> (r: bool)
    ensures
        r == shell_class(class@),
{
    let c = chars_of(class);
    let c = c.as_slice();
    is_word(c, "Progman") || is_word(c, "WorkerW") || is_word(c, "Shell_TrayWnd") || is_word(
        c,
        "Shell_SecondaryTrayWnd",
    )
}

/// Whether the foreground window at the keypress may be pinned: another program's, and not the
/// desktop or taskbar.
pub fn is_paste_candidate(pid: u32, own_pid: u32, class: &str) -> (r: bool)
    ensures
        r == (pid != own_pid && !shell_class(class@)),
{
    pid != own_pid && !is_shell(class)
}

// ---------------------------------------------------------------------------- the watch

/// What the keyboard and mouse hooks count while a paste destination is pinned: real clicks,
/// real key presses that can move the caret, and which keys are down (so an auto-repeat is not
/// a new press). The counters wrap, as the hooks' atomic counters do.
pub struct KeyWatch {
    held: Vec<bool>,
    clicks: u32,
    keys: u32,
}

pub open spec fn wrap_inc(n: u32) -> u32 {
    ((n + 1) % 4294967296) as u32
}

impl KeyWatch {
    #[verifier::type_invariant]
    closed spec fn well_formed(self) -> bool {
        self.held@.len() == 256
    }

    pub closed spec fn is_held(self, vk: u32) -> bool {
        self.held@[(vk % 256) as int]
    }

    pub closed spec fn clicks_spec(self) -> u32 {
        self.clicks
    }

    pub closed spec fn keys_spec(self) -> u32 {
        self.keys
    }

    pub fn new() -> (w: Self)
        ensures
            w.clicks_spec() == 0 && w.keys_spec() == 0,
            forall|vk: u32| !w.is_held(vk),
    {
        let mut held: Vec<bool> = Vec::new();
        let mut i: usize = 0;
        while i < 256
            invariant
                i <= 256,
                held@.len() == i,
                forall|j: int| 0 <= j < i ==> !held@[j],
            decreases 256 - i,
        {
            held.push(false);
            i = i + 1;
        }
        KeyWatch { held, clicks: 0, keys: 0 }
    }

    pub fn clicks(&self) -> (r: u32)
        ensures
            r == self.clicks_spec(),
    {
        self.clicks
    }

    pub fn keys(&self) -> (r: u32)
        ensures
            r == self.keys_spec(),
    {
        self.keys
    }

    /// A key event from the keyboard hook: a press (`down`) or a release (`up`), `injected` when
    /// a program sent it. Only real presses that are not repeats or modifiers are counted.
    pub fn on_key(&mut self, vk: u32, down: bool, up: bool, injected: bool)
        ensures
            final(self).clicks_spec() == old(self).clicks_spec(),
            down ==> ({
                let repeat = !injected && old(self).is_held(vk);
                &&& final(self).keys_spec() == if !injected && !repeat && !modifier_key(vk % 256) {
                    wrap_inc(old(self).keys_spec())
                } else {
                    old(self).keys_spec()
                }
                &&& final(self).is_held(vk) == (!injected || old(self).is_held(vk))
            }),
            !down && up && !injected ==> final(self).keys_spec() == old(self).keys_spec()
                && !final(self).is_held(vk),
            !down && !(up && !injected) ==> final(self).keys_spec() == old(self).keys_spec()
                && final(self).is_held(vk) == old(self).is_held(vk),
            forall|k: u32| k % 256 != vk % 256 ==> final(self).is_held(k) == old(self).is_held(k),
    {
        proof {
            use_type_invariant(&*self);
        }
        let slot = (vk % 256) as usize;
        if down {
            let repeat = !injected && self.held[slot];
            if !injected {
                self.held = crate::win_shortcut::with_flag(&self.held, slot, true);
            }
            if counts_as_typing(vk % 256, injected, repeat) {
                self.keys = if self.keys == u32::MAX { 0 } else { self.keys + 1 };
            }
        } else if !injected && up {
            self.held = crate::win_shortcut::with_flag(&self.held, slot, false);
        }
    }

    /// A button press from the mouse hook. Only real clicks count.
    pub fn on_click(&mut self, injected: bool)
        ensures
            final(self).clicks_spec() == if injected {
                old(self).clicks_spec()
            } else {
                wrap_inc(old(self).clicks_spec())
            },
            final(self).keys_spec() == old(self).keys_spec(),
            forall|k: u32| final(self).is_held(k) == old(self).is_held(k),
    {
        proof {
            use_type_invariant(&*self);
        }
        if !injected {
            self.clicks = if self.clicks == u32::MAX { 0 } else { self.clicks + 1 };
        }
    }

    /// The hooks are in: nothing counts as held but the shortcut's own key, if it is still
    /// down, so its release and repeats are recognised.
    pub fn mark_held(&mut self, trigger: u32, trigger_down: bool)
        ensures
            forall|k: u32| k < 256 ==> final(self).is_held(k) == (k == trigger && trigger_down),
            final(self).clicks_spec() == old(self).clicks_spec(),
            final(self).keys_spec() == old(self).keys_spec(),
    {
        let mut held: Vec<bool> = Vec::new();
        let mut i: usize = 0;
        while i < 256
            invariant
                i <= 256,
                held@.len() == i,
                forall|j: int| 0 <= j < i ==> held@[j] == (j == trigger && trigger_down),
            decreases 256 - i,
        {
            held.push(i as u32 == trigger && trigger_down);
            i = i + 1;
        }
        self.held = held;
    }
}

// ---------------------------------------------------------------------------- the trigger

/// The key of a shortcut: the part after its last `+`, trimmed, without a `Key` or `Digit`
/// prefix.
pub open spec fn trigger_name(accelerator: Seq<char>) -> Seq<char> {
    let k = trim(tail_after(accelerator, char_pred('+')));
    if "Key"@.is_prefix_of(k) {
        k.subrange(3, k.len() as int)
    } else if "Digit"@.is_prefix_of(k) {
        k.subrange(5, k.len() as int)
    } else {
        k
    }
}

/// Whether `vk` is named `name`, case aside.
pub open spec fn names_key(vk: u32, name: Seq<char>) -> bool {
    key_name_spec(vk) matches Some(n) && eq_ignore_case(n, name)
}

fn trigger_name_chars(accelerator: &str) -> (r: Vec<char>)
    ensures
        r@ == trigger_name(accelerator@),
{
    let a = chars_of(accelerator);
    let last = crate::text::tail_after_plus(a.as_slice());
    let k = trim_chars(last.as_slice());
    let key_p = chars_of("Key");
    let digit_p = chars_of("Digit");
    proof {
        reveal_strlit("Key");
        reveal_strlit("Digit");
    }
    if starts_with(k.as_slice(), key_p.as_slice()) {
        slice_chars(k.as_slice(), 3, k.len())
    } else if starts_with(k.as_slice(), digit_p.as_slice()) {
        slice_chars(k.as_slice(), 5, k.len())
    } else {
        k
    }
}

/// The virtual key of a shortcut's own key, so that holding it (the stop press) does not count
/// as typing: the lowest code whose name matches, or 0 when none does.
pub fn trigger_key_of(accelerator: &str) -> (r: u32)
    ensures
        r < 256,
        (exists|vk: u32| vk < 256 && names_key(vk, trigger_name(accelerator@))) ==> names_key(
            r,
            trigger_name(accelerator@),
        ) && forall|v: u32| v < r ==> !names_key(v, trigger_name(accelerator@)),
        !(exists|vk: u32| vk < 256 && names_key(vk, trigger_name(accelerator@))) ==> r == 0,
{
    let key = trigger_name_chars(accelerator);
    let mut vk: u32 = 0;
    while vk < 256
        invariant
            key@ == trigger_name(accelerator@),
            vk <= 256,
            forall|v: u32| v < vk ==> !names_key(v, key@),
        decreases 256 - vk,
    {
        match key_name(vk) {
            Some(n) => {
                let c = chars_of(n.as_str());
                if eq_ignore_ascii_case(c.as_slice(), key.as_slice()) {
                    assert(names_key(vk, trigger_name(accelerator@)));
                    return vk;
                }
            },
            None => {},
        }
        vk = vk + 1;
    }
    0
}

// ---------------------------------------------------------------------------- the keystrokes

/// Keys sent with the extended flag.
pub fn is_extended_key(vk: u16) -> (r: bool)
    ensures
        r == (vk == 0xA3 || vk == 0xA5 || vk == 0x5B || vk == 0x5C),
{
    vk == 0xA3 || vk == 0xA5 || vk == 0x5B || vk == 0x5C
}

/// Alt or Windows, which open a menu when released alone.
pub open spec fn menu_key(vk: u16) -> bool {
    vk == 0xA4 || vk == 0xA5 || vk == 0x5B || vk == 0x5C
}

pub open spec fn releases(keys: Seq<u16>, up: bool) -> Seq<(u16, bool)> {
    Seq::new(keys.len(), |i: int| (keys[i], up))
}

/// The keystrokes of a paste, each a key and whether it is released: the held modifiers are
/// let go, Ctrl+V is pressed (Ctrl only if it was not already down), the modifiers are pressed
/// again, and when Alt or Windows is involved an unassigned key is tapped first and last so no
/// menu opens.
pub open spec fn paste_keys_spec(ctrl_held: bool, others: Seq<u16>) -> Seq<(u16, bool)> {
    let masked = exists|i: int| 0 <= i < others.len() && menu_key(#[trigger] others[i]);
    let mask = if masked { seq![(VK_MASK, false), (VK_MASK, true)] } else { seq![] };
    mask + releases(others, true) + (if ctrl_held { seq![] } else { seq![(VK_LCONTROL, false)] })
        + seq![(VK_V, false), (VK_V, true)] + (if ctrl_held { seq![] } else { seq![(VK_LCONTROL, true)] })
        + releases(others, false) + mask
}

fn push_all(out: &mut Vec<(u16, bool)>, keys: &[u16], up: bool)
    ensures
        final(out)@ == old(out)@ + releases(keys@, up),
{
    let ghost start = out@;
    let mut i: usize = 0;
    while i < keys.len()
        invariant
            i <= keys@.len(),
            out@ =~= start + releases(keys@.take(i as int), up),
        decreases keys@.len() - i,
    {
        out.push((keys[i], up));
        i = i + 1;
    }
    assert(keys@.take(keys@.len() as int) =~= keys@);
}

pub fn paste_keys(ctrl_held: bool, others_held: &[u16]) -> (r: Vec<(u16, bool)>)
    ensures
        r@ == paste_keys_spec(ctrl_held, others_held@),
{
    let mut masked = false;
    let mut i: usize = 0;
    while i < others_held.len()
        invariant
            i <= others_held@.len(),
            masked == exists|j: int| 0 <= j < i && menu_key(#[trigger] others_held@[j]),
        decreases others_held@.len() - i,
    {
        let k = others_held[i];
        if k == 0xA4 || k == 0xA5 || k == 0x5B || k == 0x5C {
            masked = true;
        }
        i = i + 1;
    }
    let ghost mask = if masked { seq![(VK_MASK, false), (VK_MASK, true)] } else { seq![] };
    let mut keys: Vec<(u16, bool)> = Vec::new();
    if masked {
        keys.push((VK_MASK, false));
        keys.push((VK_MASK, true));
    }
    push_all(&mut keys, others_held, true);
    if !ctrl_held {
        keys.push((VK_LCONTROL, false));
    }
    keys.push((VK_V, false));
    keys.push((VK_V, true));
    if !ctrl_held {
        keys.push((VK_LCONTROL, true));
    }
    push_all(&mut keys, others_held, false);
    if masked {
        keys.push((VK_MASK, false));
        keys.push((VK_MASK, true));
    }
    assert(keys@ =~= paste_keys_spec(ctrl_held, others_held@));
    keys
}

// ---------------------------------------------------------------------------- the stamp

/// What was in front at the keypress, and the counts then.
#[derive(Debug, Clone, PartialEq, Eq)]
pub struct FocusStamp {
    window: isize,
    focus: isize,
    pid: u32,
    class: String,
    clicks: u32,
    keys: u32,
    held_other: bool,
}

/// What is in front now: the foreground window, its focused child, and its process.
pub type Front = (isize, isize, u32);

impl FocusStamp {
    pub closed spec fn window_spec(self) -> isize {
        self.window
    }

    pub closed spec fn focus_spec(self) -> isize {
        self.focus
    }

    pub closed spec fn pid_spec(self) -> u32 {
        self.pid
    }

    pub closed spec fn class_spec(self) -> Seq<char> {
        self.class@
    }

    pub closed spec fn clicks_spec(self) -> u32 {
        self.clicks
    }

    pub closed spec fn keys_spec(self) -> u32 {
        self.keys
    }

    pub closed spec fn held_other_spec(self) -> bool {
        self.held_other
    }

    /// A stamp of the foreground window `front`, with its class, the counts at the keypress,
    /// and whether another key was already held.
    pub fn new(front: Front, class: String, clicks: u32, keys: u32, held_other: bool) -> (s: Self)
        ensures
            s.window_spec() == front.0,
            s.focus_spec() == front.1,
            s.pid_spec() == front.2,
            s.class_spec() == class@,
            s.clicks_spec() == clicks,
            s.keys_spec() == keys,
            s.held_other_spec() == held_other,
    {
        FocusStamp { window: front.0, focus: front.1, pid: front.2, class, clicks, keys, held_other }
    }

    pub fn pid(&self) -> (r: u32)
        ensures
            r == self.pid_spec(),
    {
        self.pid
    }

    /// Chromium's windows, which also take the browser extension.
    pub fn is_chromium_window(&self) -> (r: bool)
        ensures
            r == "Chrome_WidgetWin"@.is_prefix_of(self.class_spec()),
    {
        let c = chars_of(self.class.as_str());
        let p = chars_of("Chrome_WidgetWin");
        starts_with(c.as_slice(), p.as_slice())
    }

    /// Whether the foreground window or its focus changed.
    pub open spec fn window_moved_spec(self, front: Option<Front>) -> Option<Seq<char>> {
        match front {
            None => Some("no-front-window"@),
            Some((w, f, _)) => if w != self.window_spec() {
                Some("window-changed"@)
            } else if f != self.focus_spec() {
                Some("focus-changed"@)
            } else {
                None
            },
        }
    }

    fn window_moved(&self, front: Option<Front>) -> (r: Option<&'static str>)
        ensures
            str_view(r) == self.window_moved_spec(front),
    {
        match front {
            None => Some("no-front-window"),
            Some((w, f, _)) => if w != self.window {
                Some("window-changed")
            } else if f != self.focus {
                Some("focus-changed")
            } else {
                None
            },
        }
    }

    /// Anything at all since the keypress, the stop press included.
    pub open spec fn moved_since_keypress_spec(self, front: Option<Front>, clicks_now: u32, keys_now: u32) -> Option<Seq<char>> {
        if self.held_other_spec() {
            Some("key-held-at-start"@)
        } else if self.window_moved_spec(front) is Some {
            self.window_moved_spec(front)
        } else if counter_delta(clicks_now, self.clicks_spec()) == 0 && counter_delta(keys_now, self.keys_spec()) == 0 {
            None
        } else if counter_delta(clicks_now, self.clicks_spec()) == 0 {
            Some("typed"@)
        } else {
            Some("clicked"@)
        }
    }

    pub fn moved_since_keypress(&self, front: Option<Front>, clicks_now: u32, keys_now: u32) -> (r: Option<&'static str>)
        ensures
            str_view(r) == self.moved_since_keypress_spec(front, clicks_now, keys_now),
    {
        if self.held_other {
            return Some("key-held-at-start");
        }
        match self.window_moved(front) {
            Some(why) => Some(why),
            None => {
                let clicks = wrapping_delta(clicks_now, self.clicks);
                let keys = wrapping_delta(keys_now, self.keys);
                if clicks == 0 && keys == 0 {
                    None
                } else if clicks == 0 {
                    Some("typed")
                } else {
                    Some("clicked")
                }
            },
        }
    }

    /// Whether anything moved since the keypress, the stop press allowed for.
    pub open spec fn moved_spec(self, front: Option<Front>, clicks_now: u32, keys_now: u32) -> Option<Seq<char>> {
        if self.held_other_spec() {
            Some("key-held-at-start"@)
        } else if self.window_moved_spec(front) is Some {
            self.window_moved_spec(front)
        } else {
            input_moved_spec(
                counter_delta(clicks_now, self.clicks_spec()) as u32,
                counter_delta(keys_now, self.keys_spec()) as u32,
            )
        }
    }

    pub fn moved(&self, front: Option<Front>, clicks_now: u32, keys_now: u32) -> (r: Option<&'static str>)
        ensures
            str_view(r) == self.moved_spec(front, clicks_now, keys_now),
    {
        if self.held_other {
            return Some("key-held-at-start");
        }
        let clicks = wrapping_delta(clicks_now, self.clicks);
        let keys = wrapping_delta(keys_now, self.keys);
        match self.window_moved(front) {
            Some(why) => Some(why),
            None => input_moved(clicks, keys),
        }
    }
}

/// A paste into the window stamped at the keypress.
pub struct PasteDestination {
    stamp: FocusStamp,
    label: String,
    borrow: bool,
}

impl PasteDestination {
    pub closed spec fn stamp_spec(self) -> FocusStamp {
        self.stamp
    }

    pub closed spec fn label_spec(self) -> Seq<char> {
        self.label@
    }

    pub closed spec fn borrows(self) -> bool {
        self.borrow
    }

    /// `borrow`: paste from the normal clipboard, borrowed for a moment, because the text went
    /// to Huck's own.
    pub fn new(stamp: FocusStamp, label: String, borrow: bool) -> (d: Self)
        ensures
            d.stamp_spec() == stamp,
            d.label_spec() == label@,
            d.borrows() == borrow,
    {
        PasteDestination { stamp, label, borrow }
    }

    pub fn label(&self) -> (r: String)
        ensures
            r@ == self.label_spec(),
    {
        let mut s = String::new();
        crate::text::push_str(&mut s, self.label.as_str());
        s
    }

    pub fn stamp(&self) -> (r: &FocusStamp)
        ensures
            *r == self.stamp_spec(),
    {
        &self.stamp
    }

    pub fn borrow(&self) -> (r: bool)
        ensures
            r == self.borrows(),
    {
        self.borrow
    }

    /// Alive exactly while nothing has moved.
    pub fn liveness(&self, front: Option<Front>, clicks_now: u32, keys_now: u32) -> (l: Liveness)
        ensures
            match self.stamp_spec().moved_spec(front, clicks_now, keys_now) {
                None => l is Alive,
                Some(why) => l matches Liveness::Dead { reason } && reason@ == why,
            },
    {
        match self.stamp.moved(front, clicks_now, keys_now) {
            None => Liveness::Alive,
            Some(why) => Liveness::dead(why),
        }
    }

    /// The check in front of the keystroke: lost if anything moved, else whether to borrow the
    /// normal clipboard for it.
    pub fn deliver_check(&self, front: Option<Front>, clicks_now: u32, keys_now: u32) -> (r: Result<bool, DeliveryError>)
        ensures
            self.stamp_spec().moved_spec(front, clicks_now, keys_now) is Some ==> r == Err::<
                bool,
                DeliveryError,
            >(DeliveryError::DestinationLost),
            self.stamp_spec().moved_spec(front, clicks_now, keys_now) is None ==> r == Ok::<
                bool,
                DeliveryError,
            >(self.borrows()),
    {
        if self.stamp.moved(front, clicks_now, keys_now).is_some() {
            Err(DeliveryError::DestinationLost)
        } else {
            Ok(self.borrow)
        }
    }
}

/// A paste made while only modifiers are held presses nothing but V, the modifiers and the
/// unassigned mask key: never Enter, never a key that types.
pub proof fn law_a_paste_presses_only_ctrl_v(ctrl_held: bool, others: Seq<u16>)
    requires
        forall|i: int| 0 <= i < others.len() ==> modifier_key(#[trigger] others[i] as u32),
    ensures
        forall|j: int|
            0 <= j < paste_keys_spec(ctrl_held, others).len() ==> ({
                let k = (#[trigger] paste_keys_spec(ctrl_held, others)[j]).0;
                k == VK_V || k == VK_MASK || modifier_key(k as u32)
            }),
{
    let seq_keys = paste_keys_spec(ctrl_held, others);
    assert forall|j: int| 0 <= j < seq_keys.len() implies ({
        let k = (#[trigger] seq_keys[j]).0;
        k == VK_V || k == VK_MASK || modifier_key(k as u32)
    }) by {
        let masked = exists|i: int| 0 <= i < others.len() && menu_key(#[trigger] others[i]);
        let mask: Seq<(u16, bool)> = if masked { seq![(VK_MASK, false), (VK_MASK, true)] } else { seq![] };
        let up = releases(others, true);
        let c1: Seq<(u16, bool)> = if ctrl_held { seq![] } else { seq![(VK_LCONTROL, false)] };
        let v: Seq<(u16, bool)> = seq![(VK_V, false), (VK_V, true)];
        let c2: Seq<(u16, bool)> = if ctrl_held { seq![] } else { seq![(VK_LCONTROL, true)] };
        let down = releases(others, false);
        assert(seq_keys == mask + up + c1 + v + c2 + down + mask);
        let a = mask.len();
        let b = a + up.len();
        let c = b + c1.len();
        let d = c + v.len();
        let e = d + c2.len();
        let f = e + down.len();
        if j < a {
            assert(seq_keys[j] == mask[j]);
        } else if j < b {
            assert(seq_keys[j] == up[j - a]);
            assert(up[j - a].0 == others[j - a]);
        } else if j < c {
            assert(seq_keys[j] == c1[j - b]);
        } else if j < d {
            assert(seq_keys[j] == v[j - c]);
        } else if j < e {
            assert(seq_keys[j] == c2[j - d]);
        } else if j < f {
            assert(seq_keys[j] == down[j - e]);
            assert(down[j - e].0 == others[j - e]);
        } else {
            assert(seq_keys[j] == mask[j - f]);
        }
    }
}

} // verus!
