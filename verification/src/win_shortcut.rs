//! Choosing a shortcut on Windows by pressing it.
//!
//! While the choice is open, every key press is read: modifiers are tracked, Escape alone
//! cancels, and the first real key with whatever modifiers are held becomes the shortcut, in
//! the accelerator syntax the shortcut registry understands. Exactly one answer is given per
//! prompt, and a prompt that hears nothing for fifteen seconds answers `Cancel`.

use crate::text::{append_chars, char_from_ascii, chars_of, decimal, decimal_chars, join, join_chars, string_of, views};
use vstd::prelude::*;

verus! {

/// How long a prompt waits for a key, in milliseconds.
pub const TIMEOUT_MS: u64 = 15000;

/// What the prompt heard.
#[derive(Debug, Clone, PartialEq, Eq)]
pub enum Heard {
    /// A whole shortcut, in accelerator syntax.
    Keys(String),
    Cancel,
}

/// The key a virtual-key code stands for, named as the shortcut registry names it. Modifiers
/// alone, and keys without a name, have none.
pub open spec fn key_name_spec(vk: u32) -> Option<Seq<char>> {
    if (0x41 <= vk <= 0x5A) || (0x30 <= vk <= 0x39) {
        Some(seq![vk as char])
    } else if 0x70 <= vk <= 0x87 {
        Some("F"@ + decimal((vk - 0x6F) as nat))
    } else if 0x60 <= vk <= 0x69 {
        Some("Numpad"@ + decimal((vk - 0x60) as nat))
    } else {
        match named_key(vk) {
            Some(n) => Some(n),
            None => None,
        }
    }
}

pub open spec fn named_key(vk: u32) -> Option<Seq<char>> {
    if vk == 0x20 {
        Some("Space"@)
    } else if vk == 0x0D {
        Some("Enter"@)
    } else if vk == 0x09 {
        Some("Tab"@)
    } else if vk == 0x08 {
        Some("Backspace"@)
    } else if vk == 0x2E {
        Some("Delete"@)
    } else if vk == 0x2D {
        Some("Insert"@)
    } else if vk == 0x24 {
        Some("Home"@)
    } else if vk == 0x23 {
        Some("End"@)
    } else if vk == 0x21 {
        Some("PageUp"@)
    } else if vk == 0x22 {
        Some("PageDown"@)
    } else if vk == 0x25 {
        Some("ArrowLeft"@)
    } else if vk == 0x26 {
        Some("ArrowUp"@)
    } else if vk == 0x27 {
        Some("ArrowRight"@)
    } else if vk == 0x28 {
        Some("ArrowDown"@)
    } else if vk == 0xC0 {
        Some("Backquote"@)
    } else if vk == 0xBD {
        Some("Minus"@)
    } else if vk == 0xBB {
        Some("Equal"@)
    } else if vk == 0xDB {
        Some("BracketLeft"@)
    } else if vk == 0xDD {
        Some("BracketRight"@)
    } else if vk == 0xDC {
        Some("Backslash"@)
    } else if vk == 0xBA {
        Some("Semicolon"@)
    } else if vk == 0xDE {
        Some("Quote"@)
    } else if vk == 0xBC {
        Some("Comma"@)
    } else if vk == 0xBE {
        Some("Period"@)
    } else if vk == 0xBF {
        Some("Slash"@)
    } else {
        None
    }
}

fn named_key_text(vk: u32) -> (r: Option<&'static str>)
    ensures
        match r {
            Some(s) => named_key(vk) == Some(s@),
            None => named_key(vk) is None,
        },
{
    let n = if vk == 0x20 {
        "Space"
    } else if vk == 0x0D {
        "Enter"
    } else if vk == 0x09 {
        "Tab"
    } else if vk == 0x08 {
        "Backspace"
    } else if vk == 0x2E {
        "Delete"
    } else if vk == 0x2D {
        "Insert"
    } else if vk == 0x24 {
        "Home"
    } else if vk == 0x23 {
        "End"
    } else if vk == 0x21 {
        "PageUp"
    } else if vk == 0x22 {
        "PageDown"
    } else if vk == 0x25 {
        "ArrowLeft"
    } else if vk == 0x26 {
        "ArrowUp"
    } else if vk == 0x27 {
        "ArrowRight"
    } else if vk == 0x28 {
        "ArrowDown"
    } else if vk == 0xC0 {
        "Backquote"
    } else if vk == 0xBD {
        "Minus"
    } else if vk == 0xBB {
        "Equal"
    } else if vk == 0xDB {
        "BracketLeft"
    } else if vk == 0xDD {
        "BracketRight"
    } else if vk == 0xDC {
        "Backslash"
    } else if vk == 0xBA {
        "Semicolon"
    } else if vk == 0xDE {
        "Quote"
    } else if vk == 0xBC {
        "Comma"
    } else if vk == 0xBE {
        "Period"
    } else if vk == 0xBF {
        "Slash"
    } else {
        return None;
    };
    Some(n)
}

/// The name of the key `vk`, as the shortcut registry spells it.
pub fn key_name(vk: u32) -> (r: Option<String>)
    ensures
        match r {
            Some(s) => key_name_spec(vk) == Some(s@),
            None => key_name_spec(vk) is None,
        },
{
    if (0x41 <= vk && vk <= 0x5A) || (0x30 <= vk && vk <= 0x39) {
        let c = char_from_ascii(vk);
        let mut s = String::new();
        crate::text::push_char(&mut s, c);
        assert(s@ =~= seq![vk as char]);
        return Some(s);
    }
    if 0x70 <= vk && vk <= 0x87 {
        let mut v: Vec<char> = Vec::new();
        v.push('F');
        let d = decimal_chars((vk - 0x6F) as u64);
        append_chars(&mut v, d.as_slice());
        proof {
            reveal_strlit("F");
        }
        assert(v@ =~= "F"@ + d@);
        return Some(string_of(v.as_slice()));
    }
    if 0x60 <= vk && vk <= 0x69 {
        let mut v = chars_of("Numpad");
        let d = decimal_chars((vk - 0x60) as u64);
        append_chars(&mut v, d.as_slice());
        return Some(string_of(v.as_slice()));
    }
    match named_key_text(vk) {
        Some(n) => Some(n.to_owned()),
        None => None,
    }
}

/// The parts of an accelerator, modifiers in the registry's order: Alt, Ctrl, Super, Shift.
pub open spec fn accelerator_parts(ctrl: bool, alt: bool, shift: bool, win: bool, key: Seq<char>) -> Seq<
    Seq<char>,
> {
    (if alt { seq!["Alt"@] } else { seq![] }) + (if ctrl { seq!["Ctrl"@] } else { seq![] }) + (if win {
        seq!["Super"@]
    } else {
        seq![]
    }) + (if shift { seq!["Shift"@] } else { seq![] }) + seq![key]
}

pub open spec fn accelerator_spec(ctrl: bool, alt: bool, shift: bool, win: bool, key: Seq<char>) -> Seq<char> {
    join(accelerator_parts(ctrl, alt, shift, win, key), "+"@)
}

/// A shortcut in accelerator syntax, e.g. `"Alt+Ctrl+Shift+V"`.
pub fn accelerator(ctrl: bool, alt: bool, shift: bool, win: bool, key: &str) -> (r: String)
    ensures
        r@ == accelerator_spec(ctrl, alt, shift, win, key@),
{
    let mut parts: Vec<Vec<char>> = Vec::new();
    if alt {
        parts.push(chars_of("Alt"));
    }
    if ctrl {
        parts.push(chars_of("Ctrl"));
    }
    if win {
        parts.push(chars_of("Super"));
    }
    if shift {
        parts.push(chars_of("Shift"));
    }
    parts.push(chars_of(key));
    assert(views(parts@) =~= accelerator_parts(ctrl, alt, shift, win, key@));
    let plus = chars_of("+");
    let j = join_chars(&parts, plus.as_slice());
    string_of(j.as_slice())
}

/// Which modifier a virtual-key code is, if any.
#[derive(Debug, Clone, Copy, PartialEq, Eq, Structural)]
pub enum Modifier {
    Shift,
    Ctrl,
    Alt,
    Win,
}

pub open spec fn modifier_of_spec(vk: u32) -> Option<Modifier> {
    if vk == 0x10 || vk == 0xA0 || vk == 0xA1 {
        Some(Modifier::Shift)
    } else if vk == 0x11 || vk == 0xA2 || vk == 0xA3 {
        Some(Modifier::Ctrl)
    } else if vk == 0x12 || vk == 0xA4 || vk == 0xA5 {
        Some(Modifier::Alt)
    } else if vk == 0x5B || vk == 0x5C {
        Some(Modifier::Win)
    } else {
        None
    }
}

pub fn modifier_of(vk: u32) -> (r: Option<Modifier>)
    ensures
        r == modifier_of_spec(vk),
{
    if vk == 0x10 || vk == 0xA0 || vk == 0xA1 {
        Some(Modifier::Shift)
    } else if vk == 0x11 || vk == 0xA2 || vk == 0xA3 {
        Some(Modifier::Ctrl)
    } else if vk == 0x12 || vk == 0xA4 || vk == 0xA5 {
        Some(Modifier::Alt)
    } else if vk == 0x5B || vk == 0x5C {
        Some(Modifier::Win)
    } else {
        None
    }
}

/// The state of one prompt: the modifiers down, the keys held (so an auto-repeat is not a new
/// press), whether the prompt has answered, and when it gives up.
pub struct Capture {
    ctrl: bool,
    alt: bool,
    shift: bool,
    win: bool,
    held: Vec<bool>,
    heard: bool,
    deadline: u64,
}

/// What a key press means with the given modifiers down: Escape alone cancels, a named key
/// is a shortcut, anything else is nothing.
pub open spec fn meaning(vk: u32, ctrl: bool, alt: bool, shift: bool, win: bool) -> Option<
    Option<Seq<char>>,
> {
    if vk == 0x1B && !(ctrl || alt || shift || win) {
        Some(None)
    } else {
        match key_name_spec(vk) {
            Some(k) => Some(Some(accelerator_spec(ctrl, alt, shift, win, k))),
            None => None,
        }
    }
}

/// The modifiers down after `m` went down (`true`) or up (`false`).
pub open spec fn with_modifier(mods: (bool, bool, bool, bool), m: Modifier, down: bool) -> (
    bool,
    bool,
    bool,
    bool,
) {
    match m {
        Modifier::Ctrl => (down, mods.1, mods.2, mods.3),
        Modifier::Alt => (mods.0, down, mods.2, mods.3),
        Modifier::Shift => (mods.0, mods.1, down, mods.3),
        Modifier::Win => (mods.0, mods.1, mods.2, down),
    }
}

/// A heard answer, by value: `None` for `Cancel`.
pub open spec fn heard_view(h: Heard) -> Option<Seq<char>> {
    match h {
        Heard::Keys(k) => Some(k@),
        Heard::Cancel => None,
    }
}

/// A copy of `flags` with the flag at `i` set to `v`.
pub(crate) fn with_flag(flags: &Vec<bool>, i: usize, v: bool) -> (r: Vec<bool>)
    requires
        i < flags@.len(),
    ensures
        r@ == flags@.update(i as int, v),
{
    let mut r: Vec<bool> = Vec::new();
    let mut k: usize = 0;
    while k < flags.len()
        invariant
            k <= flags@.len(),
            i < flags@.len(),
            r@ =~= flags@.update(i as int, v).take(k as int),
        decreases flags@.len() - k,
    {
        if k == i {
            r.push(v);
        } else {
            r.push(flags[k]);
        }
        k = k + 1;
    }
    assert(flags@.update(i as int, v).take(flags@.len() as int) =~= flags@.update(i as int, v));
    r
}

impl Capture {
    /// One held flag per virtual-key code.
    #[verifier::type_invariant]
    closed spec fn well_formed(self) -> bool {
        self.held@.len() == 256
    }

    pub closed spec fn is_held(self, vk: u32) -> bool {
        self.held@[(vk % 256) as int]
    }

    /// The modifiers down: Ctrl, Alt, Shift, Windows.
    pub closed spec fn modifiers(self) -> (bool, bool, bool, bool) {
        (self.ctrl, self.alt, self.shift, self.win)
    }

    pub closed spec fn has_answered(self) -> bool {
        self.heard
    }

    pub closed spec fn deadline_ms(self) -> u64 {
        self.deadline
    }

    /// A new prompt at time `now_ms`: nothing held, nothing heard.
    pub fn start(now_ms: u64) -> (c: Self)
        requires
            now_ms <= u64::MAX - TIMEOUT_MS,
        ensures
            c.modifiers() == (false, false, false, false),
            forall|vk: u32| !c.is_held(vk),
            !c.has_answered(),
            c.deadline_ms() == now_ms + TIMEOUT_MS,
    {
        let mut held: Vec<bool> = Vec::new();
        let mut i: usize = 0;
        while i < 256
            invariant
                i <= 256,
                held@.len() == i,
                forall|j: int| 0 <= j < i ==> !held@[j],
            decreases 256 - i,
        {
            held.push(false);
            i = i + 1;
        }
        Capture {
            ctrl: false,
            alt: false,
            shift: false,
            win: false,
            held,
            heard: false,
            deadline: now_ms + TIMEOUT_MS,
        }
    }

    /// The prompt was shown again: more time, and it may answer once more.
    pub fn extend(&mut self, now_ms: u64)
        requires
            now_ms <= u64::MAX - TIMEOUT_MS,
        ensures
            final(self).deadline_ms() == now_ms + TIMEOUT_MS,
            !final(self).has_answered(),
            forall|vk: u32| final(self).is_held(vk) == old(self).is_held(vk),
            final(self).modifiers() == old(self).modifiers(),
    {
        proof {
            use_type_invariant(&*self);
        }
        self.deadline = now_ms + TIMEOUT_MS;
        self.heard = false;
    }

    /// A key event: `down` for a press, `up` for a release. Returns the answer to deliver, if
    /// this press is the one that answers the prompt.
    ///
    /// Modifiers only update what is held. A release clears the key. A press answers only when
    /// it means something, is not an auto-repeat, and the prompt has not already answered.
    pub fn on_key(&mut self, vk: u32, down: bool, up: bool) -> (r: Option<Heard>)
        ensures
            final(self).deadline_ms() == old(self).deadline_ms(),
            modifier_of_spec(vk) is Some ==> r is None && final(self).is_held(vk) == old(
                self,
            ).is_held(vk) && final(self).has_answered() == old(self).has_answered(),
            modifier_of_spec(vk) is None && up ==> r is None && !final(self).is_held(vk)
                && final(self).has_answered() == old(self).has_answered(),
            modifier_of_spec(vk) is None && !up && !down ==> r is None && final(self).is_held(vk)
                == old(self).is_held(vk) && final(self).has_answered() == old(self).has_answered(),
            modifier_of_spec(vk) is None && !up && down ==> {
                let repeat = old(self).is_held(vk);
                let (ctrl, alt, shift, win) = old(self).modifiers();
                let m = meaning(vk, ctrl, alt, shift, win);
                &&& final(self).is_held(vk)
                &&& (m is Some && !repeat && !old(self).has_answered()) ==> (r matches Some(h)
                    && Some(heard_view(h)) == m && final(self).has_answered())
                &&& !(m is Some && !repeat && !old(self).has_answered()) ==> (r is None
                    && final(self).has_answered() == old(self).has_answered())
            },
            forall|k: u32| k % 256 != vk % 256 ==> final(self).is_held(k) == old(self).is_held(k),
            modifier_of_spec(vk) matches Some(m) ==> final(self).modifiers() == if down || up {
                with_modifier(old(self).modifiers(), m, down)
            } else {
                old(self).modifiers()
            },
            modifier_of_spec(vk) is None ==> final(self).modifiers() == old(self).modifiers(),
    {
        proof {
            use_type_invariant(&*self);
        }
        match modifier_of(vk) {
            Some(m) => {
                if down || up {
                    match m {
                        Modifier::Shift => self.shift = down,
                        Modifier::Ctrl => self.ctrl = down,
                        Modifier::Alt => self.alt = down,
                        Modifier::Win => self.win = down,
                    }
                }
                return None;
            },
            None => {},
        }
        let slot = (vk % 256) as usize;
        if up {
            self.held = with_flag(&self.held, slot, false);
            return None;
        }
        if !down {
            return None;
        }
        let repeat = self.held[slot];
        self.held = with_flag(&self.held, slot, true);
        let (ctrl, alt, shift, win) = (self.ctrl, self.alt, self.shift, self.win);
        let heard = if vk == 0x1B && !(ctrl || alt || shift || win) {
            Some(Heard::Cancel)
        } else {
            match key_name(vk) {
                Some(key) => Some(Heard::Keys(accelerator(ctrl, alt, shift, win, key.as_str()))),
                None => None,
            }
        };
        match heard {
            Some(h) => {
                if !repeat && !self.heard {
                    self.heard = true;
                    Some(h)
                } else {
                    None
                }
            },
            None => None,
        }
    }

    /// The clock ticked to `now_ms`: past the deadline, a prompt that has not answered answers
    /// `Cancel`, once.
    pub fn tick(&mut self, now_ms: u64) -> (r: Option<Heard>)
        ensures
            (now_ms > old(self).deadline_ms() && !old(self).has_answered()) ==> (r == Some(
                Heard::Cancel,
            ) && final(self).has_answered()),
            !(now_ms > old(self).deadline_ms() && !old(self).has_answered()) ==> (r is None
                && final(self).has_answered() == old(self).has_answered()),
            final(self).deadline_ms() == old(self).deadline_ms(),
            forall|vk: u32| final(self).is_held(vk) == old(self).is_held(vk),
    {
        proof {
            use_type_invariant(&*self);
        }
        if now_ms > self.deadline && !self.heard {
            self.heard = true;
            Some(Heard::Cancel)
        } else {
            None
        }
    }
}

/// Joined parts begin with the first part and the separator, once there are two or more.
proof fn lemma_join_starts_with_first(ps: Seq<Seq<char>>, sep: Seq<char>)
    requires
        ps.len() >= 2,
    ensures
        (ps[0] + sep).is_prefix_of(join(ps, sep)),
    decreases ps.len(),
{
    let j = join(ps, sep);
    if ps.len() == 2 {
        let d = ps.drop_last();
        assert(d.len() == 1 && d[0] == ps[0]);
        assert(join(d, sep) == ps[0]);
        assert(ps.last() == ps[1]);
        assert(j == ps[0] + sep + ps[1]);
        assert((ps[0] + sep + ps[1]).subrange(0, (ps[0] + sep).len() as int) =~= ps[0] + sep);
    } else {
        let d = ps.drop_last();
        lemma_join_starts_with_first(d, sep);
        let jd = join(d, sep);
        assert(j == jd + sep + ps.last());
        assert((jd + sep + ps.last()).subrange(0, (ps[0] + sep).len() as int) =~= jd.subrange(
            0,
            (ps[0] + sep).len() as int,
        ));
    }
}

/// Either Alt key counts as Alt, whichever code the keyboard reports (the generic one, or the
/// left or right key's own): with it held, pressing any named key answers a shortcut that
/// begins with `Alt+`, whatever else is held.
pub proof fn law_either_alt_key_makes_an_alt_shortcut(
    alt_vk: u32,
    key_vk: u32,
    mods: (bool, bool, bool, bool),
)
    requires
        alt_vk == 0x12 || alt_vk == 0xA4 || alt_vk == 0xA5,
        key_name_spec(key_vk) is Some,
    ensures
        modifier_of_spec(alt_vk) matches Some(m) && with_modifier(mods, m, true).1,
        ({
            let held = with_modifier(mods, Modifier::Alt, true);
            meaning(key_vk, held.0, held.1, held.2, held.3) matches Some(Some(acc))
                && ("Alt+"@).is_prefix_of(acc)
        }),
{
    let held = with_modifier(mods, Modifier::Alt, true);
    let k = key_name_spec(key_vk)->0;
    let parts = accelerator_parts(held.0, true, held.2, held.3, k);
    assert(parts.len() >= 2);
    assert(parts[0] == "Alt"@);
    lemma_join_starts_with_first(parts, "+"@);
    reveal_strlit("Alt+");
    reveal_strlit("Alt");
    reveal_strlit("+");
    assert("Alt"@ + "+"@ =~= "Alt+"@);
    if key_vk == 0x1B {
        assert(held.1);
    }
}

/// Each modifier is recognised by its generic code and by the codes of its left and right
/// keys, as a low-level hook reports them; nothing else is a modifier.
pub proof fn law_left_and_right_keys_are_modifiers(vk: u32)
    ensures
        (vk == 0x10 || vk == 0xA0 || vk == 0xA1) <==> modifier_of_spec(vk) == Some(Modifier::Shift),
        (vk == 0x11 || vk == 0xA2 || vk == 0xA3) <==> modifier_of_spec(vk) == Some(Modifier::Ctrl),
        (vk == 0x12 || vk == 0xA4 || vk == 0xA5) <==> modifier_of_spec(vk) == Some(Modifier::Alt),
        (vk == 0x5B || vk == 0x5C) <==> modifier_of_spec(vk) == Some(Modifier::Win),
{
}

} // verus!
