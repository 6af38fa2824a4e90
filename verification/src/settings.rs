//! Local settings. Small on purpose: each field is something that genuinely differs between
//! machines or between people.
//!
//! Reading and writing the settings file is the application's job; this module holds the
//! values, their defaults, and the rules about shortcuts.

use crate::platform::Platform;
use crate::text::{
    chars_of, is_word, join, join_chars, lower_seq, split, split_chars, string_of,
    to_ascii_lowercase, to_uppercase, trim, trim_chars, unicode_upper, views,
};
use vstd::prelude::*;

verus! {

/// Where the safety-net copy of every dictation goes: one clipboard, never both.
#[derive(Debug, Clone, Copy, PartialEq, Eq, Structural)]
pub enum ClipboardChoice {
    /// The normal clipboard: paste with Cmd+V (Ctrl+V on Windows).
    System,
    /// Huck's own clipboard, so dictation never overwrites something copied on purpose.
    /// Pasted with `paste_shortcut`, and shared by name with Huck's other programs.
    Huck,
}

impl Default for ClipboardChoice {
    fn default() -> (c: Self)
        ensures
            c is System,
    {
        ClipboardChoice::System
    }
}

#[derive(Debug, Clone, PartialEq, Eq)]
pub struct Settings {
    /// Global start/stop shortcut, in Tauri accelerator syntax. One binding toggles: the first
    /// press starts listening, the second stops and transcribes.
    pub shortcut: String,
    /// Whisper model file name inside the models directory.
    pub model: String,
    /// Input device name; `None` means the system default.
    pub input_device: Option<String>,
    /// Keep recovery drafts on disk. Dictated speech is sensitive; this can be turned off.
    pub keep_drafts: bool,
    /// Words the recogniser habitually gets wrong.
    pub vocabulary: Vec<String>,
    /// Which clipboard dictations go to.
    pub clipboard: ClipboardChoice,
    /// Pastes from Huck's clipboard. Only bound while Huck's clipboard is the choice.
    pub paste_shortcut: String,
}

/// The default dictation shortcut. Alt+Space, which a Mac keyboard labels Option+Space, on macOS
/// and on Windows: one chord, close to the thumb. On macOS the system leaves it alone; on
/// Windows the program takes it before the window menu does. Elsewhere Alt+Space opens the
/// window menu, so Ctrl+Alt+Space is used instead.
pub open spec fn default_shortcut_spec(platform: Platform) -> Seq<char> {
    if platform is Other {
        "Ctrl+Alt+Space"@
    } else {
        "Alt+Space"@
    }
}

/// The keys that paste from the normal clipboard, as the keyboard labels them.
pub open spec fn normal_paste_keys_spec(platform: Platform) -> Seq<char> {
    if platform is MacOs {
        "⌘V"@
    } else {
        "Ctrl + V"@
    }
}

pub fn normal_paste_keys(platform: Platform) -> (r: &'static str)
    ensures
        r@ == normal_paste_keys_spec(platform),
{
    if platform.is_macos() {
        "⌘V"
    } else {
        "Ctrl + V"
    }
}

/// The default paste-from-Huck's-clipboard shortcut.
pub open spec fn default_paste_shortcut_spec(platform: Platform) -> Seq<char> {
    if platform is MacOs {
        "Ctrl+Alt+V"@
    } else {
        "Ctrl+Alt+Shift+V"@
    }
}

pub fn default_shortcut(platform: Platform) -> (r: &'static str)
    ensures
        r@ == default_shortcut_spec(platform),
{
    if matches!(platform, Platform::Other) {
        "Ctrl+Alt+Space"
    } else {
        "Alt+Space"
    }
}

pub fn default_paste_shortcut(platform: Platform) -> (r: &'static str)
    ensures
        r@ == default_paste_shortcut_spec(platform),
{
    if platform.is_macos() {
        "Ctrl+Alt+V"
    } else {
        "Ctrl+Alt+Shift+V"
    }
}

/// The views of a sequence of strings.
pub open spec fn string_views(v: Seq<String>) -> Seq<Seq<char>> {
    Seq::new(v.len(), |i: int| v[i]@)
}

/// The settings a fresh installation starts with on `platform`.
pub open spec fn is_default(s: Settings, platform: Platform) -> bool {
    &&& s.shortcut@ == default_shortcut_spec(platform)
    &&& s.model@ == "ggml-base.en.bin"@
    &&& s.input_device is None
    &&& s.keep_drafts
    &&& s.vocabulary@.len() == 0
    &&& s.clipboard is System
    &&& s.paste_shortcut@ == default_paste_shortcut_spec(platform)
}

impl Settings {
    /// The defaults on `platform`.
    pub fn default_for(platform: Platform) -> (s: Self)
        ensures
            is_default(s, platform),
    {
        Settings {
            shortcut: default_shortcut(platform).to_owned(),
            model: "ggml-base.en.bin".to_owned(),
            input_device: None,
            keep_drafts: true,
            vocabulary: Vec::new(),
            clipboard: ClipboardChoice::System,
            paste_shortcut: default_paste_shortcut(platform).to_owned(),
        }
    }

    /// The initial prompt biasing Whisper toward the user's own jargon: the vocabulary joined
    /// with commas, or nothing when there is no vocabulary.
    pub fn vocabulary_prompt(&self) -> (r: Option<String>)
        ensures
            self.vocabulary@.len() == 0 ==> r is None,
            self.vocabulary@.len() > 0 ==> (r matches Some(p) && p@ == join(
                string_views(self.vocabulary@),
                ", "@,
            )),
    {
        let n = self.vocabulary.len();
        if n == 0 {
            return None;
        }
        let mut words: Vec<Vec<char>> = Vec::new();
        let mut i: usize = 0;
        while i < n
            invariant
                n == self.vocabulary@.len(),
                i <= n,
                views(words@) =~= string_views(self.vocabulary@).take(i as int),
            decreases n - i,
        {
            let w = chars_of(self.vocabulary[i].as_str());
            let ghost prev = views(words@);
            words.push(w);
            assert(views(words@) =~= prev.push(w@));
            i = i + 1;
        }
        assert(string_views(self.vocabulary@).take(n as int) =~= string_views(self.vocabulary@));
        let sep = chars_of(", ");
        let joined = join_chars(&words, sep.as_slice());
        Some(string_of(joined.as_slice()))
    }
}

// ---------------------------------------------------------------------------- shortcuts

/// How one key of an accelerator is labelled on the user's keyboard. Tauri's syntax is not what
/// anyone calls these keys on a Mac. A key that is not a modifier or Space is shown upper-case.
pub open spec fn key_word(part: Seq<char>, platform: Platform) -> Seq<char> {
    let k = lower_seq(trim(part));
    if k == "alt"@ || k == "option"@ {
        if platform is MacOs {
            "Option"@
        } else {
            "Alt"@
        }
    } else if k == "cmd"@ || k == "command"@ || k == "super"@ || k == "meta"@ {
        "Command"@
    } else if k == "cmdorctrl"@ || k == "commandorcontrol"@ {
        if platform is MacOs {
            "Command"@
        } else {
            "Ctrl"@
        }
    } else if k == "ctrl"@ || k == "control"@ {
        "Ctrl"@
    } else if k == "shift"@ {
        "Shift"@
    } else if k == "space"@ {
        "Space"@
    } else {
        unicode_upper(k)
    }
}

/// An accelerator in keyboard words: each `+`-separated key labelled, joined with `" + "`.
pub open spec fn described(accelerator: Seq<char>, platform: Platform) -> Seq<char> {
    let parts = split(accelerator, '+');
    join(Seq::new(parts.len(), |i: int| key_word(parts[i], platform)), " + "@)
}

/// The modifier names an accelerator may use, in lower case.
pub open spec fn is_modifier_word(k: Seq<char>) -> bool {
    ||| k == "alt"@
    ||| k == "option"@
    ||| k == "cmd"@
    ||| k == "command"@
    ||| k == "super"@
    ||| k == "meta"@
    ||| k == "cmdorctrl"@
    ||| k == "commandorcontrol"@
    ||| k == "ctrl"@
    ||| k == "control"@
    ||| k == "shift"@
}

/// A shortcut must have a key that is not a modifier, or it can never fire.
pub open spec fn looks_valid(accelerator: Seq<char>) -> bool {
    exists|i: int|
        0 <= i < split(accelerator, '+').len() && trim(#[trigger] split(accelerator, '+')[i]).len()
            > 0 && !is_modifier_word(lower_seq(trim(split(accelerator, '+')[i])))
}

fn key_word_chars(part: &[char], platform: Platform) -> (r: Vec<char>)
    ensures
        r@ == key_word(part@, platform),
{
    let t = trim_chars(part);
    let k = to_ascii_lowercase(t.as_slice());
    let k = k.as_slice();
    let word = if is_word(k, "alt") || is_word(k, "option") {
        if platform.is_macos() {
            "Option"
        } else {
            "Alt"
        }
    } else if is_word(k, "cmd") || is_word(k, "command") || is_word(k, "super") || is_word(
        k,
        "meta",
    ) {
        "Command"
    } else if is_word(k, "cmdorctrl") || is_word(k, "commandorcontrol") {
        if platform.is_macos() {
            "Command"
        } else {
            "Ctrl"
        }
    } else if is_word(k, "ctrl") || is_word(k, "control") {
        "Ctrl"
    } else if is_word(k, "shift") {
        "Shift"
    } else if is_word(k, "space") {
        "Space"
    } else {
        let s = string_of(k);
        let u = to_uppercase(s.as_str());
        return chars_of(u.as_str());
    };
    chars_of(word)
}

/// Render an accelerator the way the user's keyboard is labelled, e.g. `"Alt+Space"` as
/// `"Option + Space"` on macOS.
pub fn describe_shortcut(accelerator: &str, platform: Platform) -> (r: String)
    ensures
        r@ == described(accelerator@, platform),
{
    let a = chars_of(accelerator);
    let parts = split_chars(a.as_slice(), '+');
    let ghost ps = split(accelerator@, '+');
    let n = parts.len();
    let mut words: Vec<Vec<char>> = Vec::new();
    let mut i: usize = 0;
    while i < n
        invariant
            n == parts@.len(),
            views(parts@) == ps,
            ps == split(accelerator@, '+'),
            i <= n,
            views(words@) =~= Seq::new(i as nat, |j: int| key_word(ps[j], platform)),
        decreases n - i,
    {
        assert(views(parts@)[i as int] == parts@[i as int]@);
        let w = key_word_chars(parts[i].as_slice(), platform);
        let ghost prev = views(words@);
        words.push(w);
        assert(views(words@) =~= prev.push(w@));
        i = i + 1;
    }
    let sep = chars_of(" + ");
    let out = join_chars(&words, sep.as_slice());
    string_of(out.as_slice())
}

fn is_modifier(k: &[char]) -> (r: bool)
    ensures
        r == is_modifier_word(k@),
{
    is_word(k, "alt") || is_word(k, "option") || is_word(k, "cmd") || is_word(k, "command")
        || is_word(k, "super") || is_word(k, "meta") || is_word(k, "cmdorctrl") || is_word(
        k,
        "commandorcontrol",
    ) || is_word(k, "ctrl") || is_word(k, "control") || is_word(k, "shift")
}

/// A shortcut must have a non-modifier key, or it can never fire.
pub fn shortcut_looks_valid(accelerator: &str) -> (r: bool)
    ensures
        r == looks_valid(accelerator@),
{
    let a = chars_of(accelerator);
    let parts = split_chars(a.as_slice(), '+');
    let ghost ps = split(accelerator@, '+');
    let n = parts.len();
    let mut i: usize = 0;
    while i < n
        invariant
            n == parts@.len(),
            views(parts@) == ps,
            ps == split(accelerator@, '+'),
            i <= n,
            forall|j: int|
                0 <= j < i ==> !(trim(#[trigger] ps[j]).len() > 0 && !is_modifier_word(
                    lower_seq(trim(ps[j])),
                )),
        decreases n - i,
    {
        assert(views(parts@)[i as int] == parts@[i as int]@);
        let t = trim_chars(parts[i].as_slice());
        if t.len() > 0 {
            let k = to_ascii_lowercase(t.as_slice());
            if !is_modifier(k.as_slice()) {
                assert(trim(ps[i as int]).len() > 0);
                return true;
            }
        }
        i = i + 1;
    }
    false
}

/// The default paste shortcut is never the default dictation shortcut.
pub proof fn law_default_shortcuts_differ(platform: Platform)
    ensures
        default_shortcut_spec(platform) != default_paste_shortcut_spec(platform),
{
    reveal_strlit("Alt+Space");
    reveal_strlit("Ctrl+Alt+Space");
    reveal_strlit("Ctrl+Alt+V");
    reveal_strlit("Ctrl+Alt+Shift+V");
    assert(default_shortcut_spec(platform).len() != default_paste_shortcut_spec(platform).len());
}

} // verus!
