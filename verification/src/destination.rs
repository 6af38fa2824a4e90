//! Pinned destinations: the rules shared by every platform.
//!
//! Three ways in, in order: a silent accessibility write (native apps); the browser extension
//! (Chromium browsers); and a paste for everything else, made only while nothing has moved
//! since the keypress. Past that, the words wait on the clipboard.

pub mod chromium;
pub mod macos_ax;
pub mod macos_paste;
pub mod windows_paste;
pub mod windows_uia;

use crate::text::{
    after_last_path_sep, chars_of, contains, contains_seq, occurs_at, has_text, is_word, join, join_chars,
    lower_seq, path_sep_pred, push_str, seq_eq, string_of, tail_after, to_ascii_lowercase, views,
    words, words_chars,
};
use vstd::prelude::*;

verus! {

/// Why a pin attempt did not produce a destination. Each maps to one short, plain sentence.
#[derive(Debug, Clone, PartialEq, Eq)]
pub enum PinError {
    /// macOS Accessibility permission has not been granted yet.
    AccessibilityPermissionMissing,
    /// The focused thing is a password box. Never pinned, never dictated into.
    SecureField,
    /// Focus is not in a text field at all.
    NotATextField,
    /// A Chromium browser is frontmost but the extension is not installed or not running.
    BrowserExtensionMissing,
    /// The app is one there is no safe way to write into. Clipboard-only, not a failure.
    Unsupported { app: String },
    Other(String),
}

/// The composer's line for each pin error.
pub open spec fn pin_message(e: PinError) -> Seq<char> {
    match e {
        PinError::AccessibilityPermissionMissing => "Huck needs Accessibility permission to type into other apps."@,
        PinError::SecureField => "That is a password field — Huck will not dictate into it."@,
        PinError::NotATextField => "Click into a text field first."@,
        PinError::BrowserExtensionMissing => "Install the Huck Voice browser extension to send text into Chrome."@,
        PinError::Unsupported { app } => app@ + " can't receive text directly — it will be copied instead."@,
        PinError::Other(m) => m@,
    }
}

impl PinError {
    /// One short line for the composer. Never a dialog, never a stack trace.
    pub fn message(&self) -> (r: String)
        ensures
            r@ == pin_message(*self),
    {
        let mut m = String::new();
        match self {
            PinError::AccessibilityPermissionMissing => push_str(
                &mut m,
                "Huck needs Accessibility permission to type into other apps.",
            ),
            PinError::SecureField => push_str(
                &mut m,
                "That is a password field — Huck will not dictate into it.",
            ),
            PinError::NotATextField => push_str(&mut m, "Click into a text field first."),
            PinError::BrowserExtensionMissing => push_str(
                &mut m,
                "Install the Huck Voice browser extension to send text into Chrome.",
            ),
            PinError::Unsupported { app } => {
                push_str(&mut m, app.as_str());
                push_str(&mut m, " can't receive text directly — it will be copied instead.");
            },
            PinError::Other(t) => push_str(&mut m, t.as_str()),
        }
        m
    }

    /// A normal, expected situation rather than something that went wrong: an unsupported app
    /// is how things work, not an error.
    pub fn is_expected(&self) -> (r: bool)
        ensures
            r == (*self is Unsupported || *self is NotATextField),
    {
        matches!(self, PinError::Unsupported { .. } | PinError::NotATextField)
    }
}

/// Bundle identifiers of applications known to expose no safe write path: they advertise
/// their text as settable, report success, and change nothing.
pub open spec fn electron_bundle(b: Seq<char>) -> bool {
    ||| b == "com.microsoft.VSCode"@
    ||| b == "com.todesktop.230313mzl4w4u92"@
    ||| b == "com.tinyspeck.slackmacgap"@
    ||| b == "com.hnc.Discord"@
    ||| b == "com.openai.chat"@
    ||| b == "com.anthropic.claudefordesktop"@
    ||| b == "notion.id"@
    ||| b == "com.spotify.client"@
}

pub fn is_known_unsupported(bundle_id: &str) -> (r: bool)
    ensures
        r == electron_bundle(bundle_id@),
{
    let b = chars_of(bundle_id);
    let b = b.as_slice();
    is_word(b, "com.microsoft.VSCode") || is_word(b, "com.todesktop.230313mzl4w4u92") || is_word(
        b,
        "com.tinyspeck.slackmacgap",
    ) || is_word(b, "com.hnc.Discord") || is_word(b, "com.openai.chat") || is_word(
        b,
        "com.anthropic.claudefordesktop",
    ) || is_word(b, "notion.id") || is_word(b, "com.spotify.client")
}

/// The file name at the end of an executable path, lower-cased: `chrome.exe`.
pub open spec fn exe_file_spec(exe: Seq<char>) -> Seq<char> {
    lower_seq(tail_after(exe, path_sep_pred()))
}

fn exe_file(exe: &[char]) -> (r: Vec<char>)
    ensures
        r@ == exe_file_spec(exe@),
{
    let f = after_last_path_sep(exe);
    to_ascii_lowercase(f.as_slice())
}

/// Chromium browsers, by the executable's path (macOS application names) or by its file name
/// (Windows).
pub open spec fn chromium_exe(exe: Seq<char>) -> bool {
    let f = exe_file_spec(exe);
    ||| contains_seq(exe, "Google Chrome"@)
    ||| contains_seq(exe, "Chromium"@)
    ||| contains_seq(exe, "Microsoft Edge"@)
    ||| contains_seq(exe, "Brave Browser"@)
    ||| contains_seq(exe, "Vivaldi"@)
    ||| f == "chrome.exe"@
    ||| f == "chromium.exe"@
    ||| f == "msedge.exe"@
    ||| f == "brave.exe"@
    ||| f == "vivaldi.exe"@
}

pub fn is_chromium_executable(exe: &str) -> (r: bool)
    ensures
        r == chromium_exe(exe@),
{
    let e = chars_of(exe);
    let e = e.as_slice();
    if has_text(e, "Google Chrome") || has_text(e, "Chromium") || has_text(e, "Microsoft Edge")
        || has_text(e, "Brave Browser") || has_text(e, "Vivaldi") {
        return true;
    }
    let f = exe_file(e);
    let f = f.as_slice();
    is_word(f, "chrome.exe") || is_word(f, "chromium.exe") || is_word(f, "msedge.exe") || is_word(
        f,
        "brave.exe",
    ) || is_word(f, "vivaldi.exe")
}

/// Electron applications, by executable: the Windows file names first, then the macOS
/// application names, each with the name the user knows it by. They must be recognised before
/// the accessibility path is tried, because their writes report success and do nothing.
pub open spec fn unsupported_app(exe: Seq<char>) -> Option<Seq<char>> {
    let f = exe_file_spec(exe);
    if f == "code.exe"@ {
        Some("VS Code"@)
    } else if f == "cursor.exe"@ {
        Some("Cursor"@)
    } else if f == "slack.exe"@ {
        Some("Slack"@)
    } else if f == "discord.exe"@ {
        Some("Discord"@)
    } else if f == "chatgpt.exe"@ {
        Some("ChatGPT"@)
    } else if f == "notion.exe"@ {
        Some("Notion"@)
    } else if f == "spotify.exe"@ {
        Some("Spotify"@)
    } else if contains_seq(exe, "Visual Studio Code"@) {
        Some("VS Code"@)
    } else if contains_seq(exe, "Code Helper"@) {
        Some("VS Code"@)
    } else if contains_seq(exe, "Cursor"@) {
        Some("Cursor"@)
    } else if contains_seq(exe, "Slack"@) {
        Some("Slack"@)
    } else if contains_seq(exe, "Discord"@) {
        Some("Discord"@)
    } else if contains_seq(exe, "ChatGPT"@) {
        Some("ChatGPT"@)
    } else if contains_seq(exe, "Notion"@) {
        Some("Notion"@)
    } else if contains_seq(exe, "Spotify"@) {
        Some("Spotify"@)
    } else {
        None
    }
}

pub fn is_unsupported_executable(exe: &str) -> (r: Option<String>)
    ensures
        match r {
            Some(name) => unsupported_app(exe@) == Some(name@),
            None => unsupported_app(exe@) is None,
        },
{
    let e = chars_of(exe);
    let e = e.as_slice();
    let f = exe_file(e);
    let f = f.as_slice();
    let pretty = if is_word(f, "code.exe") {
        "VS Code"
    } else if is_word(f, "cursor.exe") {
        "Cursor"
    } else if is_word(f, "slack.exe") {
        "Slack"
    } else if is_word(f, "discord.exe") {
        "Discord"
    } else if is_word(f, "chatgpt.exe") {
        "ChatGPT"
    } else if is_word(f, "notion.exe") {
        "Notion"
    } else if is_word(f, "spotify.exe") {
        "Spotify"
    } else if has_text(e, "Visual Studio Code") {
        "VS Code"
    } else if has_text(e, "Code Helper") {
        "VS Code"
    } else if has_text(e, "Cursor") {
        "Cursor"
    } else if has_text(e, "Slack") {
        "Slack"
    } else if has_text(e, "Discord") {
        "Discord"
    } else if has_text(e, "ChatGPT") {
        "ChatGPT"
    } else if has_text(e, "Notion") {
        "Notion"
    } else if has_text(e, "Spotify") {
        "Spotify"
    } else {
        return None;
    };
    Some(pretty.to_owned())
}

// ---------------------------------------------------------------------------- read-back

/// Non-breaking spaces made ordinary spaces.
pub open spec fn nbsp_as_space(s: Seq<char>) -> Seq<char> {
    Seq::new(s.len(), |i: int| if s[i] == '\u{a0}' { ' ' } else { s[i] })
}

/// Text as compared after a write: runs of white space made single spaces, none at the ends.
pub open spec fn normalized(s: Seq<char>) -> Seq<char> {
    join(words(nbsp_as_space(s)), " "@)
}

/// A write counts only when the field reads back changed and holding the text. Unreadable is
/// unverified, and empty text is never a delivery.
pub open spec fn write_landed(after: Option<Seq<char>>, before: Seq<char>, text: Seq<char>) -> bool {
    match after {
        None => false,
        Some(a) => {
            &&& normalized(text).len() > 0
            &&& normalized(a) != normalized(before)
            &&& contains_seq(normalized(a), normalized(text))
        },
    }
}

fn normalize(s: &str) -> (r: Vec<char>)
    ensures
        r@ == normalized(s@),
{
    let c = chars_of(s);
    let mut m: Vec<char> = Vec::new();
    let mut i: usize = 0;
    while i < c.len()
        invariant
            c@ == s@,
            i <= c@.len(),
            m@ =~= nbsp_as_space(c@).take(i as int),
        decreases c@.len() - i,
    {
        let ch = if c[i] == '\u{a0}' {
            ' '
        } else {
            c[i]
        };
        m.push(ch);
        i = i + 1;
    }
    assert(nbsp_as_space(c@).take(c@.len() as int) =~= nbsp_as_space(c@));
    let w = words_chars(m.as_slice());
    let sp = chars_of(" ");
    join_chars(&w, sp.as_slice())
}

/// Whether a write landed, judged by reading the field back: `after` is what it holds now,
/// `before` what it held before the write.
pub fn verified(after: &Option<String>, before: &str, text: &str) -> (r: bool)
    ensures
        r == write_landed(
            match after {
                Some(a) => Some(a@),
                None => None,
            },
            before@,
            text@,
        ),
{
    let a = match after {
        Some(a) => a,
        None => return false,
    };
    let na = normalize(a.as_str());
    let nb = normalize(before);
    let nt = normalize(text);
    nt.len() > 0 && !seq_eq(na.as_slice(), nb.as_slice()) && contains(na.as_slice(), nt.as_slice())
}

/// A write has landed when the field, read back, changed and holds the text anywhere in it: at
/// the start, in the middle (dictation at the caret, above a signature) or at the end. Words
/// are compared with white space evened out. An unreadable field never counts, and neither does
/// a field that reads back as it was, or text that is only white space.
pub proof fn law_a_write_lands_wherever_the_text_sits(
    after: Seq<char>,
    before: Seq<char>,
    text: Seq<char>,
    x: Seq<char>,
    y: Seq<char>,
)
    ensures
        (normalized(text).len() > 0 && normalized(after) != normalized(before) && normalized(after)
            == x + normalized(text) + y) ==> write_landed(Some(after), before, text),
        normalized(after) == normalized(before) ==> !write_landed(Some(after), before, text),
        normalized(text).len() == 0 ==> !write_landed(Some(after), before, text),
        !write_landed(None, before, text),
{
    let t = normalized(text);
    let a = normalized(after);
    if t.len() > 0 && a != normalized(before) && a == x + t + y {
        assert((x + t + y).subrange(x.len() as int, (x.len() + t.len()) as int) =~= t);
        assert(occurs_at(a, t, x.len() as int));
    }
}

} // verus!
