//! The menu-bar menu: what it holds for a given state, and what each item does.
//!
//! The menu is described here as a flat list of entries in order, each with its depth in the
//! tree (a submenu's entries follow it, one level deeper). Building the platform's menu from
//! the list is the application's.

use crate::platform::Platform;
use crate::settings::{
    described, describe_shortcut, normal_paste_keys, normal_paste_keys_spec, ClipboardChoice, Settings,
};
use crate::text::{chars_of, ends_with, is_word, push_str, slice_chars, starts_with, string_of};
use vstd::prelude::*;

verus! {

#[derive(Debug, Clone, Copy, PartialEq, Eq, Structural)]
pub enum EntryKind {
    Item,
    /// A check item, ticked or not.
    Check(bool),
    Separator,
    /// A submenu; the entries one level deeper that follow it are its own.
    Submenu,
}

#[derive(Debug, Clone, PartialEq, Eq)]
pub struct MenuEntry {
    pub depth: u8,
    pub kind: EntryKind,
    pub id: String,
    pub text: String,
    pub enabled: bool,
    /// The key equivalent shown beside the item.
    pub accelerator: Option<String>,
}

/// An entry by value.
pub struct EntryView {
    pub depth: u8,
    pub kind: EntryKind,
    pub id: Seq<char>,
    pub text: Seq<char>,
    pub enabled: bool,
    pub accelerator: Option<Seq<char>>,
}

pub open spec fn entry_view(e: MenuEntry) -> EntryView {
    EntryView {
        depth: e.depth,
        kind: e.kind,
        id: e.id@,
        text: e.text@,
        enabled: e.enabled,
        accelerator: match e.accelerator {
            Some(a) => Some(a@),
            None => None,
        },
    }
}

pub open spec fn entries_view(v: Seq<MenuEntry>) -> Seq<EntryView> {
    Seq::new(v.len(), |i: int| entry_view(v[i]))
}

pub open spec fn item(depth: u8, id: Seq<char>, text: Seq<char>, enabled: bool) -> EntryView {
    EntryView { depth, kind: EntryKind::Item, id, text, enabled, accelerator: None }
}

pub open spec fn check(depth: u8, id: Seq<char>, text: Seq<char>, on: bool) -> EntryView {
    EntryView { depth, kind: EntryKind::Check(on), id, text, enabled: true, accelerator: None }
}

pub open spec fn separator(depth: u8) -> EntryView {
    EntryView {
        depth,
        kind: EntryKind::Separator,
        id: Seq::empty(),
        text: Seq::empty(),
        enabled: true,
        accelerator: None,
    }
}

pub open spec fn submenu(depth: u8, id: Seq<char>, text: Seq<char>, enabled: bool) -> EntryView {
    EntryView { depth, kind: EntryKind::Submenu, id, text, enabled, accelerator: None }
}

/// What the menu reflects besides the settings.
#[derive(Debug, Clone, Copy, PartialEq, Eq, Structural)]
pub struct MenuState {
    /// The microphone is open.
    pub recording: bool,
    /// Accessibility permission is granted.
    pub ax_trusted: bool,
    /// Another program holds the dictation shortcut.
    pub shortcut_taken: bool,
    /// Another program holds the paste shortcut.
    pub paste_taken: bool,
}

/// `str::trim_start_matches` with a string: every leading copy of `p` removed.
pub open spec fn strip_leading(s: Seq<char>, p: Seq<char>) -> Seq<char>
    decreases s.len(),
{
    if p.len() > 0 && p.is_prefix_of(s) {
        strip_leading(s.subrange(p.len() as int, s.len() as int), p)
    } else {
        s
    }
}

/// `str::trim_end_matches` with a string: every trailing copy of `p` removed.
pub open spec fn strip_trailing(s: Seq<char>, p: Seq<char>) -> Seq<char>
    decreases s.len(),
{
    if p.len() > 0 && p.is_suffix_of(s) {
        strip_trailing(s.subrange(0, s.len() - p.len()), p)
    } else {
        s
    }
}

/// A model file's name as the menu shows it: without the `ggml-` prefixes and `.bin` endings.
pub open spec fn model_label_spec(status: Seq<char>) -> Seq<char> {
    strip_trailing(strip_leading(status, "ggml-"@), ".bin"@)
}

pub fn model_label(status: &str) -> (r: String)
    ensures
        r@ == model_label_spec(status@),
{
    let p = chars_of("ggml-");
    let q = chars_of(".bin");
    proof {
        reveal_strlit("ggml-");
        reveal_strlit(".bin");
    }
    let mut cur = chars_of(status);
    while starts_with(cur.as_slice(), p.as_slice())
        invariant
            p@ == "ggml-"@,
            p@.len() == 5,
            strip_leading(cur@, p@) == strip_leading(status@, "ggml-"@),
        decreases cur@.len(),
    {
        cur = slice_chars(cur.as_slice(), 5, cur.len());
    }
    let ghost mid = cur@;
    while ends_with(cur.as_slice(), q.as_slice())
        invariant
            q@ == ".bin"@,
            q@.len() == 4,
            strip_trailing(cur@, q@) == strip_trailing(mid, ".bin"@),
        decreases cur@.len(),
    {
        cur = slice_chars(cur.as_slice(), 0, cur.len() - 4);
    }
    string_of(cur.as_slice())
}

/// The note beside a shortcut another program holds.
pub open spec fn taken_note(taken: bool) -> Seq<char> {
    if taken {
        " (in use by another app)"@
    } else {
        Seq::empty()
    }
}

/// The top of the menu: the title, the permission request while it is missing, and the
/// dictation item with its shortcut.
pub open spec fn menu_head(st: MenuState, keys: Seq<char>) -> Seq<EntryView> {
    let verb = if st.recording { "Stop Dictation"@ } else { "Start Dictation"@ };
    seq![
        item(0, "heading"@, "Huck's Voice to Text"@, false),
        item(0, "brand"@, "Powered by Project Playground"@, false),
        separator(0),
    ] + (if st.ax_trusted {
        Seq::empty()
    } else {
        seq![item(0, "allow-ax"@, "Allow Accessibility…"@, true), separator(0)]
    }) + seq![item(0, "dictate"@, verb + " — "@ + keys, true), separator(0)]
}

/// The Settings submenu's shortcut and clipboard submenus.
pub open spec fn menu_choices(
    s: Settings,
    st: MenuState,
    keys: Seq<char>,
    paste_keys: Seq<char>,
    normal_keys: Seq<char>,
) -> Seq<EntryView> {
    let huck = s.clipboard is Huck;
    seq![
        submenu(0, "settings"@, "Settings"@, true),
        submenu(1, "shortcuts"@, "Shortcuts"@, !st.recording),
        item(2, "rebind-dictation"@, "Dictation — "@ + keys + taken_note(st.shortcut_taken), true),
        item(2, "rebind-paste"@, "Huck's Clipboard — "@ + paste_keys + taken_note(st.paste_taken), true),
        separator(2),
        item(2, "reset-shortcuts"@, "Reset Shortcuts to Defaults"@, true),
        submenu(1, "clipboard"@, "Clipboard"@, true),
        check(2, "clip-system"@, "Normal Clipboard — "@ + normal_keys, !huck),
        check(2, "clip-huck"@, "Huck's Clipboard — "@ + paste_keys, huck),
    ]
}

/// The rest of the Settings submenu, and Quit.
pub open spec fn menu_rest(s: Settings, st: MenuState, model: Seq<char>, version: Seq<char>) -> Seq<EntryView> {
    seq![
        separator(1),
        check(1, "keep-drafts"@, "Keep Recovery Drafts"@, s.keep_drafts),
        item(1, "open-drafts"@, "Open Drafts Folder"@, true),
        separator(1),
        item(1, "model"@, "Speech Model — "@ + model, false),
        separator(1),
        item(1, "check-updates"@, "Check for Updates…"@, !st.recording),
        item(1, "version"@, "Version "@ + version, false),
        separator(0),
        EntryView {
            depth: 0,
            kind: EntryKind::Item,
            id: "quit"@,
            text: "Quit"@,
            enabled: true,
            accelerator: Some("CmdOrCtrl+Q"@),
        },
    ]
}

/// The menu for a given state, in order.
pub open spec fn menu_spec(
    s: Settings,
    st: MenuState,
    engine_status: Seq<char>,
    version: Seq<char>,
    platform: Platform,
) -> Seq<EntryView> {
    let keys = described(s.shortcut@, platform);
    let paste_keys = described(s.paste_shortcut@, platform);
    menu_head(st, keys) + menu_choices(s, st, keys, paste_keys, normal_paste_keys_spec(platform))
        + menu_rest(
        s,
        st,
        model_label_spec(engine_status),
        version,
    )
}

fn entry(depth: u8, kind: EntryKind, id: &str, text: String, enabled: bool) -> (e: MenuEntry)
    ensures
        entry_view(e) == (EntryView { depth, kind, id: id@, text: text@, enabled, accelerator: None }),
{
    MenuEntry { depth, kind, id: id.to_owned(), text, enabled, accelerator: None }
}

fn sep(depth: u8) -> (e: MenuEntry)
    ensures
        entry_view(e) == separator(depth),
{
    MenuEntry {
        depth,
        kind: EntryKind::Separator,
        id: String::new(),
        text: String::new(),
        enabled: true,
        accelerator: None,
    }
}

fn joined(a: &str, b: &str, c: &str) -> (r: String)
    ensures
        r@ == a@ + b@ + c@,
{
    let mut m = String::new();
    push_str(&mut m, a);
    push_str(&mut m, b);
    push_str(&mut m, c);
    m
}

fn taken_text(taken: bool) -> (r: &'static str)
    ensures
        r@ == taken_note(taken),
{
    if taken {
        " (in use by another app)"
    } else {
        proof {
            reveal_strlit("");
        }
        ""
    }
}

fn push_entry(v: &mut Vec<MenuEntry>, e: MenuEntry)
    ensures
        entries_view(final(v)@) == entries_view(old(v)@).push(entry_view(e)),
{
    v.push(e);
    assert(entries_view(v@) =~= entries_view(old(v)@).push(entry_view(e)));
}

fn head_entries(st: MenuState, keys: &str) -> (v: Vec<MenuEntry>)
    ensures
        entries_view(v@) == menu_head(st, keys@),
{
    let mut v: Vec<MenuEntry> = Vec::new();
    push_entry(&mut v, entry(0, EntryKind::Item, "heading", "Huck's Voice to Text".to_owned(), false));
    push_entry(&mut v, entry(0, EntryKind::Item, "brand", "Powered by Project Playground".to_owned(), false));
    push_entry(&mut v, sep(0));
    if !st.ax_trusted {
        push_entry(&mut v, entry(0, EntryKind::Item, "allow-ax", "Allow Accessibility…".to_owned(), true));
        push_entry(&mut v, sep(0));
    }
    let verb = if st.recording {
        "Stop Dictation"
    } else {
        "Start Dictation"
    };
    push_entry(&mut v, entry(0, EntryKind::Item, "dictate", joined(verb, " — ", keys), true));
    push_entry(&mut v, sep(0));
    assert(entries_view(v@) =~= menu_head(st, keys@));
    v
}

fn choice_entries(
    settings: &Settings,
    st: MenuState,
    keys: &str,
    paste_keys: &str,
    normal_keys: &str,
) -> (v: Vec<MenuEntry>)
    ensures
        entries_view(v@) == menu_choices(*settings, st, keys@, paste_keys@, normal_keys@),
{
    let huck = matches!(settings.clipboard, ClipboardChoice::Huck);
    let mut v: Vec<MenuEntry> = Vec::new();
    push_entry(&mut v, entry(0, EntryKind::Submenu, "settings", "Settings".to_owned(), true));
    push_entry(&mut v, entry(1, EntryKind::Submenu, "shortcuts", "Shortcuts".to_owned(), !st.recording));
    push_entry(
        &mut v,
        entry(2, EntryKind::Item, "rebind-dictation", joined("Dictation — ", keys, taken_text(st.shortcut_taken)), true),
    );
    push_entry(
        &mut v,
        entry(2, EntryKind::Item, "rebind-paste", joined("Huck's Clipboard — ", paste_keys, taken_text(st.paste_taken)), true),
    );
    push_entry(&mut v, sep(2));
    push_entry(&mut v, entry(2, EntryKind::Item, "reset-shortcuts", "Reset Shortcuts to Defaults".to_owned(), true));
    push_entry(&mut v, entry(1, EntryKind::Submenu, "clipboard", "Clipboard".to_owned(), true));
    let mut nt = String::new();
    push_str(&mut nt, "Normal Clipboard — ");
    push_str(&mut nt, normal_keys);
    push_entry(&mut v, entry(2, EntryKind::Check(!huck), "clip-system", nt, true));
    let mut ht = String::new();
    push_str(&mut ht, "Huck's Clipboard — ");
    push_str(&mut ht, paste_keys);
    push_entry(&mut v, entry(2, EntryKind::Check(huck), "clip-huck", ht, true));
    assert(entries_view(v@) =~= menu_choices(*settings, st, keys@, paste_keys@, normal_keys@));
    v
}

fn rest_entries(settings: &Settings, st: MenuState, model: &str, version: &str) -> (v: Vec<MenuEntry>)
    ensures
        entries_view(v@) == menu_rest(*settings, st, model@, version@),
{
    let mut v: Vec<MenuEntry> = Vec::new();
    push_entry(&mut v, sep(1));
    push_entry(&mut v, entry(1, EntryKind::Check(settings.keep_drafts), "keep-drafts", "Keep Recovery Drafts".to_owned(), true));
    push_entry(&mut v, entry(1, EntryKind::Item, "open-drafts", "Open Drafts Folder".to_owned(), true));
    push_entry(&mut v, sep(1));
    let mut mt = String::new();
    push_str(&mut mt, "Speech Model — ");
    push_str(&mut mt, model);
    push_entry(&mut v, entry(1, EntryKind::Item, "model", mt, false));
    push_entry(&mut v, sep(1));
    push_entry(&mut v, entry(1, EntryKind::Item, "check-updates", "Check for Updates…".to_owned(), !st.recording));
    let mut vt = String::new();
    push_str(&mut vt, "Version ");
    push_str(&mut vt, version);
    push_entry(&mut v, entry(1, EntryKind::Item, "version", vt, false));
    push_entry(&mut v, sep(0));
    push_entry(
        &mut v,
        MenuEntry {
            depth: 0,
            kind: EntryKind::Item,
            id: "quit".to_owned(),
            text: "Quit".to_owned(),
            enabled: true,
            accelerator: Some("CmdOrCtrl+Q".to_owned()),
        },
    );
    assert(entries_view(v@) =~= menu_rest(*settings, st, model@, version@));
    v
}

fn append_entries(v: &mut Vec<MenuEntry>, w: Vec<MenuEntry>)
    ensures
        entries_view(final(v)@) == entries_view(old(v)@) + entries_view(w@),
{
    let mut w = w;
    let ghost wv = w@;
    v.append(&mut w);
    assert(entries_view(v@) =~= entries_view(old(v)@) + entries_view(wv));
}

/// The menu for the current state.
pub fn build_menu(
    settings: &Settings,
    st: MenuState,
    engine_status: &str,
    version: &str,
    platform: Platform,
) -> (r: Vec<MenuEntry>)
    ensures
        entries_view(r@) == menu_spec(*settings, st, engine_status@, version@, platform),
{
    let keys = describe_shortcut(settings.shortcut.as_str(), platform);
    let paste_keys = describe_shortcut(settings.paste_shortcut.as_str(), platform);
    let model = model_label(engine_status);
    let mut v = head_entries(st, keys.as_str());
    append_entries(
        &mut v,
        choice_entries(settings, st, keys.as_str(), paste_keys.as_str(), normal_paste_keys(platform)),
    );
    append_entries(&mut v, rest_entries(settings, st, model.as_str(), version));
    v
}

// ---------------------------------------------------------------------------- actions

/// What a menu item does.
#[derive(Debug, Clone, Copy, PartialEq, Eq, Structural)]
pub enum MenuAction {
    Dictate,
    AllowAccessibility,
    CheckUpdates,
    RebindDictation,
    RebindPaste,
    ResetShortcuts,
    UseClipboard(ClipboardChoice),
    ToggleKeepDrafts,
    OpenDrafts,
    Quit,
}

pub open spec fn menu_action_spec(id: Seq<char>) -> Option<MenuAction> {
    if id == "dictate"@ {
        Some(MenuAction::Dictate)
    } else if id == "allow-ax"@ {
        Some(MenuAction::AllowAccessibility)
    } else if id == "check-updates"@ {
        Some(MenuAction::CheckUpdates)
    } else if id == "rebind-dictation"@ {
        Some(MenuAction::RebindDictation)
    } else if id == "rebind-paste"@ {
        Some(MenuAction::RebindPaste)
    } else if id == "reset-shortcuts"@ {
        Some(MenuAction::ResetShortcuts)
    } else if id == "clip-system"@ {
        Some(MenuAction::UseClipboard(ClipboardChoice::System))
    } else if id == "clip-huck"@ {
        Some(MenuAction::UseClipboard(ClipboardChoice::Huck))
    } else if id == "keep-drafts"@ {
        Some(MenuAction::ToggleKeepDrafts)
    } else if id == "open-drafts"@ {
        Some(MenuAction::OpenDrafts)
    } else if id == "quit"@ {
        Some(MenuAction::Quit)
    } else {
        None
    }
}

/// The action of the item `id`; other ids (headings, separators) do nothing.
pub fn menu_action(id: &str) -> (r: Option<MenuAction>)
    ensures
        r == menu_action_spec(id@),
{
    let c = chars_of(id);
    let c = c.as_slice();
    if is_word(c, "dictate") {
        Some(MenuAction::Dictate)
    } else if is_word(c, "allow-ax") {
        Some(MenuAction::AllowAccessibility)
    } else if is_word(c, "check-updates") {
        Some(MenuAction::CheckUpdates)
    } else if is_word(c, "rebind-dictation") {
        Some(MenuAction::RebindDictation)
    } else if is_word(c, "rebind-paste") {
        Some(MenuAction::RebindPaste)
    } else if is_word(c, "reset-shortcuts") {
        Some(MenuAction::ResetShortcuts)
    } else if is_word(c, "clip-system") {
        Some(MenuAction::UseClipboard(ClipboardChoice::System))
    } else if is_word(c, "clip-huck") {
        Some(MenuAction::UseClipboard(ClipboardChoice::Huck))
    } else if is_word(c, "keep-drafts") {
        Some(MenuAction::ToggleKeepDrafts)
    } else if is_word(c, "open-drafts") {
        Some(MenuAction::OpenDrafts)
    } else if is_word(c, "quit") {
        Some(MenuAction::Quit)
    } else {
        None
    }
}

/// The settings change an action makes, if it makes one, and whether the shortcuts must be
/// bound again afterwards.
pub fn apply_menu_action(settings: &mut Settings, action: MenuAction, platform: Platform) -> (rebind: bool)
    ensures
        action is ResetShortcuts ==> final(settings).shortcut@ == crate::settings::default_shortcut_spec(platform)
            && final(settings).paste_shortcut@ == crate::settings::default_paste_shortcut_spec(platform)
            && final(settings).clipboard == old(settings).clipboard && final(settings).keep_drafts
            == old(settings).keep_drafts && rebind,
        action matches MenuAction::UseClipboard(c) ==> final(settings).clipboard == c
            && final(settings).shortcut == old(settings).shortcut && final(settings).paste_shortcut
            == old(settings).paste_shortcut && final(settings).keep_drafts == old(settings).keep_drafts
            && rebind,
        action is ToggleKeepDrafts ==> final(settings).keep_drafts == !old(settings).keep_drafts
            && final(settings).shortcut == old(settings).shortcut && final(settings).paste_shortcut
            == old(settings).paste_shortcut && final(settings).clipboard == old(settings).clipboard
            && !rebind,
        !(action is ResetShortcuts || action is UseClipboard || action is ToggleKeepDrafts)
            ==> *final(settings) == *old(settings) && !rebind,
        final(settings).model == old(settings).model,
        final(settings).vocabulary == old(settings).vocabulary,
        final(settings).input_device == old(settings).input_device,
{
    match action {
        MenuAction::ResetShortcuts => {
            crate::desktop::reset_shortcuts(settings, platform);
            true
        },
        MenuAction::UseClipboard(c) => {
            settings.clipboard = c;
            true
        },
        MenuAction::ToggleKeepDrafts => {
            settings.keep_drafts = !settings.keep_drafts;
            false
        },
        _ => false,
    }
}

/// The clipboard items do what they say, in every menu: the "Normal Clipboard" item, checked
/// exactly while the normal clipboard is in use, chooses the normal clipboard, and the "Huck's
/// Clipboard" item, checked exactly while Huck's is in use, chooses Huck's.
pub proof fn law_clipboard_items_choose_what_they_name(
    s: Settings,
    st: MenuState,
    engine_status: Seq<char>,
    version: Seq<char>,
    platform: Platform,
)
    ensures
        ({
            let v = menu_spec(s, st, engine_status, version, platform);
            exists|i: int|
                0 <= i < v.len() && v[i].kind == EntryKind::Check(s.clipboard is System) && #[trigger] v[i].text
                    == "Normal Clipboard — "@ + normal_paste_keys_spec(platform)
                    && menu_action_spec(v[i].id) == Some(
                    MenuAction::UseClipboard(ClipboardChoice::System),
                )
        }),
        ({
            let v = menu_spec(s, st, engine_status, version, platform);
            exists|i: int|
                0 <= i < v.len() && v[i].kind == EntryKind::Check(s.clipboard is Huck) && #[trigger] v[i].text
                    == "Huck's Clipboard — "@ + described(s.paste_shortcut@, platform)
                    && menu_action_spec(v[i].id) == Some(
                    MenuAction::UseClipboard(ClipboardChoice::Huck),
                )
        }),
{
    let keys = described(s.shortcut@, platform);
    let paste_keys = described(s.paste_shortcut@, platform);
    let head = menu_head(st, keys);
    let choices = menu_choices(s, st, keys, paste_keys, normal_paste_keys_spec(platform));
    let rest = menu_rest(s, st, model_label_spec(engine_status), version);
    let v = menu_spec(s, st, engine_status, version, platform);
    assert(v == head + choices + rest);
    let i: int = head.len() as int + 7;
    assert(v[i] == choices[7]);
    assert(v[i + 1] == choices[8]);
    assert(s.clipboard is Huck <==> !(s.clipboard is System));
    // The clipboard ids differ in length from every id tested before them.
    reveal_strlit("clip-system");
    reveal_strlit("clip-huck");
    reveal_strlit("dictate");
    reveal_strlit("allow-ax");
    reveal_strlit("check-updates");
    reveal_strlit("rebind-dictation");
    reveal_strlit("rebind-paste");
    reveal_strlit("reset-shortcuts");
    assert(v[i].id == "clip-system"@ && v[i + 1].id == "clip-huck"@);
    assert("clip-system"@.len() == 11 && "clip-huck"@.len() == 9);
    assert("dictate"@.len() == 7 && "allow-ax"@.len() == 8 && "check-updates"@.len() == 13);
    assert("rebind-dictation"@.len() == 16 && "rebind-paste"@.len() == 12);
    assert("reset-shortcuts"@.len() == 15);
    assert(menu_action_spec(v[i].id) == Some(MenuAction::UseClipboard(ClipboardChoice::System)));
    assert(menu_action_spec(v[i + 1].id) == Some(MenuAction::UseClipboard(ClipboardChoice::Huck)));
    assert(v[i].kind == EntryKind::Check(s.clipboard is System));
    assert(v[i + 1].kind == EntryKind::Check(s.clipboard is Huck));
    assert(v[i].text == "Normal Clipboard — "@ + normal_paste_keys_spec(platform));
    assert(v[i + 1].text == "Huck's Clipboard — "@ + described(s.paste_shortcut@, platform));
    assert(0 <= i && i + 1 < v.len());
}

} // verus!
