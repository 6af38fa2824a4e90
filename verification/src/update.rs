//! Check for Updates: the rules.
//!
//! An update is offered only for a strictly newer `v<major>.<minor>.<patch>` release that
//! carries exactly this platform's download and checksum, named by `download_name` and
//! `checksum_name`, served from this repository's GitHub release downloads over HTTPS. A
//! download is kept only when its size matches GitHub's and its SHA-256 matches the published
//! checksum. The network and hashing themselves are the application's job.

use crate::platform::Platform;
use crate::text::{
    char_is_hex, char_is_ws, chars_of, is_ascii_hex, is_blank, is_blank_exec, is_ws, lines,
    lines_chars, lower_seq, parse_u64, parse_u64_chars, push_str, seq_eq, slice_chars, split, split_chars,
    starts_with, string_of, to_ascii_lowercase, trim, trim_chars, trim_start_char,
    trim_start_char_exec, views, words, words_chars,
};
use vstd::prelude::*;

verus! {

pub const REPOSITORY: &'static str = "Huckletsplay/hucks-voice-to-text";

pub const LATEST_RELEASE_API: &'static str =
    "https://api.github.com/repos/Huckletsplay/hucks-voice-to-text/releases/latest";

/// Every download must come from under here.
pub const DOWNLOAD_PREFIX: &'static str =
    "https://github.com/Huckletsplay/hucks-voice-to-text/releases/download/";

// ---------------------------------------------------------------------------- names

/// The one place the release asset names live. A future signed or Intel channel has to be
/// added here on purpose, or the updater refuses it.
pub open spec fn download_name_spec(platform: Platform, version: Seq<char>) -> Seq<char> {
    if platform is Windows {
        "HucksVoiceToText-"@ + version + "-windows-x64-setup.exe"@
    } else {
        "HucksVoiceToText-"@ + version + "-macOS-arm64-unsigned-beta.dmg"@
    }
}

pub open spec fn checksum_name_spec(platform: Platform, version: Seq<char>) -> Seq<char> {
    download_name_spec(platform, version) + ".sha256.txt"@
}

/// How the messages name the platform.
pub open spec fn platform_word(platform: Platform) -> Seq<char> {
    if platform is Windows {
        "Windows"@
    } else {
        "Mac"@
    }
}

/// The installer or disk image of `version` for `platform`.
pub fn download_name(version: &str, platform: Platform) -> (r: String)
    ensures
        r@ == download_name_spec(platform, version@),
{
    let mut r = String::new();
    push_str(&mut r, "HucksVoiceToText-");
    push_str(&mut r, version);
    if platform.is_windows() {
        push_str(&mut r, "-windows-x64-setup.exe");
    } else {
        push_str(&mut r, "-macOS-arm64-unsigned-beta.dmg");
    }
    r
}

/// The published checksum file that goes with `download_name`.
pub fn checksum_name(version: &str, platform: Platform) -> (r: String)
    ensures
        r@ == checksum_name_spec(platform, version@),
{
    let mut r = download_name(version, platform);
    push_str(&mut r, ".sha256.txt");
    r
}

fn platform_text(platform: Platform) -> (r: &'static str)
    ensures
        r@ == platform_word(platform),
{
    if platform.is_windows() {
        "Windows"
    } else {
        "Mac"
    }
}

// ---------------------------------------------------------------------------- versions

/// `major.minor.patch`.
#[derive(Debug, Clone, Copy, PartialEq, Eq, PartialOrd, Ord, Structural)]
pub struct Version(pub u64, pub u64, pub u64);

/// The release order: by major, then minor, then patch.
pub open spec fn version_le(a: Version, b: Version) -> bool {
    ||| a.0 < b.0
    ||| a.0 == b.0 && a.1 < b.1
    ||| a.0 == b.0 && a.1 == b.1 && a.2 <= b.2
}

/// The text of a version once surrounding white space and leading `v`s are gone.
pub open spec fn version_body(text: Seq<char>) -> Seq<char> {
    trim_start_char(trim(text), 'v')
}

/// `major.minor.patch`, with an optional leading `v`. Anything else is not a release version.
pub open spec fn version_of(text: Seq<char>) -> Option<Version> {
    let p = split(version_body(text), '.');
    if p.len() == 3 && parse_u64(p[0]) is Some && parse_u64(p[1]) is Some && parse_u64(
        p[2],
    ) is Some {
        Some(Version(parse_u64(p[0])->0, parse_u64(p[1])->0, parse_u64(p[2])->0))
    } else {
        None
    }
}

pub fn parse_version(text: &str) -> (r: Option<Version>)
    ensures
        r == version_of(text@),
{
    let chars = chars_of(text);
    let t = trim_chars(chars.as_slice());
    let body = trim_start_char_exec(t.as_slice(), 'v');
    let parts = split_chars(body.as_slice(), '.');
    if parts.len() != 3 {
        return None;
    }
    assert(views(parts@)[0] == parts@[0]@);
    assert(views(parts@)[1] == parts@[1]@);
    assert(views(parts@)[2] == parts@[2]@);
    let a = parse_u64_chars(parts[0].as_slice());
    let b = parse_u64_chars(parts[1].as_slice());
    let c = parse_u64_chars(parts[2].as_slice());
    match (a, b, c) {
        (Some(a), Some(b), Some(c)) => Some(Version(a, b, c)),
        _ => None,
    }
}

/// `a` is no newer than `b`.
pub fn version_not_newer(a: Version, b: Version) -> (r: bool)
    ensures
        r == version_le(a, b),
{
    a.0 < b.0 || (a.0 == b.0 && a.1 < b.1) || (a.0 == b.0 && a.1 == b.1 && a.2 <= b.2)
}

// ---------------------------------------------------------------------------- releases

/// One asset of a release, as GitHub describes it. A field GitHub left out, or gave as
/// something other than a string or a non-negative integer, is `None`.
#[derive(Debug, Clone, PartialEq, Eq)]
pub struct Asset {
    pub name: Option<String>,
    pub url: Option<String>,
    pub size: Option<u64>,
}

/// GitHub's "latest release" answer, as far as the updater reads it.
#[derive(Debug, Clone, PartialEq, Eq)]
pub struct Release {
    pub tag: Option<String>,
    /// `None` when the answer has no list of assets.
    pub assets: Option<Vec<Asset>>,
}

/// An asset, by value.
pub struct AssetView {
    pub name: Option<Seq<char>>,
    pub url: Option<Seq<char>>,
    pub size: Option<u64>,
}

/// A release, by value.
pub struct ReleaseView {
    pub tag: Option<Seq<char>>,
    pub assets: Option<Seq<AssetView>>,
}

pub open spec fn text_view(t: Option<String>) -> Option<Seq<char>> {
    match t {
        Some(s) => Some(s@),
        None => None,
    }
}

impl View for Asset {
    type V = AssetView;

    open spec fn view(&self) -> AssetView {
        AssetView { name: text_view(self.name), url: text_view(self.url), size: self.size }
    }
}

pub open spec fn asset_views(v: Seq<Asset>) -> Seq<AssetView> {
    v.map_values(|a: Asset| a@)
}

impl View for Release {
    type V = ReleaseView;

    open spec fn view(&self) -> ReleaseView {
        ReleaseView {
            tag: text_view(self.tag),
            assets: match self.assets {
                Some(v) => Some(asset_views(v@)),
                None => None,
            },
        }
    }
}

/// A parsed release, by value.
pub open spec fn release_view(r: Option<Release>) -> Option<ReleaseView> {
    match r {
        Some(release) => Some(release@),
        None => None,
    }
}

/// A newer release, ready to download.
#[derive(Debug, Clone, PartialEq, Eq)]
pub struct Offer {
    pub version: String,
    pub download_url: String,
    pub download_size: u64,
    pub checksum_url: String,
}

#[derive(Debug, Clone, PartialEq, Eq)]
pub enum Check {
    UpToDate { latest: String },
    Available(Offer),
}

/// An offer, by value.
pub struct OfferView {
    pub version: Seq<char>,
    pub download_url: Seq<char>,
    pub download_size: u64,
    pub checksum_url: Seq<char>,
}

/// A check, by value.
pub enum CheckView {
    UpToDate { latest: Seq<char> },
    Available(OfferView),
}

impl View for Check {
    type V = CheckView;

    open spec fn view(&self) -> CheckView {
        match self {
            Check::UpToDate { latest } => CheckView::UpToDate { latest: latest@ },
            Check::Available(o) => CheckView::Available(
                OfferView {
                    version: o.version@,
                    download_url: o.download_url@,
                    download_size: o.download_size,
                    checksum_url: o.checksum_url@,
                },
            ),
        }
    }
}

/// A check or its error message, by value.
pub open spec fn outcome_view(r: Result<Check, String>) -> Result<CheckView, Seq<char>> {
    match r {
        Ok(c) => Ok(c@),
        Err(m) => Err(m@),
    }
}

/// What the JSON text `json` says, read into a release and taken by value; `None` when it is
/// not JSON.
pub uninterp spec fn release_of_json(json: Seq<char>) -> Option<ReleaseView>;

/// How `{:?}` renders a string: quoted, with escapes.
pub uninterp spec fn debug_quoted(s: Seq<char>) -> Seq<char>;

/// `serde_json::from_str` into a `serde_json::Value`, then the fields the updater reads:
/// `tag_name`, and for each entry of `assets` its `name`, `browser_download_url` and `size`.
#[verifier::external_body]
fn parse_release(json: &str) -> (r: Option<Release>)
    ensures
        release_view(r) == release_of_json(json@),
{
    let v: serde_json::Value = serde_json::from_str(json).ok()?;
    let text = |x: &serde_json::Value| x.as_str().map(String::from);
    let assets = v["assets"].as_array().map(|a| a.iter().map(|x| Asset {
        name: text(&x["name"]),
        url: text(&x["browser_download_url"]),
        size: x["size"].as_u64(),
    }).collect());
    Some(Release { tag: text(&v["tag_name"]), assets })
}

/// `format!("{:?}", s)`.
#[verifier::external_body]
fn debug_str(s: &str) -> (r: String)
    ensures
        r@ == debug_quoted(s@),
{
    format!("{s:?}")
}

pub open spec fn named(a: AssetView, name: Seq<char>) -> bool {
    a.name == Some(name)
}

/// The first asset called `name`.
pub open spec fn first_named(s: Seq<AssetView>, name: Seq<char>) -> Option<AssetView>
    decreases s.len(),
{
    if s.len() == 0 {
        None
    } else if named(s[0], name) {
        Some(s[0])
    } else {
        first_named(s.drop_first(), name)
    }
}

/// The download link and size of the first asset called `name`, if that asset comes from this
/// repository's release downloads.
pub open spec fn asset_link(release: ReleaseView, name: Seq<char>) -> Option<(Seq<char>, Option<u64>)> {
    match release.assets {
        None => None,
        Some(v) => match first_named(v, name) {
            None => None,
            Some(a) => match a.url {
                Some(u) => if DOWNLOAD_PREFIX@.is_prefix_of(u) {
                    Some((u, a.size))
                } else {
                    None
                },
                None => None,
            },
        },
    }
}

pub open spec fn tag_text(release: ReleaseView) -> Seq<char> {
    match release.tag {
        Some(t) => t,
        None => Seq::empty(),
    }
}

/// What a release means for the running version `current`.
pub open spec fn assessment(release: ReleaseView, current: Seq<char>, platform: Platform) -> Result<
    CheckView,
    Seq<char>,
> {
    let tag = tag_text(release);
    match version_of(tag) {
        None => Err("The latest release has an unexpected version tag ("@ + debug_quoted(tag)
            + ")."@),
        Some(latest) => match version_of(current) {
            None => Err("This copy has an unexpected version ("@ + debug_quoted(current) + ")."@),
            Some(running) => {
                let version = trim_start_char(tag, 'v');
                if version_le(latest, running) {
                    Ok(CheckView::UpToDate { latest: version })
                } else {
                    match (
                        asset_link(release, download_name_spec(platform, version)),
                        asset_link(release, checksum_name_spec(platform, version)),
                    ) {
                        (Some((download_url, Some(download_size))), Some((checksum_url, _))) => Ok(
                            CheckView::Available(
                                OfferView { version, download_url, download_size, checksum_url },
                            ),
                        ),
                        _ => Err("Version "@ + version + " is out, but its "@ + platform_word(
                            platform,
                        ) + " download is missing."@),
                    }
                }
            },
        },
    }
}

pub open spec fn link_view(r: Option<(String, Option<u64>)>) -> Option<(Seq<char>, Option<u64>)> {
    match r {
        Some((u, s)) => Some((u@, s)),
        None => None,
    }
}

fn find_link(release: &Release, name: &[char]) -> (r: Option<(String, Option<u64>)>)
    ensures
        link_view(r) == asset_link(release@, name@),
{
    let v = match &release.assets {
        None => return None,
        Some(v) => v,
    };
    let n = v.len();
    let mut i: usize = 0;
    assert(asset_views(v@).subrange(0, n as int) =~= asset_views(v@));
    while i < n
        invariant
            release.assets == Some(*v),
            n == v@.len(),
            i <= n,
            first_named(asset_views(v@), name@) == first_named(
                asset_views(v@).subrange(i as int, n as int),
                name@,
            ),
        decreases n - i,
    {
        let a = &v[i];
        let ghost rest = asset_views(v@).subrange(i as int, n as int);
        assert(rest[0] == a@);
        assert(rest.drop_first() =~= asset_views(v@).subrange(i + 1, n as int));
        let is_named = match &a.name {
            Some(nm) => {
                let c = chars_of(nm.as_str());
                seq_eq(c.as_slice(), name)
            },
            None => false,
        };
        if is_named {
            assert(named(a@, name@));
            assert(first_named(rest, name@) == Some(a@));
            return match &a.url {
                Some(u) => {
                    let uc = chars_of(u.as_str());
                    let pc = chars_of(DOWNLOAD_PREFIX);
                    if starts_with(uc.as_slice(), pc.as_slice()) {
                        Some((u.clone(), a.size))
                    } else {
                        None
                    }
                },
                None => None,
            };
        }
        i = i + 1;
    }
    None
}

/// Read a release against the running version `current`: up to date, an offer, or the reason
/// there is neither.
pub fn assess_release(release: &Release, current: &str, platform: Platform) -> (r: Result<
    Check,
    String,
>)
    ensures
        outcome_view(r) == assessment(release@, current@, platform),
{
    let empty = String::new();
    let tag: &str = match &release.tag {
        Some(t) => t.as_str(),
        None => empty.as_str(),
    };
    let latest = match parse_version(tag) {
        Some(v) => v,
        None => {
            let mut m = String::new();
            push_str(&mut m, "The latest release has an unexpected version tag (");
            let d = debug_str(tag);
            push_str(&mut m, d.as_str());
            push_str(&mut m, ").");
            return Err(m);
        },
    };
    let running = match parse_version(current) {
        Some(v) => v,
        None => {
            let mut m = String::new();
            push_str(&mut m, "This copy has an unexpected version (");
            let d = debug_str(current);
            push_str(&mut m, d.as_str());
            push_str(&mut m, ").");
            return Err(m);
        },
    };
    let tag_chars = chars_of(tag);
    let vchars = trim_start_char_exec(tag_chars.as_slice(), 'v');
    let version = string_of(vchars.as_slice());
    if version_not_newer(latest, running) {
        return Ok(Check::UpToDate { latest: version });
    }
    let dname = download_name(version.as_str(), platform);
    let cname = checksum_name(version.as_str(), platform);
    let dchars = chars_of(dname.as_str());
    let cchars = chars_of(cname.as_str());
    let download = find_link(release, dchars.as_slice());
    let checksum = find_link(release, cchars.as_slice());
    match (download, checksum) {
        (Some((download_url, Some(download_size))), Some((checksum_url, _))) => Ok(
            Check::Available(Offer { version, download_url, download_size, checksum_url }),
        ),
        _ => {
            let mut m = String::new();
            push_str(&mut m, "Version ");
            push_str(&mut m, version.as_str());
            push_str(&mut m, " is out, but its ");
            push_str(&mut m, platform_text(platform));
            push_str(&mut m, " download is missing.");
            Err(m)
        },
    }
}

/// Read GitHub's "latest release" answer, as JSON text, against the running version.
pub fn read_release(json: &str, current: &str, platform: Platform) -> (r: Result<Check, String>)
    ensures
        release_of_json(json@) is None ==> outcome_view(r) == Err::<CheckView, Seq<char>>(
            "GitHub's answer could not be read."@,
        ),
        release_of_json(json@) matches Some(release) ==> outcome_view(r) == assessment(
            release,
            current@,
            platform,
        ),
{
    match parse_release(json) {
        None => {
            let mut m = String::new();
            push_str(&mut m, "GitHub's answer could not be read.");
            Err(m)
        },
        Some(release) => assess_release(&release, current, platform),
    }
}

// ---------------------------------------------------------------------------- checksums

/// 64 hexadecimal digits.
pub open spec fn is_hash(h: Seq<char>) -> bool {
    h.len() == 64 && forall|i: int| 0 <= i < h.len() ==> is_ascii_hex(#[trigger] h[i])
}

pub open spec fn nonblank_pred() -> spec_fn(Seq<char>) -> bool {
    |l: Seq<char>| !is_blank(l)
}

/// The published checksum file: exactly one line that is not blank, holding two fields, a
/// 64-digit hash and the name of this download (optionally marked `*`, as binary). The hash
/// comes back in lower case.
pub open spec fn checksum_of(text: Seq<char>, dmg: Seq<char>) -> Option<Seq<char>> {
    let ls = lines(text).filter(nonblank_pred());
    if ls.len() != 1 {
        None
    } else {
        let f = words(ls[0]);
        if f.len() != 2 {
            None
        } else {
            let hash = lower_seq(f[0]);
            if is_hash(hash) && trim_start_char(f[1], '*') == dmg {
                Some(hash)
            } else {
                None
            }
        }
    }
}

pub open spec fn checksum_message() -> Seq<char> {
    "The published checksum is not in the expected form."@
}

fn hash_chars(h: &[char]) -> (r: bool)
    ensures
        r == is_hash(h@),
{
    if h.len() != 64 {
        return false;
    }
    let mut i: usize = 0;
    while i < h.len()
        invariant
            h@.len() == 64,
            i <= h@.len(),
            forall|j: int| 0 <= j < i ==> is_ascii_hex(#[trigger] h@[j]),
        decreases h@.len() - i,
    {
        if !char_is_hex(h[i]) {
            return false;
        }
        i = i + 1;
    }
    true
}

/// The lines of `text` that are not blank.
fn nonblank_lines(text: &[char]) -> (r: Vec<Vec<char>>)
    ensures
        views(r@) == lines(text@).filter(nonblank_pred()),
{
    let ls = lines_chars(text);
    let ghost all = lines(text@);
    let n = ls.len();
    let mut kept: Vec<Vec<char>> = Vec::new();
    let mut i: usize = 0;
    while i < n
        invariant
            n == ls@.len(),
            views(ls@) == all,
            all == lines(text@),
            i <= n,
            views(kept@) == all.take(i as int).filter(nonblank_pred()),
        decreases n - i,
    {
        assert(views(ls@)[i as int] == ls@[i as int]@);
        let ghost before = all.take(i as int);
        let ghost after = all.take(i + 1);
        assert(after.drop_last() =~= before);
        proof {
            reveal(Seq::filter);
        }
        let l = &ls[i];
        if !is_blank_exec(l.as_slice()) {
            let ghost prev = views(kept@);
            let copy = slice_chars(l.as_slice(), 0, l.len());
            assert(copy@ =~= l@);
            assert(after.last() == l@);
            kept.push(copy);
            assert(views(kept@) =~= prev.push(after.last()));
            assert(after.filter(nonblank_pred()) == before.filter(nonblank_pred()).push(
                after.last(),
            ));
        } else {
            assert(after.filter(nonblank_pred()) == before.filter(nonblank_pred()));
        }
        i = i + 1;
    }
    assert(all.take(n as int) =~= all);
    kept
}

/// Check the published checksum file for the download called `dmg`, and give its hash.
pub fn parse_checksum(text: &str, dmg: &str) -> (r: Result<String, String>)
    ensures
        checksum_of(text@, dmg@) matches Some(h) ==> (r matches Ok(s) && s@ == h),
        checksum_of(text@, dmg@) is None ==> (r matches Err(m) && m@ == checksum_message()),
{
    let chars = chars_of(text);
    let ls = nonblank_lines(chars.as_slice());
    if ls.len() == 1 {
        assert(views(ls@)[0] == ls@[0]@);
        let fields = words_chars(ls[0].as_slice());
        if fields.len() == 2 {
            assert(views(fields@)[0] == fields@[0]@);
            assert(views(fields@)[1] == fields@[1]@);
            let hash = to_ascii_lowercase(fields[0].as_slice());
            let name = trim_start_char_exec(fields[1].as_slice(), '*');
            let d = chars_of(dmg);
            if hash_chars(hash.as_slice()) && seq_eq(name.as_slice(), d.as_slice()) {
                return Ok(string_of(hash.as_slice()));
            }
        }
    }
    let mut m = String::new();
    push_str(&mut m, "The published checksum is not in the expected form.");
    Err(m)
}

pub open spec fn non_ws_pred() -> spec_fn(char) -> bool {
    |c: char| !is_ws(c)
}

/// A line's hash, if it has one: its first field, or else the whole line with white space
/// removed (tools that space the bytes apart), in lower case.
pub open spec fn line_hash(line: Seq<char>) -> Option<Seq<char>> {
    let w = words(line);
    if w.len() == 0 {
        None
    } else if is_hash(w[0]) {
        Some(lower_seq(w[0]))
    } else if is_hash(line.filter(non_ws_pred())) {
        Some(lower_seq(line.filter(non_ws_pred())))
    } else {
        None
    }
}

/// The first line's hash among `ls`.
pub open spec fn first_hash(ls: Seq<Seq<char>>) -> Option<Seq<char>>
    decreases ls.len(),
{
    if ls.len() == 0 {
        None
    } else {
        match line_hash(ls[0]) {
            Some(h) => Some(h),
            None => first_hash(ls.drop_first()),
        }
    }
}

fn without_ws(line: &[char]) -> (r: Vec<char>)
    ensures
        r@ == line@.filter(non_ws_pred()),
{
    let mut r: Vec<char> = Vec::new();
    let mut i: usize = 0;
    while i < line.len()
        invariant
            i <= line@.len(),
            r@ == line@.take(i as int).filter(non_ws_pred()),
        decreases line@.len() - i,
    {
        let ghost before = line@.take(i as int);
        let ghost after = line@.take(i + 1);
        assert(after.drop_last() =~= before);
        proof {
            reveal(Seq::filter);
        }
        let c = line[i];
        if !char_is_ws(c) {
            r.push(c);
            assert(after.filter(non_ws_pred()) == before.filter(non_ws_pred()).push(c));
        } else {
            assert(after.filter(non_ws_pred()) == before.filter(non_ws_pred()));
        }
        i = i + 1;
    }
    assert(line@.take(line@.len() as int) =~= line@);
    r
}

fn line_hash_chars(line: &[char]) -> (r: Option<Vec<char>>)
    ensures
        match r {
            Some(h) => line_hash(line@) == Some(h@),
            None => line_hash(line@) is None,
        },
{
    let w = words_chars(line);
    if w.len() == 0 {
        return None;
    }
    assert(views(w@)[0] == w@[0]@);
    if hash_chars(w[0].as_slice()) {
        return Some(to_ascii_lowercase(w[0].as_slice()));
    }
    let joined = without_ws(line);
    if hash_chars(joined.as_slice()) {
        return Some(to_ascii_lowercase(joined.as_slice()));
    }
    None
}

/// The first 64-digit hash in a hashing tool's output, in lower case. `certutil` puts a
/// heading line first, and older versions space the bytes apart; `shasum` puts the hash first.
pub fn read_sha256(output: &str) -> (r: Option<String>)
    ensures
        match r {
            Some(h) => first_hash(lines(output@)) == Some(h@),
            None => first_hash(lines(output@)) is None,
        },
{
    let chars = chars_of(output);
    let ls = lines_chars(chars.as_slice());
    let ghost all = lines(output@);
    let n = ls.len();
    let mut i: usize = 0;
    assert(all.subrange(0, n as int) =~= all);
    while i < n
        invariant
            n == ls@.len(),
            views(ls@) == all,
            all == lines(output@),
            i <= n,
            first_hash(all) == first_hash(all.subrange(i as int, n as int)),
        decreases n - i,
    {
        let ghost rest = all.subrange(i as int, n as int);
        assert(views(ls@)[i as int] == ls@[i as int]@);
        assert(rest[0] == ls@[i as int]@);
        assert(rest.drop_first() =~= all.subrange(i + 1, n as int));
        match line_hash_chars(ls[i].as_slice()) {
            Some(h) => {
                return Some(string_of(h.as_slice()));
            },
            None => {},
        }
        i = i + 1;
    }
    None
}

/// The final check on a finished download: its size must match GitHub's, and its SHA-256 the
/// published one.
pub fn check_download(size: u64, offer_size: u64, actual: &str, expected: &str) -> (r: Result<
    (),
    String,
>)
    ensures
        size != offer_size ==> (r matches Err(m) && m@
            == "The download is incomplete — its size does not match GitHub's."@),
        size == offer_size && actual@ != expected@ ==> (r matches Err(m) && m@
            == "The download does not match its published SHA-256 checksum, so it was deleted."@),
        r is Ok <==> (size == offer_size && actual@ == expected@),
{
    let mut m = String::new();
    if size != offer_size {
        push_str(&mut m, "The download is incomplete — its size does not match GitHub's.");
        return Err(m);
    }
    let a = chars_of(actual);
    let e = chars_of(expected);
    if !seq_eq(a.as_slice(), e.as_slice()) {
        push_str(
            &mut m,
            "The download does not match its published SHA-256 checksum, so it was deleted.",
        );
        return Err(m);
    }
    Ok(())
}

// ---------------------------------------------------------------------------- laws

/// Release versions are totally ordered: by major, then minor, then patch.
pub proof fn law_versions_are_totally_ordered(a: Version, b: Version, c: Version)
    ensures
        version_le(a, a),
        version_le(a, b) || version_le(b, a),
        version_le(a, b) && version_le(b, a) ==> a == b,
        version_le(a, b) && version_le(b, c) ==> version_le(a, c),
{
}

/// The same or an older release is never offered: it is reported as up to date.
pub proof fn law_no_offer_unless_newer(release: ReleaseView, current: Seq<char>, platform: Platform)
    requires
        version_of(tag_text(release)) matches Some(latest) && version_of(current) matches Some(
            running,
        ) && version_le(latest, running),
    ensures
        assessment(release, current, platform) == Ok::<CheckView, Seq<char>>(
            CheckView::UpToDate { latest: trim_start_char(tag_text(release), 'v') },
        ),
{
}

/// An offer is made only for a strictly newer release, only when both of this platform's
/// files are published under their exact names, and only with links into this repository's
/// release downloads.
pub proof fn law_offers_are_newer_named_and_from_this_repository(
    release: ReleaseView,
    current: Seq<char>,
    platform: Platform,
    offer: OfferView,
)
    requires
        assessment(release, current, platform) == Ok::<CheckView, Seq<char>>(
            CheckView::Available(offer),
        ),
    ensures
        version_of(tag_text(release)) is Some,
        version_of(current) is Some,
        !version_le(version_of(tag_text(release))->0, version_of(current)->0),
        offer.version == trim_start_char(tag_text(release), 'v'),
        asset_link(release, download_name_spec(platform, offer.version)) == Some(
            (offer.download_url, Some(offer.download_size)),
        ),
        asset_link(release, checksum_name_spec(platform, offer.version)) matches Some((u, _)) && u
            == offer.checksum_url,
        DOWNLOAD_PREFIX@.is_prefix_of(offer.download_url),
        DOWNLOAD_PREFIX@.is_prefix_of(offer.checksum_url),
{
    let v = trim_start_char(tag_text(release), 'v');
    lemma_links_from_repository(release, download_name_spec(platform, v));
    lemma_links_from_repository(release, checksum_name_spec(platform, v));
}

/// Every link the updater takes points into this repository's release downloads.
pub proof fn lemma_links_from_repository(release: ReleaseView, name: Seq<char>)
    ensures
        asset_link(release, name) matches Some((u, _)) ==> DOWNLOAD_PREFIX@.is_prefix_of(u),
{
}

/// A hash taken from a checksum file is 64 hexadecimal digits in lower case.
pub proof fn law_checksums_are_lowercase_hashes(text: Seq<char>, dmg: Seq<char>)
    requires
        checksum_of(text, dmg) is Some,
    ensures
        is_hash(checksum_of(text, dmg)->0),
        lower_seq(checksum_of(text, dmg)->0) == checksum_of(text, dmg)->0,
{
    let ls = lines(text).filter(nonblank_pred());
    let f = words(ls[0]);
    let h = lower_seq(f[0]);
    assert forall|i: int| 0 <= i < h.len() implies crate::text::lower(#[trigger] h[i]) == h[i] by {
        let c = f[0][i];
        if crate::text::is_ascii_upper(c) {
            assert(h[i] == ((c as u32) + 32) as char);
        }
    }
    assert(lower_seq(h) =~= h);
}

/// A release is newer exactly as its numbers say, read left to right: a larger major wins, then
/// at an equal major a larger minor, then at equal major and minor a larger patch. A strictly
/// newer version is never "not newer", and an older one always is.
pub proof fn law_versions_increase_with_each_number(a: Version, b: Version)
    ensures
        a.0 < b.0 ==> version_le(a, b) && !version_le(b, a),
        a.0 == b.0 && a.1 < b.1 ==> version_le(a, b) && !version_le(b, a),
        a.0 == b.0 && a.1 == b.1 && a.2 < b.2 ==> version_le(a, b) && !version_le(b, a),
        a == b ==> version_le(a, b),
{
}

/// A release whose version is strictly newer than the running one, by major, minor or patch,
/// is never reported as up to date: it is offered, or its missing files are reported.
pub proof fn law_newer_release_is_not_up_to_date(
    release: ReleaseView,
    current: Seq<char>,
    platform: Platform,
)
    requires
        version_of(tag_text(release)) matches Some(latest) && version_of(current) matches Some(
            running,
        ) && (latest.0 > running.0 || (latest.0 == running.0 && latest.1 > running.1) || (
        latest.0 == running.0 && latest.1 == running.1 && latest.2 > running.2)),
    ensures
        !(assessment(release, current, platform) matches Ok(CheckView::UpToDate { .. })),
{
}

} // verus!
