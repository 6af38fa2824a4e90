//! Where the installed program keeps its things: one folder in the user's local application
//! data, never inside a project or next to the source.

use crate::platform::Platform;
use vstd::prelude::*;

verus! {

/// The application-data folder name, matching the bundle identifier on macOS.
pub open spec fn app_dir_spec(platform: Platform) -> Seq<char> {
    if platform is MacOs {
        "com.huck.voice-to-text"@
    } else {
        "Huck's Voice to Text"@
    }
}

pub fn app_dir(platform: Platform) -> (r: &'static str)
    ensures
        r@ == app_dir_spec(platform),
{
    if platform.is_macos() {
        "com.huck.voice-to-text"
    } else {
        "Huck's Voice to Text"
    }
}

/// A single ordinary path component: not empty, no separator, no drive colon, and neither `.`
/// nor `..` (which `Path::join` drops from a verbatim path).
pub open spec fn plain_name(name: Seq<char>) -> bool {
    &&& name.len() > 0
    &&& forall|i: int|
        0 <= i < name.len() ==> #[trigger] name[i] != '/' && name[i] != '\\' && name[i] != ':'
    &&& name != seq!['.']
    &&& name != seq!['.', '.']
}

/// `Path::join` of a plain name onto `base`, as text.
pub uninterp spec fn path_joined(base: Seq<char>, name: Seq<char>) -> Seq<char>;

/// `dirs::data_local_dir`, as text. Where it points depends on the user and the system, so
/// nothing is said of it beyond being a path or nothing.
#[verifier::external_body]
pub(crate) fn data_local_dir() -> (r: Option<String>) {
    dirs::data_local_dir().map(|p| p.to_string_lossy().into_owned())
}

/// A Windows verbatim path, `\\?\...`, which `Path::join` rebuilds from its components.
pub open spec fn verbatim(path: Seq<char>) -> bool {
    "\\\\?\\"@.is_prefix_of(path)
}

/// `Path::join(base, name)` as text. A plain name (an ordinary component, never `.` or `..`) is
/// pushed as the last component, so the result ends with it; outside verbatim paths it is appended after a separator where one is needed, so
/// the result also begins with `base`. Which separator, and whether one is added, is left to the
/// named result.
#[verifier::external_body]
fn join_path(base: &str, name: &str) -> (r: String)
    requires
        plain_name(name@),
    ensures
        r@ == path_joined(base@, name@),
        name@.is_suffix_of(r@),
        !verbatim(base@) ==> base@.is_prefix_of(r@),
{
    std::path::Path::new(base).join(name).to_string_lossy().into_owned()
}

/// The program's folder inside a given local application-data directory.
pub open spec fn data_dir_in(local: Seq<char>, platform: Platform) -> Seq<char> {
    path_joined(local, app_dir_spec(platform))
}

/// The program's folder: `~/Library/Application Support/com.huck.voice-to-text` on macOS,
/// `%LOCALAPPDATA%\Huck's Voice to Text` on Windows. `None` when the system has no local
/// application-data directory.
pub fn data_dir(platform: Platform) -> (r: Option<String>)
    ensures
        r matches Some(d) ==> exists|local: Seq<char>| d@ == #[trigger] data_dir_in(local, platform),
{
    match data_local_dir() {
        Some(local) => Some(data_dir_under(local.as_str(), platform)),
        None => None,
    }
}

/// The program's folder inside the local application-data directory `local`.
pub fn data_dir_under(local: &str, platform: Platform) -> (r: String)
    ensures
        r@ == data_dir_in(local@, platform),
        !verbatim(local@) ==> local@.is_prefix_of(r@),
{
    proof {
        reveal_strlit("com.huck.voice-to-text");
        reveal_strlit("Huck's Voice to Text");
    }
    join_path(local, app_dir(platform))
}

/// An entry `name` inside the program's folder `data`.
pub fn entry_under(data: &str, name: &str) -> (r: String)
    requires
        plain_name(name@),
    ensures
        r@ == path_joined(data@, name@),
        !verbatim(data@) ==> data@.is_prefix_of(r@),
{
    join_path(data, name)
}

/// Whether `path` is the entry `name` of the program's folder on some local directory, and so
/// lies under that folder: it begins with the folder's path, outside verbatim paths (which
/// `Path::join` rebuilds from their components).
pub open spec fn app_entry(path: Seq<char>, platform: Platform, name: Seq<char>) -> bool {
    exists|local: Seq<char>|
        {
            &&& path == path_joined(#[trigger] data_dir_in(local, platform), name)
            &&& !verbatim(data_dir_in(local, platform)) ==> data_dir_in(
                local,
                platform,
            ).is_prefix_of(path)
        }
}

fn entry(platform: Platform, name: &str) -> (r: Option<String>)
    requires
        plain_name(name@),
    ensures
        r matches Some(p) ==> app_entry(p@, platform, name@),
{
    match data_dir(platform) {
        Some(d) => {
            let p = entry_under(d.as_str(), name);
            proof {
                let local = choose|local: Seq<char>| d@ == #[trigger] data_dir_in(local, platform);
                assert(p@ == path_joined(data_dir_in(local, platform), name@));
            }
            Some(p)
        },
        None => None,
    }
}

pub fn models_dir(platform: Platform) -> (r: Option<String>)
    ensures
        r matches Some(p) ==> app_entry(p@, platform, "models"@),
{
    proof {
        reveal_strlit("models");
        assert(seq!['.'].len() == 1 && seq!['.', '.'].len() == 2);
    }
    entry(platform, "models")
}

pub fn drafts_dir(platform: Platform) -> (r: Option<String>)
    ensures
        r matches Some(p) ==> app_entry(p@, platform, "drafts"@),
{
    proof {
        reveal_strlit("drafts");
        assert(seq!['.'].len() == 1 && seq!['.', '.'].len() == 2);
    }
    entry(platform, "drafts")
}

pub fn settings_path(platform: Platform) -> (r: Option<String>)
    ensures
        r matches Some(p) ==> app_entry(p@, platform, "settings.json"@),
{
    proof {
        reveal_strlit("settings.json");
        assert(seq!['.'].len() == 1 && seq!['.', '.'].len() == 2);
    }
    entry(platform, "settings.json")
}

} // verus!
