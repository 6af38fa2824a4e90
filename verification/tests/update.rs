use hvtt::platform::Platform;
use hvtt::update::{
    assess_release, check_download, checksum_name, download_name, parse_checksum, parse_version,
    read_release, read_sha256, Asset, Check, Release, Version, DOWNLOAD_PREFIX,
};

const MAC: Platform = Platform::MacOs;

fn json_text(s: &str) -> String {
    format!("\"{}\"", s.replace('\\', "\\\\").replace('"', "\\\""))
}

fn release(tag: &str, assets: &[(&str, &str, u64)]) -> String {
    let assets: Vec<String> = assets
        .iter()
        .map(|(n, u, s)| {
            format!("{{\"name\":{},\"browser_download_url\":{},\"size\":{}}}", json_text(n), json_text(u), s)
        })
        .collect();
    format!("{{\"tag_name\":{},\"assets\":[{}]}}", json_text(tag), assets.join(","))
}

fn url(version: &str, file: &str) -> String {
    format!("{DOWNLOAD_PREFIX}v{version}/{file}")
}

#[test]
fn hashes_are_read_from_either_tool() {
    let hash = "ab".repeat(32);
    assert_eq!(read_sha256(&format!("{hash}  file.dmg\n")), Some(hash.clone()));
    let certutil = format!(
        "SHA256 hash of C:\\t\\file.exe:\r\n{}\r\nCertUtil: -hashfile command completed successfully.\r\n",
        hash.to_uppercase()
    );
    assert_eq!(read_sha256(&certutil), Some(hash.clone()));
    let spaced = hash
        .as_bytes()
        .chunks(2)
        .map(|c| std::str::from_utf8(c).unwrap())
        .collect::<Vec<_>>()
        .join(" ");
    assert_eq!(read_sha256(&format!("SHA256 hash of file:\n{spaced}\n")), Some(hash));
    assert_eq!(read_sha256("CertUtil: error\n"), None);
}

#[test]
fn versions_parse_and_order() {
    assert_eq!(parse_version("v0.1.0"), Some(Version(0, 1, 0)));
    assert_eq!(parse_version("0.10.2"), Some(Version(0, 10, 2)));
    assert!(parse_version("v0.10.0") > parse_version("v0.9.9"));
    for bad in ["", "v1", "1.2", "1.2.3.4", "v1.2.x", "latest"] {
        assert_eq!(parse_version(bad), None, "{bad:?} is not a release version");
    }
}

#[test]
fn the_same_or_an_older_release_is_up_to_date() {
    let json = release("v0.1.0", &[]);
    assert_eq!(read_release(&json, "0.1.0", MAC).unwrap(), Check::UpToDate { latest: "0.1.0".into() });
    assert!(matches!(read_release(&json, "0.2.0", MAC).unwrap(), Check::UpToDate { .. }));
}

#[test]
fn a_newer_release_with_both_files_is_offered() {
    let (dmg, sum) = (download_name("0.2.0", MAC), checksum_name("0.2.0", MAC));
    let json = release("v0.2.0", &[(&dmg, &url("0.2.0", &dmg), 123), (&sum, &url("0.2.0", &sum), 90)]);
    let Check::Available(offer) = read_release(&json, "0.1.0", MAC).unwrap() else {
        panic!("a newer release should be offered")
    };
    assert_eq!(offer.version, "0.2.0");
    assert_eq!(offer.download_size, 123);
    assert!(offer.download_url.ends_with(&dmg));
}

#[test]
fn a_newer_release_missing_its_checksum_is_refused() {
    let dmg = download_name("0.2.0", MAC);
    let json = release("v0.2.0", &[(&dmg, &url("0.2.0", &dmg), 123)]);
    assert!(read_release(&json, "0.1.0", MAC).unwrap_err().contains("missing"));
}

#[test]
fn a_download_from_anywhere_but_this_repository_is_refused() {
    let (dmg, sum) = (download_name("0.2.0", MAC), checksum_name("0.2.0", MAC));
    let elsewhere = format!("https://example.com/{dmg}");
    let json = release("v0.2.0", &[(&dmg, &elsewhere, 123), (&sum, &url("0.2.0", &sum), 90)]);
    assert!(read_release(&json, "0.1.0", MAC).is_err());
    let http = url("0.2.0", &dmg).replace("https://", "http://");
    let json = release("v0.2.0", &[(&dmg, &http, 123), (&sum, &url("0.2.0", &sum), 90)]);
    assert!(read_release(&json, "0.1.0", MAC).is_err());
}

#[test]
fn a_differently_named_asset_is_not_taken_for_the_dmg() {
    let sum = checksum_name("0.2.0", MAC);
    let other = "HucksVoiceToText-0.2.0-macOS-universal.dmg";
    let json = release("v0.2.0", &[(other, &url("0.2.0", other), 123), (&sum, &url("0.2.0", &sum), 90)]);
    assert!(read_release(&json, "0.1.0", MAC).is_err());
}

#[test]
fn checksum_files_must_name_this_dmg_on_one_line() {
    let dmg = download_name("0.2.0", MAC);
    let hash = "a".repeat(64);
    assert_eq!(parse_checksum(&format!("{hash}  {dmg}\n"), &dmg).unwrap(), hash);
    assert_eq!(parse_checksum(&format!("{}  *{dmg}", hash.to_uppercase()), &dmg).unwrap(), hash);
    assert!(parse_checksum(&format!("{hash}  other.dmg"), &dmg).is_err());
    assert!(parse_checksum(&format!("{hash}  {dmg}\n{hash}  {dmg}"), &dmg).is_err());
    assert!(parse_checksum(&format!("{}  {dmg}", "a".repeat(63)), &dmg).is_err());
    assert!(parse_checksum(&format!("{}  {dmg}", "g".repeat(64)), &dmg).is_err());
    assert!(parse_checksum("", &dmg).is_err());
}

#[test]
fn the_asset_names_of_each_platform() {
    assert_eq!(download_name("1.2.3", MAC), "HucksVoiceToText-1.2.3-macOS-arm64-unsigned-beta.dmg");
    assert_eq!(download_name("1.2.3", Platform::Windows), "HucksVoiceToText-1.2.3-windows-x64-setup.exe");
    assert_eq!(
        checksum_name("1.2.3", Platform::Windows),
        "HucksVoiceToText-1.2.3-windows-x64-setup.exe.sha256.txt"
    );
}

#[test]
fn what_github_said_wrong_is_told_plainly() {
    assert_eq!(read_release("not json", "0.1.0", MAC).unwrap_err(), "GitHub's answer could not be read.");
    let json = release("nightly", &[]);
    assert_eq!(
        read_release(&json, "0.1.0", MAC).unwrap_err(),
        "The latest release has an unexpected version tag (\"nightly\")."
    );
    let json = release("v0.1.0", &[]);
    assert_eq!(read_release(&json, "dev", MAC).unwrap_err(), "This copy has an unexpected version (\"dev\").");
    let json = release("v0.2.0", &[]);
    assert_eq!(
        read_release(&json, "0.1.0", Platform::Windows).unwrap_err(),
        "Version 0.2.0 is out, but its Windows download is missing."
    );
    assert_eq!(
        read_release("{\"assets\":[]}", "0.1.0", MAC).unwrap_err(),
        "The latest release has an unexpected version tag (\"\")."
    );
}

#[test]
fn the_first_asset_of_a_name_decides() {
    let (dmg, sum) = (download_name("0.3.0", MAC), checksum_name("0.3.0", MAC));
    let release = Release {
        tag: Some("v0.3.0".into()),
        assets: Some(vec![
            Asset { name: Some(dmg.clone()), url: Some("https://example.com/x".into()), size: Some(5) },
            Asset { name: Some(dmg.clone()), url: Some(url("0.3.0", &dmg)), size: Some(5) },
            Asset { name: Some(sum.clone()), url: Some(url("0.3.0", &sum)), size: None },
        ]),
    };
    assert!(assess_release(&release, "0.2.9", MAC).is_err());
    let release = Release {
        tag: Some("v0.3.0".into()),
        assets: Some(vec![
            Asset { name: Some(dmg.clone()), url: Some(url("0.3.0", &dmg)), size: None },
            Asset { name: Some(sum.clone()), url: Some(url("0.3.0", &sum)), size: Some(1) },
        ]),
    };
    assert!(assess_release(&release, "0.2.9", MAC).unwrap_err().contains("missing"));
}

#[test]
fn a_download_is_kept_only_when_it_matches() {
    assert_eq!(check_download(10, 10, "ab", "ab"), Ok(()));
    assert_eq!(
        check_download(9, 10, "ab", "ab").unwrap_err(),
        "The download is incomplete — its size does not match GitHub's."
    );
    assert_eq!(
        check_download(10, 10, "ab", "cd").unwrap_err(),
        "The download does not match its published SHA-256 checksum, so it was deleted."
    );
}
