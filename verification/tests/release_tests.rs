use self_update::release::select_asset;
use self_update::release::str_contains;
use self_update::release::ReleaseAsset;

fn asset(name: &str) -> ReleaseAsset {
    ReleaseAsset {
        download_url: format!("https://example.com/{}", name),
        name: name.to_owned(),
    }
}

#[test]
fn str_contains_finds_substrings() {
    assert!(str_contains("app-x86_64-unknown-linux-gnu.tar.gz", "x86_64-unknown-linux-gnu"));
    assert!(str_contains("abc", ""));
    assert!(str_contains("abc", "abc"));
    assert!(!str_contains("abc", "abcd"));
    assert!(!str_contains("app-aarch64-apple-darwin.tar.gz", "x86_64"));
}

#[test]
fn select_asset_is_deterministic_first_match() {
    let assets = vec![
        asset("app-x86_64-unknown-linux-gnu.tar.gz"),
        asset("app-aarch64-apple-darwin.tar.gz"),
    ];
    let picked = select_asset(&assets, "x86_64-unknown-linux-gnu").unwrap();
    assert_eq!(picked.name, "app-x86_64-unknown-linux-gnu.tar.gz");
    assert_eq!(picked.download_url, "https://example.com/app-x86_64-unknown-linux-gnu.tar.gz");
}

#[test]
fn select_asset_picks_the_first_of_several_matches() {
    let assets = vec![
        asset("other.txt"),
        asset("one-x86_64-unknown-linux-gnu.tar.gz"),
        asset("two-x86_64-unknown-linux-gnu.tar.gz"),
    ];
    let picked = select_asset(&assets, "x86_64-unknown-linux-gnu").unwrap();
    assert_eq!(picked.name, "one-x86_64-unknown-linux-gnu.tar.gz");
}

#[test]
fn select_asset_fails_when_nothing_matches() {
    let assets = vec![asset("app-aarch64-apple-darwin.tar.gz")];
    let e = select_asset(&assets, "x86_64-unknown-linux-gnu").unwrap_err();
    assert!(!e.is_config());
    assert_eq!(
        e.message(),
        "No release asset found for current target: `x86_64-unknown-linux-gnu`"
    );

    let empty: Vec<ReleaseAsset> = Vec::new();
    assert!(select_asset(&empty, "x86_64").is_err());
}

#[test]
fn from_parts_requires_both_fields() {
    let ok = ReleaseAsset::from_parts(
        Some("https://example.com/a.tar.gz".to_owned()),
        Some("a.tar.gz".to_owned()),
    )
    .unwrap();
    assert_eq!(ok.download_url, "https://example.com/a.tar.gz");
    assert_eq!(ok.name, "a.tar.gz");

    let e = ReleaseAsset::from_parts(None, Some("a.tar.gz".to_owned())).unwrap_err();
    assert_eq!(e.message(), "Asset missing `browser_download_url`");

    let e = ReleaseAsset::from_parts(Some("u".to_owned()), None).unwrap_err();
    assert_eq!(e.message(), "Asset missing `name`");
}

#[test]
fn metadata_parsing_reads_tag_and_assets() {
    let v: serde_json::Value = serde_json::from_str(
        r#"{"tag_name":"v1.2.0","assets":[{"name":"app-x86_64-unknown-linux-gnu.tar.gz","browser_download_url":"https://example.com/app.tar.gz"}]}"#,
    )
    .unwrap();
    let meta = self_update::jsonval::parse_release_metadata(&v).unwrap();
    assert_eq!(meta.tag, "v1.2.0");
    assert_eq!(meta.assets.len(), 1);
    assert_eq!(meta.assets[0].name, "app-x86_64-unknown-linux-gnu.tar.gz");
    assert_eq!(meta.assets[0].download_url, "https://example.com/app.tar.gz");
}

#[test]
fn metadata_parsing_reports_missing_fields() {
    let v: serde_json::Value = serde_json::from_str(r#"{"assets":[]}"#).unwrap();
    let e = self_update::jsonval::parse_tag(&v).unwrap_err();
    assert_eq!(e.message(), "No tag_name found for latest release");

    let v: serde_json::Value = serde_json::from_str(r#"{"tag_name":"v1.0.0"}"#).unwrap();
    let e = self_update::jsonval::parse_release_metadata(&v).unwrap_err();
    assert_eq!(e.message(), "No release assets found!");

    let v: serde_json::Value =
        serde_json::from_str(r#"{"tag_name":"v1.0.0","assets":[{"name":"a"}]}"#).unwrap();
    let e = self_update::jsonval::parse_release_metadata(&v).unwrap_err();
    assert_eq!(e.message(), "Asset missing `browser_download_url`");

    let v: serde_json::Value =
        serde_json::from_str(r#"{"tag_name":"v1.0.0","assets":[{"browser_download_url":"u"}]}"#)
            .unwrap();
    let e = self_update::jsonval::parse_release_metadata(&v).unwrap_err();
    assert_eq!(e.message(), "Asset missing `name`");
}
