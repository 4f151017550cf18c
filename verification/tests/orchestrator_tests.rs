use std::io::Read;

use core::cmp::Ordering;
use self_update::compare;
use self_update::confirm::is_affirmative;
use self_update::release::ReleaseAsset;
use self_update::replace::replace_exe;
use self_update::strip_v;
use self_update::AbortReason;
use self_update::UpdateStep;
use self_update::Updater;

fn configured_updater() -> Updater {
    let mut b = Updater::configure().unwrap();
    b.repo_owner("jaemk");
    b.repo_name("self_update");
    b.target("x86_64-unknown-linux-gnu");
    b.bin_name("myapp");
    b.bin_install_path("/usr/local/bin/myapp");
    b.current_version("1.0.0");
    b.build().unwrap()
}

#[test]
fn builder_requires_every_field_and_reports_the_first_missing() {
    let b = Updater::configure().unwrap();
    let e = b.build().unwrap_err();
    assert!(e.is_config());
    assert_eq!(e.message(), "`repo_owner` required");

    let mut b = Updater::configure().unwrap();
    b.repo_owner("jaemk");
    let e = b.build().unwrap_err();
    assert_eq!(e.message(), "`repo_name` required");

    let mut b = Updater::configure().unwrap();
    b.repo_owner("jaemk");
    b.repo_name("self_update");
    b.target("x86_64-unknown-linux-gnu");
    b.bin_name("myapp");
    b.bin_install_path("/usr/local/bin/myapp");
    let e = b.build().unwrap_err();
    assert_eq!(e.message(), "`current_version` required");
}

#[test]
fn empty_required_fields_are_rejected() {
    let mut b = Updater::configure().unwrap();
    b.repo_owner("");
    b.repo_name("self_update");
    b.target("x86_64-unknown-linux-gnu");
    b.bin_name("myapp");
    b.bin_install_path("/usr/local/bin/myapp");
    b.current_version("1.0.0");
    let e = b.build().unwrap_err();
    assert!(e.is_config());
    assert_eq!(e.message(), "`repo_owner` required");

    let mut b = Updater::configure().unwrap();
    b.repo_owner("jaemk");
    b.repo_name("self_update");
    b.target("x86_64-unknown-linux-gnu");
    b.bin_name("myapp");
    b.bin_install_path("/usr/local/bin/myapp");
    b.current_version("");
    let e = b.build().unwrap_err();
    assert!(e.is_config());
    assert_eq!(e.message(), "`current_version` required");
}

#[test]
fn bin_name_defaults_the_in_tarball_path() {
    let mut b = Updater::configure().unwrap();
    b.repo_owner("o");
    b.repo_name("n");
    b.target("t");
    b.bin_name("myapp");
    b.bin_install_path("/usr/local/bin/myapp");
    b.current_version("1.0.0");
    let u = b.build().unwrap();
    assert_eq!(u.bin_path_in_tarball, "myapp");

    let mut b = Updater::configure().unwrap();
    b.repo_owner("o");
    b.repo_name("n");
    b.target("t");
    b.bin_path_in_tarball("myapp/myapp");
    b.bin_name("myapp");
    b.bin_install_path("/usr/local/bin/myapp");
    b.current_version("1.0.0");
    let u = b.build().unwrap();
    assert_eq!(u.bin_path_in_tarball, "myapp/myapp");
}

#[test]
fn api_url_names_the_repository() {
    let u = configured_updater();
    assert_eq!(
        u.api_url(),
        "https://api.github.com/repos/jaemk/self_update/releases/latest"
    );
}

#[test]
fn equal_or_older_tag_aborts_cleanly() {
    let u = configured_updater();
    let step = u.on_tag(u.begin(), "v1.0.0");
    assert!(matches!(step, UpdateStep::Aborted { reason: AbortReason::AlreadyUpToDate }));

    let step = u.on_tag(u.begin(), "v0.9.0");
    assert!(matches!(step, UpdateStep::Aborted { reason: AbortReason::AlreadyUpToDate }));
}

#[test]
fn declined_confirmation_aborts_cleanly() {
    let u = configured_updater();
    let step = u.on_tag(u.begin(), "v1.2.0");
    let assets = vec![ReleaseAsset {
        download_url: "https://example.com/app.tar.gz".to_owned(),
        name: "myapp-x86_64-unknown-linux-gnu.tar.gz".to_owned(),
    }];
    let step = u.on_assets(step, &assets);
    assert!(matches!(step, UpdateStep::AwaitingConfirmation { .. }));
    let step = u.on_confirmation(step, is_affirmative("no\n"));
    assert!(matches!(step, UpdateStep::Aborted { reason: AbortReason::Declined }));
}

#[test]
fn missing_asset_is_a_hard_failure() {
    let u = configured_updater();
    let step = u.on_tag(u.begin(), "v1.2.0");
    let assets = vec![ReleaseAsset {
        download_url: "https://example.com/app.tar.gz".to_owned(),
        name: "myapp-aarch64-apple-darwin.tar.gz".to_owned(),
    }];
    match u.on_assets(step, &assets) {
        UpdateStep::Failed { error } => assert_eq!(
            error.message(),
            "No release asset found for current target: `x86_64-unknown-linux-gnu`"
        ),
        other => panic!("expected a failure, got {:?}", other),
    }
}

#[test]
fn affirmative_answers_are_trimmed_and_lowercased() {
    assert!(is_affirmative("y"));
    assert!(is_affirmative("Y"));
    assert!(is_affirmative("  y \n"));
    assert!(!is_affirmative("yes"));
    assert!(!is_affirmative("n"));
    assert!(!is_affirmative(""));
}

#[test]
fn release_value_drives_the_checking_states() {
    let u = configured_updater();
    let v: serde_json::Value = serde_json::from_str(
        r#"{"tag_name":"v1.2.0","assets":[{"name":"myapp-x86_64-unknown-linux-gnu.tar.gz","browser_download_url":"https://example.com/app.tar.gz"}]}"#,
    )
    .unwrap();
    match u.on_release_value(u.begin(), &v) {
        UpdateStep::AwaitingConfirmation { asset } => {
            assert_eq!(asset.name, "myapp-x86_64-unknown-linux-gnu.tar.gz");
        }
        other => panic!("expected to await confirmation, got {:?}", other),
    }

    let v: serde_json::Value = serde_json::from_str(r#"{"tag_name":"v0.1.0"}"#).unwrap();
    assert!(matches!(
        u.on_release_value(u.begin(), &v),
        UpdateStep::Aborted { reason: AbortReason::AlreadyUpToDate }
    ));
}

fn packaged_tar_gz(path_in_archive: &str, content: &[u8]) -> Vec<u8> {
    let encoder = flate2::write::GzEncoder::new(Vec::new(), flate2::Compression::default());
    let mut builder = tar::Builder::new(encoder);
    let mut header = tar::Header::new_gnu();
    header.set_size(content.len() as u64);
    header.set_mode(0o755);
    header.set_cksum();
    builder.append_data(&mut header, path_in_archive, content).unwrap();
    let encoder = builder.into_inner().unwrap();
    encoder.finish().unwrap()
}

fn read_back(gz: &[u8], wanted: &str) -> Option<Vec<u8>> {
    let decoder = flate2::read::GzDecoder::new(gz);
    let mut archive = tar::Archive::new(decoder);
    for entry in archive.entries().unwrap() {
        let mut entry = entry.unwrap();
        let path = entry.path().unwrap().to_string_lossy().into_owned();
        if path == wanted {
            let mut buf = Vec::new();
            entry.read_to_end(&mut buf).unwrap();
            return Some(buf);
        }
    }
    None
}

#[test]
fn archive_round_trip_preserves_the_packaged_binary() {
    let content = b"#!/bin/sh\necho packaged binary v1.2.0\n";
    let gz = packaged_tar_gz("myapp/myapp", content);
    let back = read_back(&gz, "myapp/myapp").expect("entry present");
    assert_eq!(back, content);
}

#[test]
fn end_to_end_update_run_installs_the_packaged_binary() {
    let u = configured_updater();

    // A newer release is published.
    let latest_tag = "v1.2.0";
    assert_eq!(compare(&u.current_version, strip_v(latest_tag)), Ordering::Less);
    let step = u.on_tag(u.begin(), latest_tag);
    assert!(matches!(step, UpdateStep::ResolvingAsset { .. }));

    // Its asset list holds one match for the running platform.
    let assets = vec![
        ReleaseAsset {
            download_url: "https://example.com/darwin.tar.gz".to_owned(),
            name: "myapp-aarch64-apple-darwin.tar.gz".to_owned(),
        },
        ReleaseAsset {
            download_url: "https://example.com/linux.tar.gz".to_owned(),
            name: "myapp-x86_64-unknown-linux-gnu.tar.gz".to_owned(),
        },
    ];
    let step = u.on_assets(step, &assets);
    let picked = match &step {
        UpdateStep::AwaitingConfirmation { asset } => asset.clone(),
        other => panic!("expected to await confirmation, got {:?}", other),
    };
    assert_eq!(picked.name, "myapp-x86_64-unknown-linux-gnu.tar.gz");
    assert_eq!(picked.download_url, "https://example.com/linux.tar.gz");

    // The user confirms; the downloaded archive is unpacked.
    let step = u.on_confirmation(step, is_affirmative("Y\n"));
    assert!(matches!(step, UpdateStep::Downloading { .. }));
    let packaged = b"the new executable".to_vec();
    let gz = packaged_tar_gz("myapp", &packaged);
    let step = u.on_downloaded(step);
    assert!(matches!(step, UpdateStep::Extracting { .. }));
    let extracted = read_back(&gz, &u.bin_path_in_tarball).expect("binary in archive");

    // The extracted binary replaces the installed one.
    let step = u.on_extracted(step);
    assert!(matches!(step, UpdateStep::Replacing));
    let original = b"the old executable".to_vec();
    let outcome = replace_exe(original.clone(), extracted, true, true);
    assert!(outcome.replaced);
    assert_eq!(outcome.installed, packaged);
    assert_ne!(outcome.installed, original);

    let step = u.on_replaced(step);
    assert!(matches!(step, UpdateStep::Done));
}
