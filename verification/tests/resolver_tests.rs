use crates_autocomplete::command::command_for;
use crates_autocomplete::platform::Arch;
use crates_autocomplete::platform::ArchiveKind;
use crates_autocomplete::platform::Os;
use crates_autocomplete::resolver::Action;
use crates_autocomplete::resolver::Event;
use crates_autocomplete::resolver::InstallStatus;
use crates_autocomplete::resolver::Phase;
use crates_autocomplete::resolver::Release;
use crates_autocomplete::resolver::ReleaseAsset;
use crates_autocomplete::resolver::Resolver;

fn linux_release() -> Release {
    Release {
        version: "1.2.0".to_string(),
        assets: vec![
            ReleaseAsset {
                name: "crates-lsp-aarch64-apple-darwin.tar.gz".to_string(),
                download_url: "https://example.invalid/mac".to_string(),
            },
            ReleaseAsset {
                name: "crates-lsp-x86_64-unknown-linux-gnu.tar.gz".to_string(),
                download_url: "https://example.invalid/linux".to_string(),
            },
        ],
    }
}

#[test]
fn cached_path_present_short_circuits() {
    let mut r = Resolver {
        cached_binary_path: Some("/usr/local/bin/crates-lsp".to_string()),
        phase: Phase::Idle,
    };
    let a1 = r.step(Event::Start);
    assert_eq!(a1, Action::CheckFile { path: "/usr/local/bin/crates-lsp".to_string() });
    let a2 = r.step(Event::FileChecked { exists: true });
    assert_eq!(a2, Action::Done { path: "/usr/local/bin/crates-lsp".to_string() });
    assert_eq!(r.cached_binary_path, Some("/usr/local/bin/crates-lsp".to_string()));
}

#[test]
fn stale_cache_falls_back_to_path_lookup() {
    let mut r = Resolver {
        cached_binary_path: Some("/gone/crates-lsp".to_string()),
        phase: Phase::Idle,
    };
    let a1 = r.step(Event::Start);
    assert_eq!(a1, Action::CheckFile { path: "/gone/crates-lsp".to_string() });
    let a2 = r.step(Event::FileChecked { exists: false });
    assert_eq!(a2, Action::LookupExecutable { name: "crates-lsp".to_string() });
    let a3 = r.step(Event::ExecutableLookup { path: Some("/usr/bin/crates-lsp".to_string()) });
    assert_eq!(a3, Action::Done { path: "/usr/bin/crates-lsp".to_string() });
    assert_eq!(r.cached_binary_path, Some("/usr/bin/crates-lsp".to_string()));
}

#[test]
fn path_lookup_hit_is_cached() {
    let mut r = Resolver::new();
    let a1 = r.step(Event::Start);
    assert_eq!(a1, Action::LookupExecutable { name: "crates-lsp".to_string() });
    let a2 = r.step(Event::ExecutableLookup { path: Some("/opt/bin/crates-lsp".to_string()) });
    assert_eq!(a2, Action::Done { path: "/opt/bin/crates-lsp".to_string() });
    assert_eq!(r.cached_binary_path, Some("/opt/bin/crates-lsp".to_string()));
}

#[test]
fn full_linux_install_flow() {
    let mut r = Resolver::new();
    assert_eq!(r.step(Event::Start), Action::LookupExecutable { name: "crates-lsp".to_string() });
    assert_eq!(
        r.step(Event::ExecutableLookup { path: None }),
        Action::EmitStatus { status: InstallStatus::CheckingForUpdate }
    );
    assert_eq!(r.step(Event::StatusAcknowledged), Action::IdentifyPlatform);
    assert_eq!(
        r.step(Event::PlatformIdentified { os: Os::Linux, arch: Arch::X8664 }),
        Action::FetchLatestRelease {
            repo: "MathiasPius/crates-lsp".to_string(),
            require_assets: true,
            pre_release: false,
        }
    );
    assert_eq!(
        r.step(Event::ReleaseFetched { result: Ok(linux_release()) }),
        Action::CheckFile { path: "crates-lsp-1.2.0/crates-lsp".to_string() }
    );
    assert_eq!(
        r.step(Event::FileChecked { exists: false }),
        Action::EmitStatus { status: InstallStatus::Downloading }
    );
    assert_eq!(
        r.step(Event::StatusAcknowledged),
        Action::Download {
            url: "https://example.invalid/linux".to_string(),
            directory: "crates-lsp-1.2.0".to_string(),
            archive: ArchiveKind::GzipTar,
        }
    );
    assert_eq!(
        r.step(Event::DownloadFinished { result: Ok(()) }),
        Action::SetExecutableBit { path: "crates-lsp-1.2.0/crates-lsp".to_string() }
    );
    assert_eq!(
        r.step(Event::ChmodFinished { result: Ok(()) }),
        Action::Done { path: "crates-lsp-1.2.0/crates-lsp".to_string() }
    );
    assert_eq!(r.cached_binary_path, Some("crates-lsp-1.2.0/crates-lsp".to_string()));
}

#[test]
fn already_extracted_binary_skips_download() {
    let mut r = Resolver::new();
    r.step(Event::Start);
    r.step(Event::ExecutableLookup { path: None });
    r.step(Event::StatusAcknowledged);
    r.step(Event::PlatformIdentified { os: Os::Linux, arch: Arch::X8664 });
    r.step(Event::ReleaseFetched { result: Ok(linux_release()) });
    let done = r.step(Event::FileChecked { exists: true });
    assert_eq!(done, Action::Done { path: "crates-lsp-1.2.0/crates-lsp".to_string() });
    assert_eq!(r.cached_binary_path, Some("crates-lsp-1.2.0/crates-lsp".to_string()));
}

#[test]
fn windows_flow_uses_zip_and_skips_chmod() {
    let mut r = Resolver::new();
    r.step(Event::Start);
    r.step(Event::ExecutableLookup { path: None });
    r.step(Event::StatusAcknowledged);
    r.step(Event::PlatformIdentified { os: Os::Windows, arch: Arch::X8664 });
    let release = Release {
        version: "1.2.0".to_string(),
        assets: vec![ReleaseAsset {
            name: "crates-lsp-x86_64-pc-windows-msvc.zip".to_string(),
            download_url: "https://example.invalid/win".to_string(),
        }],
    };
    assert_eq!(
        r.step(Event::ReleaseFetched { result: Ok(release) }),
        Action::CheckFile { path: "crates-lsp-1.2.0/crates-lsp.exe".to_string() }
    );
    r.step(Event::FileChecked { exists: false });
    assert_eq!(
        r.step(Event::StatusAcknowledged),
        Action::Download {
            url: "https://example.invalid/win".to_string(),
            directory: "crates-lsp-1.2.0".to_string(),
            archive: ArchiveKind::Zip,
        }
    );
    assert_eq!(
        r.step(Event::DownloadFinished { result: Ok(()) }),
        Action::Done { path: "crates-lsp-1.2.0/crates-lsp.exe".to_string() }
    );
    assert_eq!(r.cached_binary_path, Some("crates-lsp-1.2.0/crates-lsp.exe".to_string()));
}

#[test]
fn unsupported_platform_fails_before_release_lookup() {
    let mut r = Resolver::new();
    let mut actions = Vec::new();
    actions.push(r.step(Event::Start));
    actions.push(r.step(Event::ExecutableLookup { path: None }));
    actions.push(r.step(Event::StatusAcknowledged));
    actions.push(r.step(Event::PlatformIdentified { os: Os::Linux, arch: Arch::Other }));
    assert_eq!(
        *actions.last().unwrap(),
        Action::Fail { message: "Unsupported platform".to_string() }
    );
    for a in &actions {
        assert!(!matches!(a, Action::FetchLatestRelease { .. }));
        assert!(!matches!(a, Action::Download { .. }));
    }
    assert_eq!(r.cached_binary_path, None);
}

#[test]
fn missing_asset_fails_with_binary_not_found() {
    let mut r = Resolver::new();
    r.step(Event::Start);
    r.step(Event::ExecutableLookup { path: None });
    r.step(Event::StatusAcknowledged);
    r.step(Event::PlatformIdentified { os: Os::Mac, arch: Arch::Aarch64 });
    let release = Release {
        version: "1.2.0".to_string(),
        assets: vec![ReleaseAsset {
            name: "crates-lsp-x86_64-unknown-linux-gnu.tar.gz".to_string(),
            download_url: "https://example.invalid/linux".to_string(),
        }],
    };
    assert_eq!(
        r.step(Event::ReleaseFetched { result: Ok(release) }),
        Action::Fail { message: "Language server binary not found".to_string() }
    );
}

#[test]
fn release_lookup_error_propagates_verbatim() {
    let mut r = Resolver::new();
    r.step(Event::Start);
    r.step(Event::ExecutableLookup { path: None });
    r.step(Event::StatusAcknowledged);
    r.step(Event::PlatformIdentified { os: Os::Mac, arch: Arch::X8664 });
    assert_eq!(
        r.step(Event::ReleaseFetched { result: Err("rate limited".to_string()) }),
        Action::Fail { message: "rate limited".to_string() }
    );
}

#[test]
fn download_error_is_wrapped() {
    let mut r = Resolver::new();
    r.step(Event::Start);
    r.step(Event::ExecutableLookup { path: None });
    r.step(Event::StatusAcknowledged);
    r.step(Event::PlatformIdentified { os: Os::Linux, arch: Arch::Aarch64 });
    let release = Release {
        version: "0.9.9".to_string(),
        assets: vec![ReleaseAsset {
            name: "crates-lsp-aarch64-unknown-linux-gnu.tar.gz".to_string(),
            download_url: "https://example.invalid/linux-arm".to_string(),
        }],
    };
    r.step(Event::ReleaseFetched { result: Ok(release) });
    r.step(Event::FileChecked { exists: false });
    r.step(Event::StatusAcknowledged);
    assert_eq!(
        r.step(Event::DownloadFinished { result: Err("connection reset".to_string()) }),
        Action::Fail { message: "Failed to download: connection reset".to_string() }
    );
}

#[test]
fn chmod_error_is_wrapped() {
    let mut r = Resolver::new();
    r.step(Event::Start);
    r.step(Event::ExecutableLookup { path: None });
    r.step(Event::StatusAcknowledged);
    r.step(Event::PlatformIdentified { os: Os::Linux, arch: Arch::X8664 });
    r.step(Event::ReleaseFetched { result: Ok(linux_release()) });
    r.step(Event::FileChecked { exists: false });
    r.step(Event::StatusAcknowledged);
    r.step(Event::DownloadFinished { result: Ok(()) });
    assert_eq!(
        r.step(Event::ChmodFinished { result: Err("read-only filesystem".to_string()) }),
        Action::Fail { message: "Failed to set permissions: read-only filesystem".to_string() }
    );
}

#[test]
fn command_has_no_args_and_no_env() {
    let c = command_for("/usr/local/bin/crates-lsp".to_string());
    assert_eq!(c.command, "/usr/local/bin/crates-lsp".to_string());
    assert!(c.args.is_empty());
    assert!(c.env.is_empty());
}
