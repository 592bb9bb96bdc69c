use yep_anywhere_desktop::installer::{
    auth_logged_in, check_agent_installed, failure_message, install_outcome, InstallStage, codex_asset_name, codex_bin, find_asset,
    is_codex_entry, select_asset, AgentCheck, InstallError, ReleaseAsset,
};
use yep_anywhere_desktop::pty::KnownCommand;
use yep_anywhere_desktop::terminator::Platform;

fn path_of(check: Result<AgentCheck, InstallError>) -> Option<String> {
    match check {
        Ok(AgentCheck::IfExists(p)) => Some(p),
        _ => None,
    }
}

fn asset(name: &str, url: &str) -> ReleaseAsset {
    ReleaseAsset { name: Some(name.to_string()), download_url: Some(url.to_string()) }
}

fn table() -> Vec<KnownCommand> {
    vec![KnownCommand {
        name: "helper".to_string(),
        package: "@vendor/helper-cli".to_string(),
        script: "cli.js".to_string(),
    }]
}

#[test]
fn agents_are_looked_for_in_their_places() {
    let known = table();
    assert_eq!(
        path_of(check_agent_installed("helper", &known, "/d", false, Platform::Unix)),
        Some("/d/node_modules/.bin/helper".to_string())
    );
    assert_eq!(
        path_of(check_agent_installed("codex", &known, "/d", false, Platform::Unix)),
        Some("/d/bin/codex".to_string())
    );
    assert_eq!(
        path_of(check_agent_installed("codex", &known, "/d", true, Platform::Windows)),
        Some("/d/bin/codex.exe".to_string())
    );
    assert_eq!(
        path_of(check_agent_installed("yep", &known, "/d", false, Platform::Unix)),
        Some("/d/node_modules/yepanywhere/dist/index.js".to_string())
    );
    assert!(matches!(
        check_agent_installed("yep", &known, "/d", true, Platform::Unix),
        Ok(AgentCheck::Installed)
    ));
}

#[test]
fn unknown_agent_is_refused() {
    let known = table();
    assert!(matches!(
        check_agent_installed("gemini", &known, "/d", false, Platform::Unix),
        Err(InstallError::UnknownAgent)
    ));
    assert!(matches!(
        check_agent_installed("", &known, "/d", true, Platform::Unix),
        Err(InstallError::UnknownAgent)
    ));
    assert!(matches!(
        check_agent_installed("helper", &Vec::new(), "/d", true, Platform::Unix),
        Err(InstallError::UnknownAgent)
    ));
}

#[test]
fn asset_names() {
    assert_eq!(
        codex_asset_name("aarch64-apple-darwin", Platform::Unix),
        ("codex-aarch64-apple-darwin.tar.gz".to_string(), true)
    );
    assert_eq!(
        codex_asset_name("x86_64-pc-windows-msvc", Platform::Windows),
        ("codex-x86_64-pc-windows-msvc.exe".to_string(), false)
    );
    assert_eq!(codex_bin("/d/bin", Platform::Unix), "/d/bin/codex");
    assert_eq!(codex_bin("/d/bin", Platform::Windows), "/d/bin/codex.exe");
}

#[test]
fn first_matching_asset_is_found() {
    let assets = vec![
        ReleaseAsset { name: None, download_url: Some("u".to_string()) },
        asset("a", "u0"),
        asset("b", "u1"),
        asset("a", "u2"),
    ];
    assert_eq!(find_asset(&assets, "a"), 1);
    assert_eq!(find_asset(&assets, "b"), 2);
    assert_eq!(find_asset(&assets, "c"), 4);
    assert_eq!(find_asset(&Vec::new(), "a"), 0);
    let release = Some(assets);
    assert_eq!(select_asset(&release, "a"), Ok("u0".to_string()));
    assert_eq!(select_asset(&release, "b"), Ok("u1".to_string()));
    assert_eq!(select_asset(&release, "c"), Err(InstallError::AssetNotFound));
}

#[test]
fn asset_selection_errors() {
    assert_eq!(select_asset(&None, "a"), Err(InstallError::NoAssets));
    assert_eq!(select_asset(&Some(Vec::new()), "a"), Err(InstallError::AssetNotFound));
    let broken = Some(vec![
        ReleaseAsset { name: Some("a".to_string()), download_url: None },
        asset("a", "u"),
    ]);
    assert_eq!(select_asset(&broken, "a"), Err(InstallError::NoDownloadUrl));
    assert_eq!(InstallError::UnknownAgent.message(), "Unknown agent");
    assert_eq!(InstallError::NoAssets.message(), "No assets in release");
    assert_eq!(InstallError::AssetNotFound.message(), "No asset found");
    assert_eq!(InstallError::NoDownloadUrl.message(), "No download URL");
    assert_eq!(
        InstallError::BinaryNotInArchive.message(),
        "Could not find codex binary in archive"
    );
}

#[test]
fn archive_entries() {
    assert!(is_codex_entry("codex"));
    assert!(is_codex_entry("codex-aarch64-apple-darwin"));
    assert!(is_codex_entry("codex-"));
    assert!(!is_codex_entry("codex.txt"));
    assert!(!is_codex_entry("code"));
    assert!(!is_codex_entry(""));
    assert!(!is_codex_entry("my-codex-x"));
}

#[test]
fn login_status_is_read_from_the_output() {
    assert!(auth_logged_in(b"{\"loggedIn\": true}", b""));
    assert!(auth_logged_in(b"{\"loggedIn\":true}", b""));
    assert!(!auth_logged_in(b"{\"loggedIn\": false}", b"{\"loggedIn\": true}"));
    assert!(auth_logged_in(b"warning", b"{\"loggedIn\": true}"));
    assert!(!auth_logged_in(b"", b""));
    assert!(!auth_logged_in(b"{\"loggedIn\":  true}", b""));
    assert!(!auth_logged_in(b"loggedIn", b"\"loggedIn\":true"));
}

#[test]
fn installer_outcomes() {
    assert_eq!(install_outcome(true, "ignored"), (InstallStage::Done, None));
    assert_eq!(
        install_outcome(false, "no network"),
        (InstallStage::Failed, Some("bun install failed: no network".to_string()))
    );
    assert_eq!(failure_message("no network"), "Install failed: no network");
    assert_eq!(InstallStage::Installing.label(), "installing");
    assert_eq!(InstallStage::Downloading.label(), "downloading");
    assert_eq!(InstallStage::Extracting.label(), "extracting");
    assert_eq!(InstallStage::Done.label(), "done");
    assert_eq!(InstallStage::Failed.label(), "error");
}
