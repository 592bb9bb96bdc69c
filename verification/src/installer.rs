//! Decisions of the installer: where an agent is looked for, which release
//! asset is fetched, which archive entry is the binary, and whether an
//! agent's command line reports a login.

use vstd::prelude::*;
use vstd::string::StringSliceAdditionalSpecFns;
use crate::config::{bin_dir_in, bin_dir_of};
use crate::pty::{find_known, is_known, known_of, KnownCommand, KnownModel};
use crate::server::{server_entry, server_entry_of};
use crate::terminator::Platform;
use crate::text::{
    ascii_bytes,
    contains_bytes,
    has_prefix,
    join_path,
    joined,
    occurs,
    same_text,
    starts_with,
    text_of,
};

verus! {

/// Why an installer request was refused.
#[derive(Clone, Copy, Debug, PartialEq, Eq, Structural)]
pub enum InstallError {
    /// The name is neither `codex` nor `yep` nor a known command.
    UnknownAgent,
    /// The release description lists no assets at all.
    NoAssets,
    /// No asset of the release has the wanted name.
    AssetNotFound,
    /// The wanted asset says nothing of where to download it.
    NoDownloadUrl,
    /// The downloaded archive holds no entry that is the binary.
    BinaryNotInArchive,
}

/// The fixed text of an error.
pub open spec fn install_error_text(e: InstallError) -> Seq<char> {
    match e {
        InstallError::UnknownAgent => "Unknown agent"@,
        InstallError::NoAssets => "No assets in release"@,
        InstallError::AssetNotFound => "No asset found"@,
        InstallError::NoDownloadUrl => "No download URL"@,
        InstallError::BinaryNotInArchive => "Could not find codex binary in archive"@,
    }
}

impl InstallError {
    /// The message shown to the user.
    pub fn message(&self) -> (r: String)
        ensures
            r@ == install_error_text(*self),
    {
        match self {
            InstallError::UnknownAgent => String::from_str("Unknown agent"),
            InstallError::NoAssets => String::from_str("No assets in release"),
            InstallError::AssetNotFound => String::from_str("No asset found"),
            InstallError::NoDownloadUrl => String::from_str("No download URL"),
            InstallError::BinaryNotInArchive => String::from_str(
                "Could not find codex binary in archive",
            ),
        }
    }
}

/// How to find out whether an agent is installed.
#[derive(Debug, Clone)]
pub enum AgentCheck {
    /// It is, with nothing to look at.
    Installed,
    /// It is if and only if a file exists at this path.
    IfExists(String),
}

/// The abstract value of an `AgentCheck`.
pub enum CheckModel {
    Installed,
    IfExists(Seq<char>),
}

impl View for AgentCheck {
    type V = CheckModel;

    open spec fn view(&self) -> CheckModel {
        match self {
            AgentCheck::Installed => CheckModel::Installed,
            AgentCheck::IfExists(p) => CheckModel::IfExists(p@),
        }
    }
}

/// The launcher that installing a known command leaves in the data
/// directory.
pub open spec fn marker_of(data_dir: Seq<char>, name: Seq<char>) -> Seq<char> {
    joined(joined(joined(data_dir, "node_modules"@), ".bin"@), name)
}

/// The `codex` binary inside the binaries directory.
pub open spec fn codex_bin_of(bin_dir: Seq<char>, platform: Platform) -> Seq<char> {
    match platform {
        Platform::Unix => joined(bin_dir, "codex"@),
        Platform::Windows => joined(bin_dir, "codex.exe"@),
    }
}

/// Where each agent is looked for. In development mode the server runs
/// from local source and counts as installed.
pub open spec fn agent_check_of(
    agent: Seq<char>,
    table: Seq<KnownModel>,
    data_dir: Seq<char>,
    dev_mode: bool,
    platform: Platform,
) -> Result<CheckModel, InstallError> {
    if agent == "codex"@ {
        Ok(CheckModel::IfExists(codex_bin_of(bin_dir_of(data_dir), platform)))
    } else if agent == "yep"@ {
        if dev_mode {
            Ok(CheckModel::Installed)
        } else {
            Ok(CheckModel::IfExists(server_entry_of(data_dir)))
        }
    } else if is_known(table, agent) {
        Ok(CheckModel::IfExists(marker_of(data_dir, agent)))
    } else {
        Err(InstallError::UnknownAgent)
    }
}

/// Whether a computed check is the one the model asks for.
pub open spec fn check_agrees(
    r: Result<AgentCheck, InstallError>,
    m: Result<CheckModel, InstallError>,
) -> bool {
    match (r, m) {
        (Ok(a), Ok(b)) => a@ == b,
        (Err(a), Err(b)) => a == b,
        _ => false,
    }
}

/// The path of the `codex` binary inside `bin_dir`.
pub fn codex_bin(bin_dir: &str, platform: Platform) -> (r: String)
    ensures
        r@ == codex_bin_of(bin_dir@, platform),
{
    match platform {
        Platform::Unix => join_path(bin_dir, "codex"),
        Platform::Windows => join_path(bin_dir, "codex.exe"),
    }
}

/// Says how to find out whether `agent` is installed.
pub fn check_agent_installed(
    agent: &str,
    known: &Vec<KnownCommand>,
    data_dir: &str,
    dev_mode: bool,
    platform: Platform,
) -> (r: Result<AgentCheck, InstallError>)
    ensures
        check_agrees(r, agent_check_of(agent@, known_of(known@), data_dir@, dev_mode, platform)),
{
    if same_text(agent, "codex") {
        let bin = bin_dir_in(data_dir);
        Ok(AgentCheck::IfExists(codex_bin(bin.as_str(), platform)))
    } else if same_text(agent, "yep") {
        if dev_mode {
            Ok(AgentCheck::Installed)
        } else {
            Ok(AgentCheck::IfExists(server_entry(data_dir)))
        }
    } else if find_known(known, agent) < known.len() {
        let a = join_path(data_dir, "node_modules");
        let b = join_path(a.as_str(), ".bin");
        Ok(AgentCheck::IfExists(join_path(b.as_str(), agent)))
    } else {
        Err(InstallError::UnknownAgent)
    }
}

/// The name of the release asset for a target triple: the bare executable
/// on Windows, a compressed archive elsewhere.
pub open spec fn asset_name_of(triple: Seq<char>, platform: Platform) -> Seq<char> {
    match platform {
        Platform::Unix => "codex-"@ + triple + ".tar.gz"@,
        Platform::Windows => "codex-"@ + triple + ".exe"@,
    }
}

/// Whether the asset for a platform has to be unpacked.
pub open spec fn asset_is_archive(platform: Platform) -> bool {
    platform == Platform::Unix
}

/// Names the release asset to download, and says whether it is an archive.
pub fn codex_asset_name(triple: &str, platform: Platform) -> (r: (String, bool))
    ensures
        r.0@ == asset_name_of(triple@, platform),
        r.1 == asset_is_archive(platform),
{
    let mut name = String::from_str("codex-");
    name.append(triple);
    match platform {
        Platform::Unix => {
            name.append(".tar.gz");
            (name, true)
        },
        Platform::Windows => {
            name.append(".exe");
            (name, false)
        },
    }
}

/// One downloadable file of a release, as far as its description could
/// be read: a field that is missing or is no text is `None`.
#[derive(Debug, Clone)]
pub struct ReleaseAsset {
    pub name: Option<String>,
    pub download_url: Option<String>,
}

/// Whether the asset at `at` is called `name`.
pub open spec fn is_named(assets: Seq<ReleaseAsset>, name: Seq<char>, at: int) -> bool {
    text_of(assets[at].name) == Some(name)
}

/// The position of the first asset called `name` at or after `from`; the
/// number of assets if there is none.
pub open spec fn asset_at(assets: Seq<ReleaseAsset>, name: Seq<char>, from: int) -> int
    decreases assets.len() - from,
{
    if from < 0 || from >= assets.len() {
        assets.len() as int
    } else if is_named(assets, name, from) {
        from
    } else {
        asset_at(assets, name, from + 1)
    }
}

/// The download address of the release asset called `name`: that of the
/// first asset with this name.
pub open spec fn selected_url(assets: Option<Seq<ReleaseAsset>>, name: Seq<char>) -> Result<
    Seq<char>,
    InstallError,
> {
    match assets {
        None => Err(InstallError::NoAssets),
        Some(list) => {
            let at = asset_at(list, name, 0);
            if at >= list.len() {
                Err(InstallError::AssetNotFound)
            } else {
                match list[at].download_url {
                    Some(url) => Ok(url@),
                    None => Err(InstallError::NoDownloadUrl),
                }
            }
        },
    }
}

/// Finds the first asset called `name`: its position, or the number of
/// assets.
pub fn find_asset(assets: &Vec<ReleaseAsset>, name: &str) -> (at: usize)
    ensures
        at == asset_at(assets@, name@, 0),
        at <= assets@.len(),
        at < assets@.len() ==> is_named(assets@, name@, at as int),
        forall|k: int| 0 <= k < at ==> !is_named(assets@, name@, k),
{
    let n: usize = assets.len();
    let mut i: usize = 0;
    while i < n
        invariant
            n == assets@.len(),
            i <= n,
            asset_at(assets@, name@, 0) == asset_at(assets@, name@, i as int),
            forall|k: int| 0 <= k < i ==> !is_named(assets@, name@, k),
        decreases n - i,
    {
        let hit = match &assets[i].name {
            Some(found) => same_text(found.as_str(), name),
            None => false,
        };
        if hit {
            return i;
        }
        i += 1;
    }
    n
}

/// Picks the download address of the asset called `name` from a release
/// description. `assets` is `None` where the description has no list of
/// assets.
pub fn select_asset(assets: &Option<Vec<ReleaseAsset>>, name: &str) -> (r: Result<
    String,
    InstallError,
>)
    ensures
        match selected_url(
            match assets {
                Some(list) => Some(list@),
                None => None,
            },
            name@,
        ) {
            Ok(url) => r is Ok && r->Ok_0@ == url,
            Err(e) => r == Err::<String, InstallError>(e),
        },
{
    match assets {
        None => Err(InstallError::NoAssets),
        Some(list) => {
            let at: usize = find_asset(list, name);
            if at >= list.len() {
                Err(InstallError::AssetNotFound)
            } else {
                match &list[at].download_url {
                    Some(url) => Ok(url.clone()),
                    None => Err(InstallError::NoDownloadUrl),
                }
            }
        },
    }
}

/// Whether an archive entry with this file name is the binary: it is
/// called `codex`, or its name begins with `codex-`.
pub open spec fn is_codex_name(file_name: Seq<char>) -> bool {
    file_name == "codex"@ || has_prefix(file_name, "codex-"@)
}

/// Tests whether an archive entry is the binary to unpack.
pub fn is_codex_entry(file_name: &str) -> (r: bool)
    ensures
        r == is_codex_name(file_name@),
{
    same_text(file_name, "codex") || starts_with(file_name, "codex-")
}

/// What an agent's status output says about the login:
/// the standard output is read if it mentions `loggedIn`, the error output
/// otherwise, and the login stands if that text holds `"loggedIn": true`
/// with or without the space.
pub open spec fn logged_in(out: Seq<u8>, err: Seq<u8>) -> bool {
    let text = if occurs(out, ascii_bytes("loggedIn"@)) {
        out
    } else {
        err
    };
    occurs(text, ascii_bytes("\"loggedIn\": true"@)) || occurs(
        text,
        ascii_bytes("\"loggedIn\":true"@),
    )
}

fn ascii_of(s: &str) -> (r: &[u8])
    requires
        s.is_ascii(),
    ensures
        r@ == ascii_bytes(s@),
{
    broadcast use vstd::string::is_ascii_spec_bytes;

    let r = s.as_bytes();
    assert(r@ =~= ascii_bytes(s@));
    r
}

/// Reads the login status from what an agent's `auth status` printed. The
/// search runs on the raw bytes: the phrases looked for are ASCII, and an
/// ASCII phrase stands in a byte string exactly where it stands in the text
/// decoded from it.
pub fn auth_logged_in(out: &[u8], err: &[u8]) -> (r: bool)
    ensures
        r == logged_in(out@, err@),
{
    proof {
        reveal_strlit("loggedIn");
        reveal_strlit("\"loggedIn\": true");
        reveal_strlit("\"loggedIn\":true");
    }
    let text = if contains_bytes(out, ascii_of("loggedIn")) {
        out
    } else {
        err
    };
    contains_bytes(text, ascii_of("\"loggedIn\": true")) || contains_bytes(
        text,
        ascii_of("\"loggedIn\":true"),
    )
}

/// A step of an installation, as the front end is told of it.
#[derive(Clone, Copy, Debug, PartialEq, Eq, Structural)]
pub enum InstallStage {
    Installing,
    Downloading,
    Extracting,
    Done,
    Failed,
}

/// The word for a stage.
pub open spec fn stage_text(stage: InstallStage) -> Seq<char> {
    match stage {
        InstallStage::Installing => "installing"@,
        InstallStage::Downloading => "downloading"@,
        InstallStage::Extracting => "extracting"@,
        InstallStage::Done => "done"@,
        InstallStage::Failed => "error"@,
    }
}

impl InstallStage {
    /// The stage as the front end spells it.
    pub fn label(&self) -> (r: String)
        ensures
            r@ == stage_text(*self),
    {
        match self {
            InstallStage::Installing => String::from_str("installing"),
            InstallStage::Downloading => String::from_str("downloading"),
            InstallStage::Extracting => String::from_str("extracting"),
            InstallStage::Done => String::from_str("done"),
            InstallStage::Failed => String::from_str("error"),
        }
    }
}

/// How a run of the package installer ended: the stage to announce and,
/// for a failure, the error to return. Both carry what the installer wrote
/// to its error output.
pub open spec fn package_outcome(success: bool, stderr: Seq<char>) -> (
    InstallStage,
    Option<Seq<char>>,
) {
    if success {
        (InstallStage::Done, None)
    } else {
        (InstallStage::Failed, Some("bun install failed: "@ + stderr))
    }
}

/// The progress message of a failed run.
pub open spec fn failure_note(stderr: Seq<char>) -> Seq<char> {
    "Install failed: "@ + stderr
}

/// Judges a run of the package installer by its exit status.
pub fn install_outcome(success: bool, stderr: &str) -> (r: (InstallStage, Option<String>))
    ensures
        r.0 == package_outcome(success, stderr@).0,
        text_of(r.1) == package_outcome(success, stderr@).1,
{
    if success {
        (InstallStage::Done, None)
    } else {
        let mut text = String::from_str("bun install failed: ");
        text.append(stderr);
        (InstallStage::Failed, Some(text))
    }
}

/// Writes the progress message of a failed run.
pub fn failure_message(stderr: &str) -> (r: String)
    ensures
        r@ == failure_note(stderr@),
{
    let mut text = String::from_str("Install failed: ");
    text.append(stderr);
    text
}

} // verus!
