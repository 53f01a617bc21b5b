use vstd::prelude::*;
use vstd::string::*;
use crate::error::CoreError;
use crate::platform::Platform;
use crate::text::text_of;

verus! {

/// The optional overrides of the two storage locations.
#[derive(Clone, Debug, PartialEq, Eq)]
pub struct Config {
    pub downloads_dir: Option<String>,
    pub installation_location: Option<String>,
}

/// Where builds are downloaded to, and whether the configuration chose it.
#[derive(Clone, Debug, PartialEq, Eq)]
pub struct DownloadsLocation {
    pub path: String,
    pub custom: bool,
}

/// What has to happen to the downloads directory before it can be used.
#[derive(Clone, Copy, Debug, PartialEq, Eq, Structural)]
pub enum FolderAction {
    Ready,
    Create,
}

/// The root under which per-user application data lives: `~/.local/share`
/// on macOS, the platform's local data directory elsewhere.
pub open spec fn data_root(platform: Platform, home: Option<Seq<char>>, local_data: Option<Seq<char>>) -> Result<
    Seq<char>,
    CoreError,
> {
    match platform {
        Platform::MacOs => match home {
            Some(h) => Ok(h + "/.local/share"@),
            None => Err(CoreError::NoHomeDirectory),
        },
        _ => match local_data {
            Some(l) => Ok(l),
            None => Err(CoreError::NoLocalDataDirectory),
        },
    }
}

/// Why there is no data root on `platform`.
pub open spec fn missing_root_error(platform: Platform) -> CoreError {
    match platform {
        Platform::MacOs => CoreError::NoHomeDirectory,
        _ => CoreError::NoLocalDataDirectory,
    }
}

/// `leaf` under the data root, or why there is no data root.
pub open spec fn default_folder(
    platform: Platform,
    home: Option<Seq<char>>,
    local_data: Option<Seq<char>>,
    leaf: Seq<char>,
) -> Result<Seq<char>, CoreError> {
    match data_root(platform, home, local_data) {
        Ok(root) => Ok(root + "/"@ + leaf),
        Err(e) => Err(e),
    }
}

/// Relies on dirs::home_dir: the user's home directory, if the platform
/// reports one.
#[verifier::external_body]
fn home_dir_text() -> (r: Option<String>) {
    dirs::home_dir().map(|p| p.to_string_lossy().into_owned())
}

/// Relies on dirs::data_local_dir: the platform's local data directory, if
/// it reports one.
#[verifier::external_body]
fn local_data_dir_text() -> (r: Option<String>) {
    dirs::data_local_dir().map(|p| p.to_string_lossy().into_owned())
}

fn default_folder_exec(platform: Platform, home: Option<String>, local_data: Option<String>, leaf: &str) -> (r:
    Result<String, CoreError>)
    ensures
        match default_folder(platform, text_of(home), text_of(local_data), leaf@) {
            Ok(p) => r matches Ok(s) && s@ == p,
            Err(e) => r == Err::<String, CoreError>(e),
        },
{
    let mut root = match platform {
        Platform::MacOs => match home {
            Some(h) => {
                let mut h = h;
                h.append("/.local/share");
                h
            },
            None => return Err(CoreError::NoHomeDirectory),
        },
        _ => match local_data {
            Some(l) => l,
            None => return Err(CoreError::NoLocalDataDirectory),
        },
    };
    root.append("/");
    root.append(leaf);
    Ok(root)
}

/// The downloads directory for the given home and local data directories:
/// the configured one, else `bob` under the data root.
pub fn downloads_location(
    config: &Config,
    platform: Platform,
    home: Option<String>,
    local_data: Option<String>,
) -> (r: Result<DownloadsLocation, CoreError>)
    ensures
        match text_of(config.downloads_dir) {
            Some(p) => r matches Ok(l) && l.path@ == p && l.custom,
            None => match default_folder(platform, text_of(home), text_of(local_data), "bob"@) {
                Ok(p) => r matches Ok(l) && l.path@ == p && !l.custom,
                Err(e) => r == Err::<DownloadsLocation, CoreError>(e),
            },
        },
{
    match &config.downloads_dir {
        Some(p) => Ok(DownloadsLocation { path: p.clone(), custom: true }),
        None => match default_folder_exec(platform, home, local_data, "bob") {
            Ok(path) => Ok(DownloadsLocation { path, custom: false }),
            Err(e) => Err(e),
        },
    }
}

/// The downloads directory on this machine; see `downloads_location`.
pub fn get_downloads_folder(config: &Config, platform: Platform) -> (r: Result<DownloadsLocation, CoreError>)
    ensures
        match text_of(config.downloads_dir) {
            Some(p) => r matches Ok(l) && l.path@ == p && l.custom,
            None => match r {
                Ok(l) => !l.custom && exists|root: Seq<char>| l.path@ == root + "/"@ + "bob"@,
                Err(e) => e == missing_root_error(platform),
            },
        },
{
    let home = home_dir_text();
    let local_data = local_data_dir_text();
    let r = downloads_location(config, platform, home, local_data);
    proof {
        if config.downloads_dir is None && r is Ok {
            let root = data_root(platform, text_of(home), text_of(local_data))->Ok_0;
            assert(r->Ok_0.path@ == root + "/"@ + "bob"@);
        }
    }
    r
}

/// What the downloads directory needs, given whether it exists: a configured
/// directory must exist already; the default one is created.
pub fn settle_downloads_folder(location: &DownloadsLocation, exists: bool) -> (r: Result<FolderAction, CoreError>)
    ensures
        exists ==> r == Ok::<FolderAction, CoreError>(FolderAction::Ready),
        !exists && !location.custom ==> r == Ok::<FolderAction, CoreError>(FolderAction::Create),
        !exists && location.custom ==> (r matches Err(CoreError::DirectoryNotFound(p)) && p@ == location.path@),
{
    if exists {
        Ok(FolderAction::Ready)
    } else if location.custom {
        Err(CoreError::DirectoryNotFound(location.path.clone()))
    } else {
        Ok(FolderAction::Create)
    }
}

/// The installation directory for the given home and local data
/// directories: the configured one as it stands, else `neovim` under the
/// data root.
pub fn installation_folder(
    config: &Config,
    platform: Platform,
    home: Option<String>,
    local_data: Option<String>,
) -> (r: Result<String, CoreError>)
    ensures
        match text_of(config.installation_location) {
            Some(p) => r matches Ok(s) && s@ == p,
            None => match default_folder(platform, text_of(home), text_of(local_data), "neovim"@) {
                Ok(p) => r matches Ok(s) && s@ == p,
                Err(e) => r == Err::<String, CoreError>(e),
            },
        },
{
    match &config.installation_location {
        Some(p) => Ok(p.clone()),
        None => default_folder_exec(platform, home, local_data, "neovim"),
    }
}

/// The installation directory on this machine; see `installation_folder`.
pub fn get_installation_folder(config: &Config, platform: Platform) -> (r: Result<String, CoreError>)
    ensures
        match text_of(config.installation_location) {
            Some(p) => r matches Ok(s) && s@ == p,
            None => match r {
                Ok(s) => exists|root: Seq<char>| s@ == root + "/"@ + "neovim"@,
                Err(e) => e == missing_root_error(platform),
            },
        },
{
    let home = home_dir_text();
    let local_data = local_data_dir_text();
    let r = installation_folder(config, platform, home, local_data);
    proof {
        if config.installation_location is None && r is Ok {
            let root = data_root(platform, text_of(home), text_of(local_data))->Ok_0;
            assert(r->Ok_0@ == root + "/"@ + "neovim"@);
        }
    }
    r
}

} // verus!
