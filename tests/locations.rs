use bob_core::{
    downloads_location, get_downloads_folder, get_file_type, get_installation_folder,
    get_platform_name, installation_folder, settle_downloads_folder, Config, CoreError,
    DownloadsLocation, FolderAction, Platform,
};

fn no_overrides() -> Config {
    Config { downloads_dir: None, installation_location: None }
}

fn s(t: &str) -> Option<String> {
    Some(t.to_string())
}

#[test]
fn file_types() {
    assert_eq!(get_file_type(Platform::Windows), "zip");
    assert_eq!(get_file_type(Platform::MacOs), "tar.gz");
    assert_eq!(get_file_type(Platform::Other), "tar.gz");
}

#[test]
fn platform_names() {
    assert_eq!(get_platform_name(Platform::Windows), "nvim-win64");
    assert_eq!(get_platform_name(Platform::MacOs), "nvim-macos");
    assert_eq!(get_platform_name(Platform::Other), "nvim-linux64");
}

#[test]
fn configured_downloads_dir_is_custom() {
    let config = Config { downloads_dir: s("/data/nv"), installation_location: None };
    assert_eq!(
        downloads_location(&config, Platform::Other, None, None),
        Ok(DownloadsLocation { path: "/data/nv".to_string(), custom: true })
    );
    assert_eq!(
        get_downloads_folder(&config, Platform::Other),
        Ok(DownloadsLocation { path: "/data/nv".to_string(), custom: true })
    );
}

#[test]
fn default_downloads_dir_on_linux() {
    assert_eq!(
        downloads_location(&no_overrides(), Platform::Other, s("/home/u"), s("/home/u/.local/share")),
        Ok(DownloadsLocation { path: "/home/u/.local/share/bob".to_string(), custom: false })
    );
}

#[test]
fn default_downloads_dir_on_macos() {
    assert_eq!(
        downloads_location(&no_overrides(), Platform::MacOs, s("/Users/u"), s("/Users/u/Library")),
        Ok(DownloadsLocation { path: "/Users/u/.local/share/bob".to_string(), custom: false })
    );
}

#[test]
fn default_downloads_dir_needs_a_root() {
    assert_eq!(
        downloads_location(&no_overrides(), Platform::MacOs, None, s("/x")),
        Err(CoreError::NoHomeDirectory)
    );
    assert_eq!(
        downloads_location(&no_overrides(), Platform::Windows, s("/x"), None),
        Err(CoreError::NoLocalDataDirectory)
    );
}

#[test]
fn configured_installation_dir_is_kept() {
    let config = Config { downloads_dir: None, installation_location: s("/opt/nvim") };
    assert_eq!(installation_folder(&config, Platform::Other, None, None), Ok("/opt/nvim".to_string()));
    assert_eq!(get_installation_folder(&config, Platform::MacOs), Ok("/opt/nvim".to_string()));
}

#[test]
fn default_installation_dir() {
    assert_eq!(
        installation_folder(&no_overrides(), Platform::Other, None, s("/home/u/.local/share")),
        Ok("/home/u/.local/share/neovim".to_string())
    );
    assert_eq!(
        installation_folder(&no_overrides(), Platform::MacOs, s("/Users/u"), None),
        Ok("/Users/u/.local/share/neovim".to_string())
    );
}

#[test]
fn settling_the_downloads_dir() {
    let custom = DownloadsLocation { path: "/data/nv".to_string(), custom: true };
    let default = DownloadsLocation { path: "/d/bob".to_string(), custom: false };
    assert_eq!(settle_downloads_folder(&custom, true), Ok(FolderAction::Ready));
    assert_eq!(
        settle_downloads_folder(&custom, false),
        Err(CoreError::DirectoryNotFound("/data/nv".to_string()))
    );
    assert_eq!(settle_downloads_folder(&default, true), Ok(FolderAction::Ready));
    assert_eq!(settle_downloads_folder(&default, false), Ok(FolderAction::Create));
}
