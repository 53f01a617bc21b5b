//! Version resolution and local installation state for a Neovim version manager.
mod error;
mod json;
mod nightly;
mod paths;
mod patterns;
mod platform;
mod removal;
mod state;
mod text;
mod version;

pub use error::CoreError;
pub use json::{json_commits_of, json_text_member, pair_texts};
pub use patterns::{
    first_version_match, has_single_leading_v, is_digit, is_digit_run, is_hex_token, is_lower_hex,
    is_numeric_triple, is_semver_token, lemma_semver_tag_single_v, version_match_at,
};
pub use text::{contains_seq, contains_str, occurs_at, str_equals, text_of};
pub use version::{normalize_semver, normalized_tag, parse_version_type, InputVersion, TokenResolution, VersionType};
pub use nightly::{
    commits_query_url, get_commits_for_nightly, get_local_nightly, get_upstream_nightly,
    local_nightly_record_path, read_upstream_version, all_filled, commits_of, has_release_fields,
    release_of, resolve_stable, upstream_from_fields, RepoCommit,
    UpstreamVersion, LATEST_RELEASE_URL, NIGHTLY_RELEASE_URL,
};
pub use paths::{
    data_root, default_folder, downloads_location, get_downloads_folder, get_installation_folder,
    installation_folder, missing_root_error, settle_downloads_folder, Config, DownloadsLocation, FolderAction,
};
pub use platform::{file_type_of, get_file_type, get_platform_name, platform_name_of, Platform};
pub use state::{
    get_current_version, handle_subprocess, installed_in, is_version_installed, is_version_used,
    used_marker_path, version_from_probe, CurrentVersion, MarkerRead,
};
pub use removal::{clean_removal, lemma_one_update_per_entry, fresh_removal, Removal, RemovalAction, RemovalEvent};
