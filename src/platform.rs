use vstd::prelude::*;

verus! {

/// The target a build is made for, as far as archive layout goes.
#[derive(Clone, Copy, Debug, PartialEq, Eq, Structural)]
pub enum Platform {
    Windows,
    MacOs,
    Other,
}

pub open spec fn file_type_of(platform: Platform) -> Seq<char> {
    match platform {
        Platform::Windows => "zip"@,
        _ => "tar.gz"@,
    }
}

pub open spec fn platform_name_of(platform: Platform) -> Seq<char> {
    match platform {
        Platform::Windows => "nvim-win64"@,
        Platform::MacOs => "nvim-macos"@,
        Platform::Other => "nvim-linux64"@,
    }
}

/// The extension of the release archives for `platform`.
pub fn get_file_type(platform: Platform) -> (r: &'static str)
    ensures
        r@ == file_type_of(platform),
{
    match platform {
        Platform::Windows => "zip",
        _ => "tar.gz",
    }
}

/// The name of the release asset built for `platform`.
pub fn get_platform_name(platform: Platform) -> (r: &'static str)
    ensures
        r@ == platform_name_of(platform),
{
    match platform {
        Platform::Windows => "nvim-win64",
        Platform::MacOs => "nvim-macos",
        Platform::Other => "nvim-linux64",
    }
}

} // verus!
