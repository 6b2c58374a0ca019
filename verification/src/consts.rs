//! Names and addresses that the launcher is built around.

use vstd::prelude::*;

verus! {

pub const SETTINGS_FILE_NAME: &'static str = "settings.json";

pub const ACCOUNT_FILE_NAME: &'static str = "accounts.json";

pub const META_FILE_NAME: &'static str = "yamcl-data.json";

pub const MINECRAFT_VERSION_URL: &'static str =
    "https://piston-meta.mojang.com/mc/game/version_manifest_v2.json";

pub const MINECRAFT_LIBRARY_URL: &'static str = "https://libraries.minecraft.net";

pub const FORGE_MAVEN_URL: &'static str = "https://maven.minecraftforge.net/";

/// The client id under which the launcher is registered for sign-in.
pub const MS_CLIENT_ID: &'static str = "5431ff2d-20f8-415b-aa2f-5218eba055ea";

pub const REDIRECT_PORT: u16 = 32303;

} // verus!
