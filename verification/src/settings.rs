//! The settings of the launcher.

use vstd::prelude::*;
use crate::consts::{ACCOUNT_FILE_NAME, SETTINGS_FILE_NAME};
use crate::java::JavaDetails;
use crate::utils::{join_path, path_join};

verus! {

/// What the user has set.
#[derive(Debug)]
pub struct AppSettings {
    pub instance_size: u16,
    pub instance_path: Option<String>,
    pub icon_path: Option<String>,
    pub java_settings: Vec<JavaDetails>,
}

impl AppSettings {
    /// The settings of a fresh installation.
    pub fn generate() -> (defaults: Self)
        ensures
            defaults.instance_size == 16,
            defaults.instance_path is None,
            defaults.icon_path is None,
            defaults.java_settings@.len() == 0,
    {
        AppSettings {
            instance_size: 16,
            instance_path: None,
            icon_path: None,
            java_settings: Vec::new(),
        }
    }

    /// Puts `new_settings` in the place of these.
    pub fn update(&mut self, new_settings: AppSettings)
        ensures
            *final(self) == new_settings,
    {
        *self = new_settings;
    }

    /// Where the settings are kept below the configuration directory.
    pub fn get_path(config_dir: &str) -> (path: String)
        ensures
            path@ == join_path(config_dir@, SETTINGS_FILE_NAME@),
    {
        path_join(config_dir, SETTINGS_FILE_NAME)
    }

    /// Adds a runtime that is not filled in yet.
    pub fn add_java_setting(&mut self)
        ensures
            final(self).java_settings@.len() == old(self).java_settings@.len() + 1,
            final(self).java_settings@.drop_last() == old(self).java_settings@,
            final(self).java_settings@.last().xmx == 4096,
            final(self).java_settings@.last().xms == 2048,
            final(self).java_settings@.last().path@.len() == 0,
            final(self).java_settings@.last().minecraft_versions.min is None,
            final(self).java_settings@.last().minecraft_versions.max is None,
            final(self).instance_size == old(self).instance_size,
            final(self).instance_path == old(self).instance_path,
            final(self).icon_path == old(self).icon_path,
    {
        self.java_settings.push(JavaDetails::default());
        assert(self.java_settings@.drop_last() =~= old(self).java_settings@);
    }
}

/// Where the accounts are kept below the configuration directory.
pub fn accounts_path(config_dir: &str) -> (path: String)
    ensures
        path@ == join_path(config_dir@, ACCOUNT_FILE_NAME@),
{
    path_join(config_dir, ACCOUNT_FILE_NAME)
}

} // verus!
