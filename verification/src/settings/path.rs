//! Where the settings file lives on each platform, and the directory that
//! holds its temporary replacement.

use vstd::prelude::*;
use vstd::string::*;

verus! {

/// The platform conventions for per-user configuration.
#[derive(Clone, Copy, Debug, PartialEq, Eq, Structural)]
pub enum SettingsPlatform {
    MacOs,
    Windows,
    Unix,
}

/// The per-user directories that the environment names, if any.
#[derive(Debug)]
pub struct SettingsDirectories {
    pub home: Option<String>,
    pub app_data: Option<String>,
    pub xdg_config_home: Option<String>,
}

impl Default for SettingsDirectories {
    fn default() -> (directories: Self)
        ensures
            directories.home is None,
            directories.app_data is None,
            directories.xdg_config_home is None,
    {
        SettingsDirectories { home: None, app_data: None, xdg_config_home: None }
    }
}

/// The text of `Path::join` of the path `base` with the path `relative`.
pub uninterp spec fn path_join(base: Seq<char>, relative: Seq<char>) -> Seq<char>;

/// `Path::join` on paths given as text: `relative` below `base`, with the
/// platform's separator between them, an absolute `relative` replacing
/// `base`. Which text results follows the platform's path syntax and is not
/// stated here.
#[verifier::external_body]
fn join_path(base: &str, relative: &str) -> (joined: String)
    ensures
        joined@ == path_join(base@, relative@),
{
    std::path::Path::new(base).join(relative).to_string_lossy().into_owned()
}

/// A directory that the environment names and that is not empty.
pub open spec fn named_directory(directory: Option<String>) -> Option<Seq<char>> {
    match directory {
        Some(path) => if path@.len() > 0 {
            Some(path@)
        } else {
            None
        },
        None => None,
    }
}

/// The per-user configuration directory of a platform, if the environment
/// names one.
pub open spec fn configuration_base(
    platform: SettingsPlatform,
    directories: SettingsDirectories,
) -> Option<Seq<char>> {
    match platform {
        SettingsPlatform::MacOs => match named_directory(directories.home) {
            Some(home) => Some(path_join(home, "Library/Application Support"@)),
            None => None,
        },
        SettingsPlatform::Windows => named_directory(directories.app_data),
        SettingsPlatform::Unix => match named_directory(directories.xdg_config_home) {
            Some(config) => Some(config),
            None => match named_directory(directories.home) {
                Some(home) => Some(path_join(home, ".config"@)),
                None => None,
            },
        },
    }
}

/// The settings file: `kufeditor/settings.json` below the configuration
/// directory, or `settings.json` in the working directory without one.
pub open spec fn settings_path_spec(
    platform: SettingsPlatform,
    directories: SettingsDirectories,
) -> Seq<char> {
    match configuration_base(platform, directories) {
        Some(base) => path_join(base, "kufeditor/settings.json"@),
        None => "settings.json"@,
    }
}

fn named(directory: &Option<String>) -> (named: Option<&String>)
    ensures
        match named {
            Some(path) => named_directory(*directory) == Some(path@),
            None => named_directory(*directory) is None,
        },
{
    match directory {
        Some(path) => if path.as_str().unicode_len() > 0 {
            Some(path)
        } else {
            None
        },
        None => None,
    }
}

/// The settings file for `platform` given the directories of the
/// environment.
pub fn settings_path_for(platform: SettingsPlatform, directories: &SettingsDirectories) -> (path: String)
    ensures
        path@ == settings_path_spec(platform, *directories),
{
    let base: Option<String> = match platform {
        SettingsPlatform::MacOs => match named(&directories.home) {
            Some(home) => Some(join_path(home.as_str(), "Library/Application Support")),
            None => None,
        },
        SettingsPlatform::Windows => match named(&directories.app_data) {
            Some(app_data) => Some(app_data.clone()),
            None => None,
        },
        SettingsPlatform::Unix => match named(&directories.xdg_config_home) {
            Some(config) => Some(config.clone()),
            None => match named(&directories.home) {
                Some(home) => Some(join_path(home.as_str(), ".config")),
                None => None,
            },
        },
    };
    match base {
        Some(base) => join_path(base.as_str(), "kufeditor/settings.json"),
        None => "settings.json".to_owned(),
    }
}

/// The text of `Path::parent` of the path whose text is `path`.
pub uninterp spec fn path_parent(path: Seq<char>) -> Option<Seq<char>>;

/// `Path::parent` on a path given as text: the path without its final
/// component. Its documentation gives no parent for the empty path; which
/// text the parent of any other path has is not stated here, as it follows
/// the platform's path syntax.
#[verifier::external_body]
fn parent_text(path: &str) -> (parent: Option<String>)
    ensures
        match parent {
            Some(p) => path_parent(path@) == Some(p@),
            None => path_parent(path@) is None,
        },
        path@.len() == 0 ==> parent is None,
{
    match std::path::Path::new(path).parent() {
        Some(parent) => Some(parent.to_string_lossy().into_owned()),
        None => None,
    }
}

/// The directory that receives the temporary file replacing `path`: its
/// parent, or the working directory `.` when the parent is empty or absent.
pub open spec fn destination_directory_spec(path: Seq<char>) -> Seq<char> {
    match path_parent(path) {
        Some(parent) => if parent.len() > 0 {
            parent
        } else {
            "."@
        },
        None => "."@,
    }
}

/// The directory in which to create the temporary file that replaces
/// `path`.
pub fn destination_directory(path: &str) -> (directory: String)
    ensures
        directory@ == destination_directory_spec(path@),
        path@.len() == 0 ==> directory@ == "."@,
{
    proof {
        reveal_strlit(".");
    }
    match parent_text(path) {
        Some(parent) => {
            if parent.as_str().unicode_len() > 0 {
                parent
            } else {
                ".".to_owned()
            }
        },
        None => ".".to_owned(),
    }
}

} // verus!
