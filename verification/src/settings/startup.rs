//! What the application starts with, given the outcome of loading the
//! settings file.

use vstd::prelude::*;
use vstd::utf8::*;

use crate::game::Game;
use crate::settings::store::{
    game_of, optional_bytes, root_of, GamePaths, RecentFiles, SettingsImageV1, SettingsLoadError,
    DEFAULT_RECENT_FILE_LIMIT,
};

verus! {

/// Whether settings changes are written back.
#[derive(Clone, Copy, Debug, PartialEq, Eq, Structural)]
pub enum PersistenceMode {
    Enabled,
    /// The file holds a newer version; it is left untouched for the session.
    ProtectedUnsupportedVersion { found: u64 },
}

/// A problem found while loading settings, reported once at startup.
#[derive(Debug)]
pub enum SettingsStartupWarning {
    Load(SettingsLoadError),
    UnsupportedVersion { found: u64 },
}

/// The state the application starts with.
#[derive(Debug)]
pub struct SettingsStartup {
    pub path: String,
    pub active_game: Game,
    pub game_paths: GamePaths,
    pub recent_files: RecentFiles,
    pub persistence: PersistenceMode,
    pub warning: Option<SettingsStartupWarning>,
}

impl SettingsStartup {
    /// The startup state for the settings at `path`, given what loading
    /// them gave: a loaded image is used as it is; a missing file gives the
    /// defaults; a newer version gives the defaults, protects the file and
    /// warns; any other failure gives the defaults and warns.
    pub fn from_load_result(
        path: String,
        loaded: Result<Option<SettingsImageV1>, SettingsLoadError>,
    ) -> (startup: Self)
        ensures
            startup.path == path,
            match loaded {
                Ok(Some(image)) => {
                    &&& startup.active_game == game_of(image.active_game)
                    &&& startup.persistence == PersistenceMode::Enabled
                    &&& startup.warning is None
                    &&& startup.recent_files.limit_spec() == image.max_recent_files
                    &&& root_of(startup.game_paths, Game::Crusaders) == optional_bytes(
                        image.crusaders_path,
                    )
                    &&& root_of(startup.game_paths, Game::Heroes) == optional_bytes(
                        image.heroes_path,
                    )
                    &&& startup.recent_files.paths_spec() == image.recent_files@.map_values(
                        |s: String| encode_utf8(s@),
                    )
                },
                Ok(None) => {
                    &&& startup.active_game == Game::Crusaders
                    &&& startup.persistence == PersistenceMode::Enabled
                    &&& startup.warning is None
                    &&& root_of(startup.game_paths, Game::Crusaders) is None
                    &&& root_of(startup.game_paths, Game::Heroes) is None
                    &&& startup.recent_files.limit_spec() == DEFAULT_RECENT_FILE_LIMIT
                    &&& startup.recent_files.paths_spec().len() == 0
                },
                Err(SettingsLoadError::UnsupportedVersion { found }) => {
                    &&& startup.active_game == Game::Crusaders
                    &&& startup.persistence == PersistenceMode::ProtectedUnsupportedVersion {
                        found,
                    }
                    &&& startup.warning matches Some(
                        SettingsStartupWarning::UnsupportedVersion { found: f },
                    ) && f == found
                    &&& root_of(startup.game_paths, Game::Crusaders) is None
                    &&& root_of(startup.game_paths, Game::Heroes) is None
                    &&& startup.recent_files.paths_spec().len() == 0
                },
                Err(error) => {
                    &&& startup.active_game == Game::Crusaders
                    &&& startup.persistence == PersistenceMode::Enabled
                    &&& startup.warning == Some(SettingsStartupWarning::Load(error))
                    &&& root_of(startup.game_paths, Game::Crusaders) is None
                    &&& root_of(startup.game_paths, Game::Heroes) is None
                    &&& startup.recent_files.paths_spec().len() == 0
                },
            },
    {
        match loaded {
            Ok(Some(image)) => {
                let (active_game, game_paths, recent_files) = image.into_runtime();
                SettingsStartup {
                    path,
                    active_game,
                    game_paths,
                    recent_files,
                    persistence: PersistenceMode::Enabled,
                    warning: None,
                }
            },
            Ok(None) => Self::defaults(path, PersistenceMode::Enabled, None),
            Err(SettingsLoadError::UnsupportedVersion { found }) => Self::defaults(
                path,
                PersistenceMode::ProtectedUnsupportedVersion { found },
                Some(SettingsStartupWarning::UnsupportedVersion { found }),
            ),
            Err(error) => Self::defaults(
                path,
                PersistenceMode::Enabled,
                Some(SettingsStartupWarning::Load(error)),
            ),
        }
    }

    fn defaults(
        path: String,
        persistence: PersistenceMode,
        warning: Option<SettingsStartupWarning>,
    ) -> (startup: Self)
        ensures
            startup.path == path,
            startup.active_game == Game::Crusaders,
            startup.persistence == persistence,
            startup.warning == warning,
            root_of(startup.game_paths, Game::Crusaders) is None,
            root_of(startup.game_paths, Game::Heroes) is None,
            startup.recent_files.limit_spec() == DEFAULT_RECENT_FILE_LIMIT,
            startup.recent_files.paths_spec().len() == 0,
    {
        let recent_files = RecentFiles::from_persisted(DEFAULT_RECENT_FILE_LIMIT, Vec::new());
        SettingsStartup {
            path,
            active_game: Game::Crusaders,
            game_paths: GamePaths::new(),
            recent_files,
            persistence,
            warning,
        }
    }
}

} // verus!
