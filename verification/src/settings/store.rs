//! The persisted settings image (version 1), the runtime state it is made
//! from, and the checks a settings document passes before it is decoded.

use vstd::prelude::*;
use vstd::string::*;
use vstd::utf8::*;

use crate::game::Game;

verus! {

/// The largest settings document that is read, in bytes.
pub const MAX_SETTINGS_BYTES: u64 = 1048576;

/// How many recent files are remembered when a document does not say.
pub const DEFAULT_RECENT_FILE_LIMIT: usize = 10;

/// The persisted name of a game.
#[derive(Clone, Copy, Debug, PartialEq, Eq, Structural)]
pub enum SettingsGame {
    Crusaders,
    Heroes,
}

/// The persisted name of `game`.
pub open spec fn settings_game_of(game: Game) -> SettingsGame {
    match game {
        Game::Crusaders => SettingsGame::Crusaders,
        Game::Heroes => SettingsGame::Heroes,
    }
}

/// The game that a persisted name stands for.
pub open spec fn game_of(game: SettingsGame) -> Game {
    match game {
        SettingsGame::Crusaders => Game::Crusaders,
        SettingsGame::Heroes => Game::Heroes,
    }
}

impl SettingsGame {
    /// The persisted name of `game`.
    pub fn from_game(game: Game) -> (persisted: Self)
        ensures
            persisted == settings_game_of(game),
    {
        match game {
            Game::Crusaders => SettingsGame::Crusaders,
            Game::Heroes => SettingsGame::Heroes,
        }
    }

    /// The game this persisted name stands for.
    pub fn game(self) -> (game: Game)
        ensures
            game == game_of(self),
    {
        match self {
            SettingsGame::Crusaders => Game::Crusaders,
            SettingsGame::Heroes => Game::Heroes,
        }
    }
}

/// The first settings version, the only one this application writes.
pub fn version_one() -> (version: u64)
    ensures
        version == 1,
{
    1
}

/// The recent-file limit of a document that names none.
pub fn default_recent_limit() -> (limit: usize)
    ensures
        limit == DEFAULT_RECENT_FILE_LIMIT,
{
    DEFAULT_RECENT_FILE_LIMIT
}

/// The settings document, version 1.
#[derive(Debug)]
pub struct SettingsImageV1 {
    pub version: u64,
    pub active_game: SettingsGame,
    pub crusaders_path: Option<String>,
    pub heroes_path: Option<String>,
    pub max_recent_files: usize,
    pub recent_files: Vec<String>,
}

impl Default for SettingsImageV1 {
    fn default() -> (image: Self)
        ensures
            image.version == 1,
            image.active_game == SettingsGame::Crusaders,
            image.crusaders_path is None,
            image.heroes_path is None,
            image.max_recent_files == DEFAULT_RECENT_FILE_LIMIT,
            image.recent_files@.len() == 0,
    {
        SettingsImageV1 {
            version: version_one(),
            active_game: SettingsGame::Crusaders,
            crusaders_path: None,
            heroes_path: None,
            max_recent_files: default_recent_limit(),
            recent_files: Vec::new(),
        }
    }
}

/// The configured game folders, as the raw bytes of platform paths.
#[derive(Debug)]
pub struct GamePaths {
    crusaders: Option<Vec<u8>>,
    heroes: Option<Vec<u8>>,
}

/// The folder configured for `game`, if any.
pub closed spec fn root_of(paths: GamePaths, game: Game) -> Option<Seq<u8>> {
    match game {
        Game::Crusaders => match paths.crusaders {
            Some(p) => Some(p@),
            None => None,
        },
        Game::Heroes => match paths.heroes {
            Some(p) => Some(p@),
            None => None,
        },
    }
}

impl GamePaths {
    /// No folder configured for either game.
    pub fn new() -> (paths: Self)
        ensures
            root_of(paths, Game::Crusaders) is None,
            root_of(paths, Game::Heroes) is None,
    {
        GamePaths { crusaders: None, heroes: None }
    }

    /// Configures (or clears) the folder of `game`.
    pub fn set_root(&mut self, game: Game, root: Option<Vec<u8>>)
        ensures
            root_of(*final(self), game) == match root {
                Some(p) => Some(p@),
                None => None::<Seq<u8>>,
            },
            forall|other: Game| other != game ==> root_of(*final(self), other) == root_of(*old(self), other),
    {
        match game {
            Game::Crusaders => self.crusaders = root,
            Game::Heroes => self.heroes = root,
        }
    }

    /// The folder configured for `game`.
    pub fn root(&self, game: Game) -> (root: Option<&Vec<u8>>)
        ensures
            match root {
                Some(p) => root_of(*self, game) == Some(p@),
                None => root_of(*self, game) is None,
            },
    {
        match game {
            Game::Crusaders => self.crusaders.as_ref(),
            Game::Heroes => self.heroes.as_ref(),
        }
    }
}

/// The recently opened files, newest first, with the number to remember.
#[derive(Debug)]
pub struct RecentFiles {
    limit: usize,
    paths: Vec<Vec<u8>>,
}

impl RecentFiles {
    /// Recent files as persisted.
    pub fn from_persisted(limit: usize, paths: Vec<Vec<u8>>) -> (recent: Self)
        ensures
            recent.limit_spec() == limit,
            recent.paths_spec() == paths@.map_values(|p: Vec<u8>| p@),
    {
        RecentFiles { limit, paths }
    }

    pub closed spec fn limit_spec(&self) -> usize {
        self.limit
    }

    pub closed spec fn paths_spec(&self) -> Seq<Seq<u8>> {
        self.paths@.map_values(|p: Vec<u8>| p@)
    }

    /// The number of recent files to remember.
    pub fn limit(&self) -> (limit: usize)
        ensures
            limit == self.limit_spec(),
    {
        self.limit
    }

    /// The recent files, newest first.
    pub fn paths(&self) -> (paths: &Vec<Vec<u8>>)
        ensures
            paths@.map_values(|p: Vec<u8>| p@) == self.paths_spec(),
    {
        &self.paths
    }
}

/// Why runtime state cannot be written as a settings image.
#[derive(Debug)]
pub enum SettingsImageError {
    NonUnicodePath { field: &'static str, path: Vec<u8> },
}

/// The text of a platform path, when its bytes are valid UTF-8.
pub open spec fn path_text(path: Seq<u8>) -> Option<Seq<char>> {
    if valid_utf8(path) {
        Some(decode_utf8(path))
    } else {
        None
    }
}

/// Decodes UTF-8 text with `std::str::from_utf8`.
#[verifier::external_body]
fn utf8_text(bytes: &[u8]) -> (text: Option<String>)
    ensures
        text is Some <==> valid_utf8(bytes@),
        text matches Some(s) ==> s@ == decode_utf8(bytes@),
{
    std::str::from_utf8(bytes).ok().map(|text| text.to_owned())
}

/// An optional path as text; a path that is not valid UTF-8 is refused
/// and reported under `field`, never converted lossily.
pub fn unicode_path(field: &'static str, path: Option<&Vec<u8>>) -> (text: Result<
    Option<String>,
    SettingsImageError,
>)
    ensures
        match path {
            None => text matches Ok(None),
            Some(p) => match path_text(p@) {
                Some(t) => text matches Ok(Some(s)) && s@ == t,
                None => text matches Err(SettingsImageError::NonUnicodePath { field: f, path: q })
                    && f == field && q@ == p@,
            },
        },
{
    match path {
        None => Ok(None),
        Some(p) => match utf8_text(p.as_slice()) {
            Some(text) => Ok(Some(text)),
            None => Err(SettingsImageError::NonUnicodePath { field, path: p.clone() }),
        },
    }
}

/// The text of an optional path, when it has one.
pub open spec fn optional_text(path: Option<Seq<u8>>) -> Option<Option<Seq<char>>> {
    match path {
        None => Some(None),
        Some(p) => match path_text(p) {
            Some(t) => Some(Some(t)),
            None => None,
        },
    }
}

/// The text of an optional string.
pub open spec fn optional_view(text: Option<String>) -> Option<Seq<char>> {
    match text {
        Some(s) => Some(s@),
        None => None,
    }
}

/// Every recent file is valid UTF-8.
pub open spec fn recent_texts_valid(paths: Seq<Seq<u8>>) -> bool {
    forall|i: int| 0 <= i < paths.len() ==> (#[trigger] path_text(paths[i])) is Some
}

/// The position of the first recent file that is not valid UTF-8.
pub open spec fn first_invalid_recent(paths: Seq<Seq<u8>>) -> int {
    choose|i: int|
        0 <= i < paths.len() && path_text(paths[i]) is None && forall|j: int|
            0 <= j < i ==> (#[trigger] path_text(paths[j])) is Some
}

/// Whether the runtime state can be written down: its folders and recent
/// files are all valid UTF-8.
pub open spec fn runtime_texts_valid(paths: GamePaths, recent: RecentFiles) -> bool {
    &&& optional_text(root_of(paths, Game::Crusaders)) is Some
    &&& optional_text(root_of(paths, Game::Heroes)) is Some
    &&& recent_texts_valid(recent.paths_spec())
}

/// Whether `image` is what the runtime state gives: the version 1 image of
/// the active game, its folders and recent files as text, or the first path
/// that is not valid UTF-8, in field order, reported under its field.
pub open spec fn runtime_image(
    image: Result<SettingsImageV1, SettingsImageError>,
    game: Game,
    paths: GamePaths,
    recent: RecentFiles,
) -> bool {
    &&& image is Ok <==> runtime_texts_valid(paths, recent)
    &&& image matches Ok(img) ==> {
        &&& img.version == 1
        &&& img.active_game == settings_game_of(game)
        &&& Some(optional_view(img.crusaders_path)) == optional_text(
            root_of(paths, Game::Crusaders),
        )
        &&& Some(optional_view(img.heroes_path)) == optional_text(root_of(paths, Game::Heroes))
        &&& img.max_recent_files == recent.limit_spec()
        &&& img.recent_files@.len() == recent.paths_spec().len()
        &&& forall|i: int|
            0 <= i < img.recent_files@.len() ==> Some(#[trigger] img.recent_files@[i]@)
                == path_text(recent.paths_spec()[i])
    }
    &&& image matches Err(SettingsImageError::NonUnicodePath { field, path }) ==> {
        if optional_text(root_of(paths, Game::Crusaders)) is None {
            field == "crusaders_path" && Some(path@) == root_of(paths, Game::Crusaders)
        } else if optional_text(root_of(paths, Game::Heroes)) is None {
            field == "heroes_path" && Some(path@) == root_of(paths, Game::Heroes)
        } else {
            field == "recent_files" && path@ == recent.paths_spec()[first_invalid_recent(
                recent.paths_spec(),
            )]
        }
    }
}

/// The settings image of the runtime state; the first path that is not
/// valid UTF-8, in field order, is reported instead.
pub fn image_from_runtime(game: Game, paths: &GamePaths, recent: &RecentFiles) -> (image: Result<
    SettingsImageV1,
    SettingsImageError,
>)
    ensures
        runtime_image(image, game, *paths, *recent),
{
    let crusaders_path = match unicode_path("crusaders_path", paths.root(Game::Crusaders)) {
        Ok(text) => text,
        Err(error) => return Err(error),
    };
    let heroes_path = match unicode_path("heroes_path", paths.root(Game::Heroes)) {
        Ok(text) => text,
        Err(error) => return Err(error),
    };
    let sources = recent.paths();
    let ghost views = recent.paths_spec();
    let mut recent_files: Vec<String> = Vec::new();
    let mut i: usize = 0;
    while i < sources.len()
        invariant
            i <= sources@.len(),
            optional_text(root_of(*paths, Game::Crusaders)) is Some,
            optional_text(root_of(*paths, Game::Heroes)) is Some,
            views == recent.paths_spec(),
            views == sources@.map_values(|p: Vec<u8>| p@),
            recent_files@.len() == i,
            forall|j: int| 0 <= j < i ==> (#[trigger] path_text(views[j])) is Some,
            forall|j: int|
                0 <= j < i ==> Some(#[trigger] recent_files@[j]@) == path_text(views[j]),
        decreases sources.len() - i,
    {
        match unicode_path("recent_files", Some(&sources[i])) {
            Ok(Some(text)) => recent_files.push(text),
            Ok(None) => {
                assert(false);
                return Err(SettingsImageError::NonUnicodePath { field: "recent_files", path: Vec::new() });
            },
            Err(error) => {
                proof {
                    assert(path_text(views[i as int]) is None);
                    let w = i as int;
                    assert(0 <= w < views.len() && path_text(views[w]) is None && forall|j: int|
                        0 <= j < w ==> (#[trigger] path_text(views[j])) is Some);
                    let k = first_invalid_recent(views);
                    assert(0 <= k < views.len() && path_text(views[k]) is None);
                    if k < i {
                        assert(path_text(views[k]) is Some);
                    }
                    if k > i {
                        assert(path_text(views[i as int]) is Some);
                    }
                }
                return Err(error);
            },
        }
        i = i + 1;
    }
    Ok(SettingsImageV1 {
        version: version_one(),
        active_game: SettingsGame::from_game(game),
        crusaders_path,
        heroes_path,
        max_recent_files: recent.limit(),
        recent_files,
    })
}

/// The UTF-8 bytes of an optional string.
pub open spec fn optional_bytes(text: Option<String>) -> Option<Seq<u8>> {
    match text {
        Some(s) => Some(encode_utf8(s@)),
        None => None,
    }
}

fn text_bytes(text: &Option<String>) -> (bytes: Option<Vec<u8>>)
    ensures
        match bytes {
            Some(b) => optional_bytes(*text) == Some(b@),
            None => text is None,
        },
{
    match text {
        Some(s) => Some(s.as_str().as_bytes_vec()),
        None => None,
    }
}

impl SettingsImageV1 {
    /// The runtime state that this image describes: the active game, the
    /// configured folders and the recent files, as persisted.
    pub fn into_runtime(self) -> (runtime: (Game, GamePaths, RecentFiles))
        ensures
            runtime.0 == game_of(self.active_game),
            root_of(runtime.1, Game::Crusaders) == optional_bytes(self.crusaders_path),
            root_of(runtime.1, Game::Heroes) == optional_bytes(self.heroes_path),
            runtime.2.limit_spec() == self.max_recent_files,
            runtime.2.paths_spec() == self.recent_files@.map_values(|s: String| encode_utf8(s@)),
    {
        let mut paths = GamePaths::new();
        paths.set_root(Game::Crusaders, text_bytes(&self.crusaders_path));
        paths.set_root(Game::Heroes, text_bytes(&self.heroes_path));
        let mut recent: Vec<Vec<u8>> = Vec::new();
        let mut i: usize = 0;
        while i < self.recent_files.len()
            invariant
                i <= self.recent_files@.len(),
                recent@.len() == i,
                forall|j: int|
                    0 <= j < i ==> (#[trigger] recent@[j])@ == encode_utf8(self.recent_files@[j]@),
            decreases self.recent_files.len() - i,
        {
            recent.push(self.recent_files[i].as_str().as_bytes_vec());
            i = i + 1;
        }
        let recent = RecentFiles::from_persisted(self.max_recent_files, recent);
        assert(recent.paths_spec() =~= self.recent_files@.map_values(|s: String| encode_utf8(s@)));
        (self.active_game.game(), paths, recent)
    }
}

/// Declares `serde_json::Error`, the error of a JSON parse.
#[verifier::external_type_specification]
#[verifier::external_body]
pub struct ExJsonError(serde_json::Error);

/// Why a settings document could not be loaded.
#[derive(Debug)]
pub enum SettingsLoadError {
    Read { path: String, detail: String },
    TooLarge { path: String, max_bytes: u64 },
    Json { path: String, source: serde_json::Error },
    UnsupportedVersion { found: u64 },
}

/// What `serde_json` finds in a document: `None` when the bytes are not
/// JSON, otherwise the top-level member named `member` when it is an
/// unsigned integer that fits `u64`.
pub uninterp spec fn json_member_u64_field(bytes: Seq<u8>, member: Seq<char>) -> Option<Option<u64>>;

/// Parses `bytes` as a `serde_json::Value` with `serde_json::from_slice`
/// and reads its member `member` with `Value::get` and `Value::as_u64`.
/// The parsed value never leaves this item, so the three calls stand
/// together and the contract names their joint result as a function of the
/// bytes and the member name; what that function is on given arguments is
/// not stated.
#[verifier::external_body]
fn json_member_u64(bytes: &[u8], member: &str) -> (found: Result<Option<u64>, serde_json::Error>)
    ensures
        found is Ok <==> json_member_u64_field(bytes@, member@) is Some,
        found matches Ok(v) ==> json_member_u64_field(bytes@, member@) == Some(v),
{
    let value: serde_json::Value = match serde_json::from_slice(bytes) {
        Ok(value) => value,
        Err(error) => return Err(error),
    };
    Ok(value.get(member).and_then(serde_json::Value::as_u64))
}

/// The member of a settings document that holds its version.
pub open spec fn version_member() -> Seq<char> {
    "version"@
}

/// The verdict on a settings document of `length` bytes whose JSON parse
/// gave `version` (see [`check_settings_document`]).
pub open spec fn document_verdict(length: nat, version: Option<Option<u64>>) -> Option<
    SettingsRejection,
> {
    if length > MAX_SETTINGS_BYTES {
        Some(SettingsRejection::TooLarge)
    } else {
        match version {
            None => Some(SettingsRejection::Json),
            Some(Some(found)) => if found != 1 {
                Some(SettingsRejection::UnsupportedVersion(found))
            } else {
                None
            },
            Some(None) => None,
        }
    }
}

/// The reason a settings document is turned away before it is decoded.
pub enum SettingsRejection {
    TooLarge,
    Json,
    UnsupportedVersion(u64),
}

/// The kind of a load error, for contracts.
pub open spec fn load_error_kind(error: SettingsLoadError) -> Option<SettingsRejection> {
    match error {
        SettingsLoadError::TooLarge { max_bytes, .. } => if max_bytes == MAX_SETTINGS_BYTES {
            Some(SettingsRejection::TooLarge)
        } else {
            None
        },
        SettingsLoadError::Json { .. } => Some(SettingsRejection::Json),
        SettingsLoadError::UnsupportedVersion { found } => Some(
            SettingsRejection::UnsupportedVersion(found),
        ),
        SettingsLoadError::Read { .. } => None,
    }
}

/// The path that a load error names, if it names one.
pub open spec fn load_error_path(error: SettingsLoadError) -> Option<Seq<char>> {
    match error {
        SettingsLoadError::Read { path, .. } => Some(path@),
        SettingsLoadError::TooLarge { path, .. } => Some(path@),
        SettingsLoadError::Json { path, .. } => Some(path@),
        SettingsLoadError::UnsupportedVersion { .. } => None,
    }
}

/// Decides on a document of at most [`MAX_SETTINGS_BYTES`] bytes from its
/// JSON parse: a parse failure is a JSON error, a `version` other than 1 is
/// unsupported, and anything else may be decoded as version 1.
pub fn settings_version_verdict(path: &str, version: Result<Option<u64>, serde_json::Error>) -> (verdict: Result<(), SettingsLoadError>)
    ensures
        match version {
            Err(_) => verdict matches Err(e) && load_error_kind(e) == Some(SettingsRejection::Json)
                && load_error_path(e) == Some(path@),
            Ok(Some(found)) => if found != 1 {
                verdict matches Err(e) && load_error_kind(e) == Some(
                    SettingsRejection::UnsupportedVersion(found),
                )
            } else {
                verdict is Ok
            },
            Ok(None) => verdict is Ok,
        },
{
    match version {
        Err(source) => Err(SettingsLoadError::Json { path: path.to_owned(), source }),
        Ok(Some(found)) => if found != version_one() {
            Err(SettingsLoadError::UnsupportedVersion { found })
        } else {
            Ok(())
        },
        Ok(None) => Ok(()),
    }
}

/// Checks a settings document read from `path` before it is decoded: it is
/// refused when larger than [`MAX_SETTINGS_BYTES`] (without being parsed),
/// when it is not JSON, or when its `version` is not 1.
pub fn check_settings_document(path: &str, bytes: &[u8]) -> (verdict: Result<(), SettingsLoadError>)
    ensures
        match document_verdict(bytes@.len(), json_member_u64_field(bytes@, version_member())) {
            None => verdict is Ok,
            Some(rejection) => verdict matches Err(e) && load_error_kind(e) == Some(rejection),
        },
        verdict matches Err(e) ==> (load_error_path(e) is Some ==> load_error_path(e) == Some(
            path@,
        )),
{
    if bytes.len() as u64 > MAX_SETTINGS_BYTES {
        return Err(SettingsLoadError::TooLarge { path: path.to_owned(), max_bytes: MAX_SETTINGS_BYTES });
    }
    let version = json_member_u64(bytes, "version");
    settings_version_verdict(path, version)
}

/// Why writing the settings file failed, stage by stage, with the affected
/// path and the system's message.
#[derive(Debug)]
pub enum SettingsSaveError {
    CreateParent { path: String, detail: String },
    CreateTemporary { directory: String, detail: String },
    Serialize { detail: String },
    Write { path: String, detail: String },
    Flush { path: String, detail: String },
    Sync { path: String, detail: String },
    Persist { path: String, detail: String },
}

/// The persisted name of a game stands for that same game, and each game
/// has its own name.
pub proof fn law_persisted_games_round_trip(game: Game, persisted: SettingsGame)
    ensures
        game_of(settings_game_of(game)) == game,
        settings_game_of(game_of(persisted)) == persisted,
        settings_game_of(Game::Crusaders) == SettingsGame::Crusaders,
        settings_game_of(Game::Heroes) == SettingsGame::Heroes,
{
}

/// A settings document is turned away when it is longer than the limit,
/// when it is not JSON, or when it declares a version other than 1; a
/// document within the limit that declares version 1, or no numeric
/// version, passes.
pub proof fn law_documents_pass_only_within_the_limit_and_at_version_one(
    length: nat,
    version: Option<Option<u64>>,
)
    ensures
        length > MAX_SETTINGS_BYTES ==> document_verdict(length, version)
            == Some(SettingsRejection::TooLarge),
        length <= MAX_SETTINGS_BYTES ==> {
            &&& version is None ==> document_verdict(length, version) == Some(
                SettingsRejection::Json,
            )
            &&& (version is Some && version.unwrap() is Some && version.unwrap().unwrap() != 1)
                ==> document_verdict(length, version) == Some(
                SettingsRejection::UnsupportedVersion(version.unwrap().unwrap()),
            )
            &&& version == Some(Some(1u64)) ==> document_verdict(length, version) is None
            &&& version == Some(None::<u64>) ==> document_verdict(length, version) is None
        },
{
}

} // verus!
