//! Stored preferences and where they are kept.

use crate::json::parse_json;
use crate::json::parsed_json;
use crate::settings::AudioDspSettings;
use crate::text::joined;
use vstd::prelude::*;
use vstd::string::StringExecFns;

verus! {

/// `std::path::PathBuf`, a path of the file system.
#[verifier::external_type_specification]
#[verifier::external_body]
pub struct ExPathBuf(std::path::PathBuf);

/// The components of a path, each as text.
pub uninterp spec fn components(path: std::path::PathBuf) -> Seq<Seq<char>>;

/// Whether `name` is one plain component: longer than `.` and `..`, and
/// without the characters that separate components or mark a drive.
pub open spec fn plain_component(name: Seq<char>) -> bool {
    &&& name.len() > 2
    &&& !name.contains('/')
    &&& !name.contains('\\')
    &&& !name.contains(':')
    &&& !name.contains('\0')
}

/// Appends a component with `std::path::Path::join`: the path then has the
/// components of `dir` and the new one.
#[verifier::external_body]
fn join(dir: &std::path::PathBuf, name: &str) -> (path: std::path::PathBuf)
    requires
        plain_component(name@),
    ensures
        components(path) == components(*dir).push(name@),
{
    dir.join(name)
}

/// The current directory, made with `std::path::PathBuf::from`.
#[verifier::external_body]
fn current_dir_path() -> (path: std::path::PathBuf)
    ensures
        components(path) == seq!["."@],
{
    std::path::PathBuf::from(".")
}

/// The directory of the program's files, given the directories that the
/// environment names: the application data directory where there is one, the
/// user's configuration directory, or the one below the home directory.
pub fn config_dir(
    app_data: Option<std::path::PathBuf>,
    config_home: Option<std::path::PathBuf>,
    home: Option<std::path::PathBuf>,
) -> (dir: std::path::PathBuf)
    ensures
        components(dir) == match (app_data, config_home, home) {
            (Some(base), _, _) => components(base).push("micyou"@),
            (None, Some(base), _) => components(base).push("micyou"@),
            (None, None, Some(base)) => components(base).push(".config"@).push("micyou"@),
            (None, None, None) => seq!["."@, ".config"@, "micyou"@],
        },
{
    proof {
        reveal_strlit("micyou");
        reveal_strlit(".config");
    }
    if let Some(base) = app_data {
        return join(&base, "micyou");
    }
    if let Some(base) = config_home {
        return join(&base, "micyou");
    }
    let base = match home {
        Some(base) => base,
        None => current_dir_path(),
    };
    let dir = join(&join(&base, ".config"), "micyou");
    assert(seq!["."@].push(".config"@).push("micyou"@) =~= seq!["."@, ".config"@, "micyou"@]);
    dir
}

/// Where the processing settings are kept.
pub fn settings_path(config_dir: &std::path::PathBuf) -> (path: std::path::PathBuf)
    ensures
        components(path) == components(*config_dir).push("settings.json"@),
{
    proof {
        reveal_strlit("settings.json");
    }
    join(config_dir, "settings.json")
}

/// Where the preferences of the user interface are kept.
pub fn ui_prefs_path(config_dir: &std::path::PathBuf) -> (path: std::path::PathBuf)
    ensures
        components(path) == components(*config_dir).push("ui.json"@),
{
    proof {
        reveal_strlit("ui.json");
    }
    join(config_dir, "ui.json")
}

/// Where the theme is kept.
pub fn theme_path(config_dir: &std::path::PathBuf) -> (path: std::path::PathBuf)
    ensures
        components(path) == components(*config_dir).push("theme.json"@),
{
    proof {
        reveal_strlit("theme.json");
    }
    join(config_dir, "theme.json")
}

/// Where the server preferences are kept.
pub fn server_prefs_path(config_dir: &std::path::PathBuf) -> (path: std::path::PathBuf)
    ensures
        components(path) == components(*config_dir).push("server.json"@),
{
    proof {
        reveal_strlit("server.json");
    }
    join(config_dir, "server.json")
}

/// The files never get in each other's way.
pub proof fn config_files_are_distinct(dir: Seq<Seq<char>>)
    ensures
        dir.push("settings.json"@) != dir.push("ui.json"@),
        dir.push("settings.json"@) != dir.push("theme.json"@),
        dir.push("settings.json"@) != dir.push("server.json"@),
        dir.push("ui.json"@) != dir.push("theme.json"@),
        dir.push("ui.json"@) != dir.push("server.json"@),
        dir.push("theme.json"@) != dir.push("server.json"@),
{
    reveal_strlit("settings.json");
    reveal_strlit("ui.json");
    reveal_strlit("theme.json");
    reveal_strlit("server.json");
    let at = dir.len() as int;
    assert(dir.push("settings.json"@)[at].len() == 13);
    assert(dir.push("ui.json"@)[at].len() == 7);
    assert(dir.push("theme.json"@)[at].len() == 10);
    assert(dir.push("server.json"@)[at].len() == 11);
}

/// Preferences of the user interface.
pub struct UiPrefs {
    pub language: String,
    pub theme_color: String,
}

impl Default for UiPrefs {
    fn default() -> (prefs: Self)
        ensures
            prefs.language@.len() == 0,
            prefs.theme_color@.len() == 0,
    {
        UiPrefs { language: String::new(), theme_color: String::new() }
    }
}

/// The colors of the theme.
pub struct ThemeColors {
    pub primary: String,
    pub secondary: String,
    pub tertiary: String,
    pub surface: String,
    pub surface_variant: String,
    pub on_surface: String,
    pub error: String,
}

impl Default for ThemeColors {
    fn default() -> (colors: Self)
        ensures
            colors.primary@.len() == 0,
            colors.secondary@.len() == 0,
            colors.tertiary@.len() == 0,
            colors.surface@.len() == 0,
            colors.surface_variant@.len() == 0,
            colors.on_surface@.len() == 0,
            colors.error@.len() == 0,
    {
        ThemeColors {
            primary: String::new(),
            secondary: String::new(),
            tertiary: String::new(),
            surface: String::new(),
            surface_variant: String::new(),
            on_surface: String::new(),
            error: String::new(),
        }
    }
}

/// Preferences of the servers.
pub struct ServerPrefs {
    pub port: u16,
    pub web_port: u16,
    pub mode: String,
    pub bind_address: String,
    pub auto_bind: bool,
    pub output_device: String,
}

/// Whether preferences are those of a fresh installation, which uses the
/// browser's transport.
pub open spec fn are_fresh(prefs: ServerPrefs) -> bool {
    &&& prefs.port == 8554
    &&& prefs.web_port == 8443
    &&& prefs.mode@ == "web"@
    &&& prefs.bind_address@ == "0.0.0.0"@
    &&& prefs.auto_bind
    &&& prefs.output_device@.len() == 0
}

impl Default for ServerPrefs {
    fn default() -> (prefs: Self)
        ensures
            are_fresh(prefs),
    {
        ServerPrefs {
            port: 8554,
            web_port: 8443,
            mode: "web".to_owned(),
            bind_address: "0.0.0.0".to_owned(),
            auto_bind: true,
            output_device: String::new(),
        }
    }
}

/// The preferences to use, given what the file holds: a file that is missing or
/// unreadable counts as a fresh installation, any other keeps what was chosen.
pub fn load_server_prefs(stored: Option<ServerPrefs>) -> (prefs: ServerPrefs)
    ensures
        match stored {
            Some(found) => prefs == found,
            None => are_fresh(prefs),
        },
{
    match stored {
        Some(found) => found,
        None => ServerPrefs::default(),
    }
}

/// The preferences to use, given what the file holds.
pub fn load_ui_prefs(stored: Option<UiPrefs>) -> (prefs: UiPrefs)
    ensures
        match stored {
            Some(found) => prefs == found,
            None => prefs.language@.len() == 0 && prefs.theme_color@.len() == 0,
        },
{
    match stored {
        Some(found) => found,
        None => UiPrefs::default(),
    }
}

/// The colors to use, given what the file holds.
pub fn load_theme_colors(stored: Option<ThemeColors>) -> (colors: ThemeColors)
    ensures
        match stored {
            Some(found) => colors == found,
            None => {
                &&& colors.primary@.len() == 0
                &&& colors.secondary@.len() == 0
                &&& colors.tertiary@.len() == 0
                &&& colors.surface@.len() == 0
                &&& colors.surface_variant@.len() == 0
                &&& colors.on_surface@.len() == 0
                &&& colors.error@.len() == 0
            },
        },
{
    match stored {
        Some(found) => found,
        None => ThemeColors::default(),
    }
}

/// The audio settings to use, given what the file holds, normalized: a file that
/// is missing or unreadable counts as one with the settings of a fresh
/// installation.
pub fn load_dsp_settings(stored: Option<AudioDspSettings>, fresh: AudioDspSettings) -> (settings:
    AudioDspSettings)
    ensures
        settings == match stored {
            Some(found) => found,
            None => fresh,
        },
{
    match stored {
        Some(found) => found,
        None => fresh,
    }
}

/// The audio settings as JSON, given the text of their file: what the file holds
/// if it is there and holds JSON, otherwise the settings of a fresh
/// installation.
pub fn settings_json(text: Option<String>, fresh: serde_json::Value) -> (json: serde_json::Value)
    ensures
        json == match text {
            Some(held) => match parsed_json(held@) {
                Some(value) => value,
                None => fresh,
            },
            None => fresh,
        },
{
    match text {
        Some(held) => match parse_json(held.as_str()) {
            Some(value) => value,
            None => fresh,
        },
        None => fresh,
    }
}

/// The files that can be saved.
#[derive(Clone, Copy, Debug, PartialEq, Eq, Structural)]
pub enum ConfigFile {
    Settings,
    Ui,
    Theme,
    Server,
}

/// What came of the three steps of saving a file, up to the first that failed.
pub enum SaveOutcome {
    Saved,
    /// The directory could not be made, with the reason.
    CreateDirFailed(String),
    /// The contents could not be written as JSON, with the reason.
    SerializeFailed(String),
    /// The file could not be written, with the reason.
    WriteFailed(String),
}

impl ConfigFile {
    /// What the contents of the file are called.
    pub open spec fn subject(self) -> Seq<char> {
        match self {
            ConfigFile::Settings => "settings"@,
            ConfigFile::Ui => "ui prefs"@,
            ConfigFile::Theme => "theme"@,
            ConfigFile::Server => "server prefs"@,
        }
    }

    /// The name of the file.
    pub open spec fn file_name(self) -> Seq<char> {
        match self {
            ConfigFile::Settings => "settings.json"@,
            ConfigFile::Ui => "ui.json"@,
            ConfigFile::Theme => "theme.json"@,
            ConfigFile::Server => "server.json"@,
        }
    }
}

/// The text that reports a failed save.
pub open spec fn save_failure(file: ConfigFile, outcome: SaveOutcome) -> Seq<char> {
    match outcome {
        SaveOutcome::Saved => seq![],
        SaveOutcome::CreateDirFailed(reason) => "create config dir failed: "@ + reason@,
        SaveOutcome::SerializeFailed(reason) => "serialize "@ + file.subject() + " failed: "@
            + reason@,
        SaveOutcome::WriteFailed(reason) => "write "@ + file.file_name() + " failed: "@ + reason@,
    }
}

/// Reports how saving a file went.
pub fn save_result(file: ConfigFile, outcome: SaveOutcome) -> (result: Result<(), String>)
    ensures
        result is Ok == (outcome is Saved),
        result matches Err(text) ==> text@ == save_failure(file, outcome),
{
    match outcome {
        SaveOutcome::Saved => Ok(()),
        SaveOutcome::CreateDirFailed(reason) => Err(
            joined("create config dir failed: ", reason.as_str()),
        ),
        SaveOutcome::SerializeFailed(reason) => {
            let subject = match file {
                ConfigFile::Settings => "settings",
                ConfigFile::Ui => "ui prefs",
                ConfigFile::Theme => "theme",
                ConfigFile::Server => "server prefs",
            };
            Err(failure("serialize ", subject, reason.as_str()))
        },
        SaveOutcome::WriteFailed(reason) => {
            let name = match file {
                ConfigFile::Settings => "settings.json",
                ConfigFile::Ui => "ui.json",
                ConfigFile::Theme => "theme.json",
                ConfigFile::Server => "server.json",
            };
            Err(failure("write ", name, reason.as_str()))
        },
    }
}

/// A report that doing something to a subject failed.
fn failure(verb: &str, subject: &str, reason: &str) -> (text: String)
    ensures
        text@ == verb@ + subject@ + " failed: "@ + reason@,
{
    let mut text = joined(verb, subject);
    text.append(" failed: ");
    text.append(reason);
    text
}

/// Answers a request to save the server preferences, given how it went.
pub fn save_server_prefs(saved: Result<(), String>) -> (answer: Result<String, String>)
    ensures
        match saved {
            Ok(_) => answer matches Ok(text) && text@ == "Server prefs saved"@,
            Err(reason) => answer == Err::<String, _>(reason),
        },
{
    match saved {
        Ok(_) => Ok("Server prefs saved".to_owned()),
        Err(reason) => Err(reason),
    }
}

/// The directories in which the models of the processing stages may lie: that
/// of the program, its resources, the resources of the installation around it,
/// and those of the build.
pub fn model_directories(
    program_dir: Option<std::path::PathBuf>,
    install_prefix: Option<std::path::PathBuf>,
    build_dir: &std::path::PathBuf,
) -> (candidates: Vec<std::path::PathBuf>)
    ensures
        candidates@.map_values(|path: std::path::PathBuf| components(path)) == match program_dir {
            Some(dir) => seq![components(dir), components(dir).push("resources"@)],
            None => seq![],
        } + match install_prefix {
            Some(prefix) => seq![
                components(prefix).push("lib"@).push("micyou"@).push("resources"@),
            ],
            None => seq![],
        } + seq![components(*build_dir).push("resources"@)],
{
    proof {
        reveal_strlit("resources");
        reveal_strlit("lib");
        reveal_strlit("micyou");
    }
    let ghost view = |path: std::path::PathBuf| components(path);
    let mut candidates: Vec<std::path::PathBuf> = Vec::new();
    if let Some(dir) = program_dir {
        let resources = join(&dir, "resources");
        candidates.push(dir);
        candidates.push(resources);
    }
    if let Some(prefix) = install_prefix {
        candidates.push(join(&join(&join(&prefix, "lib"), "micyou"), "resources"));
    }
    candidates.push(join(build_dir, "resources"));
    assert(candidates@.map_values(view) =~= match program_dir {
        Some(dir) => seq![components(dir), components(dir).push("resources"@)],
        None => seq![],
    } + match install_prefix {
        Some(prefix) => seq![components(prefix).push("lib"@).push("micyou"@).push("resources"@)],
        None => seq![],
    } + seq![components(*build_dir).push("resources"@)]);
    candidates
}

/// The models that mark a directory as the one of the processing stages.
pub fn model_markers() -> (markers: [&'static str; 2])
    ensures
        markers@[0]@ == "purevox6.onnx"@,
        markers@[1]@ == "aec7_ep0185.onnx"@,
{
    ["purevox6.onnx", "aec7_ep0185.onnx"]
}

/// Whether a directory holds any of the marking models, given which it holds.
pub open spec fn holds_model(present: [bool; 2]) -> bool {
    present@[0] || present@[1]
}

/// The first of the candidate directories that holds a marking model, given
/// which of them each directory holds.
pub fn find_web_dsp_resources(
    candidates: Vec<std::path::PathBuf>,
    present: &Vec<[bool; 2]>,
) -> (found: Option<std::path::PathBuf>)
    requires
        candidates@.len() == present@.len(),
    ensures
        match found {
            Some(dir) => exists|i: int|
                0 <= i < candidates@.len() && holds_model(#[trigger] present@[i]) && dir
                    == candidates@[i] && forall|j: int|
                    0 <= j < i ==> !holds_model(#[trigger] present@[j]),
            None => forall|i: int| 0 <= i < present@.len() ==> !holds_model(#[trigger] present@[i]),
        },
{
    let ghost all = candidates@;
    let length: usize = present.len();
    let mut i: usize = 0;
    for dir in it: candidates
        invariant
            it.seq() == all,
            all.len() == present@.len(),
            i == it.index(),
            length == present@.len(),
            forall|j: int| 0 <= j < i ==> !holds_model(#[trigger] present@[j]),
    {
        if present[i][0] || present[i][1] {
            assert(holds_model(present@[i as int]));
            assert(dir == all[i as int]);
            return Some(dir);
        }
        i = i + 1;
    }
    None
}

/// The report of a failed save says what failed and ends with the reason; a save
/// that worked has none.
pub proof fn failed_save_ends_with_the_reason(file: ConfigFile, reason: String)
    ensures
        save_failure(file, SaveOutcome::CreateDirFailed(reason)) == "create config dir failed: "@
            + reason@,
        exists|subject: Seq<char>|
            save_failure(file, SaveOutcome::SerializeFailed(reason)) == #[trigger] ("serialize "@
                + subject + " failed: "@ + reason@),
        save_failure(file, SaveOutcome::WriteFailed(reason)) == "write "@ + file.file_name()
            + " failed: "@ + reason@,
{
    assert(save_failure(file, SaveOutcome::SerializeFailed(reason)) == "serialize "@
        + file.subject() + " failed: "@ + reason@);
}

/// A directory with either of the two models is one to use.
pub proof fn either_model_marks_a_directory(present: [bool; 2])
    ensures
        present@[0] ==> holds_model(present),
        present@[1] ==> holds_model(present),
        !present@[0] && !present@[1] ==> !holds_model(present),
{
}

/// A fresh installation uses the browser's transport on the port of the microphone
/// server, on every address, and has chosen no output device.
pub proof fn fresh_installation_is_for_browsers(prefs: ServerPrefs)
    requires
        are_fresh(prefs),
    ensures
        prefs.mode@ == "web"@,
        prefs.web_port == 8443,
        prefs.port == 8554,
        prefs.bind_address@ == "0.0.0.0"@,
        prefs.auto_bind,
        prefs.output_device@ == Seq::<char>::empty(),
{
}

} // verus!
