//! Installing the add-on: choosing the newest version directory of Blender's
//! configuration root, and the steps that put the add-on file there.

use crate::error::{BridgeError, ErrorKind, ErrorView};
use crate::paths::{join_path, joined_path};
use crate::platform::Platform;
use crate::text::{concat2, concat3, opt_text};
use crate::version::{parse_blender_version, parse_version, version_less, version_lt};
use vstd::prelude::*;
use vstd::string::StringExecFns;

verus! {

/// The environment variable of the user's application data.
pub const APP_DATA_VARIABLE: &'static str = "APPDATA";

/// The file name under which the add-on is installed.
pub const ADDON_FILE_NAME: &'static str = "blender_mcp.py";

/// One entry of the configuration root.
#[derive(Debug, PartialEq, Eq)]
pub struct ConfigEntry {
    pub name: String,
    pub is_dir: bool,
}

/// What was found of Blender's per-user configuration.
#[derive(Debug, PartialEq, Eq)]
pub struct ConfigSurvey {
    /// The value of [`APP_DATA_VARIABLE`], where it is set.
    pub app_data: Option<String>,
    /// Whether the configuration root exists.
    pub root_exists: bool,
    /// The entries of the configuration root, or the system's text where it
    /// could not be listed.
    pub entries: Result<Vec<ConfigEntry>, String>,
}

/// The outcome of an installation.
#[derive(Debug, PartialEq, Eq)]
pub struct AddonInstallResult {
    pub installed: bool,
    pub addon_path: Option<String>,
    pub blender_version: Option<String>,
    pub message: String,
}

/// The mathematical model of an [`AddonInstallResult`].
pub struct AddonInstallView {
    pub installed: bool,
    pub addon_path: Option<Seq<char>>,
    pub blender_version: Option<Seq<char>>,
    pub message: Seq<char>,
}

impl View for AddonInstallResult {
    type V = AddonInstallView;

    open spec fn view(&self) -> AddonInstallView {
        AddonInstallView {
            installed: self.installed,
            addon_path: opt_text(self.addon_path),
            blender_version: opt_text(self.blender_version),
            message: self.message@,
        }
    }
}

impl Clone for AddonInstallResult {
    fn clone(&self) -> (copy: Self)
        ensures
            copy@ == self@,
    {
        AddonInstallResult {
            installed: self.installed,
            addon_path: match &self.addon_path {
                Some(path) => Some(path.clone()),
                None => None,
            },
            blender_version: match &self.blender_version {
                Some(version) => Some(version.clone()),
                None => None,
            },
            message: self.message.clone(),
        }
    }
}

/// Blender's configuration root below the application data directory.
pub open spec fn config_root(app_data: Seq<char>) -> Seq<char> {
    joined_path(joined_path(app_data, "Blender Foundation"@), "Blender"@)
}

/// The add-on directory of one version below the configuration root.
pub open spec fn addons_directory(root: Seq<char>, version: Seq<char>) -> Seq<char> {
    joined_path(joined_path(joined_path(root, version), "scripts"@), "addons"@)
}

/// The file of the add-on in an add-on directory.
pub open spec fn addon_file(addons_dir: Seq<char>) -> Seq<char> {
    joined_path(addons_dir, ADDON_FILE_NAME@)
}

/// An entry that stands for an installed version: a directory named like one.
pub open spec fn is_version_dir(entry: ConfigEntry) -> bool {
    entry.is_dir && parse_version(entry.name@) is Some
}

/// The version that an entry is named after.
pub open spec fn tag(entry: ConfigEntry) -> (u32, u32, u32) {
    parse_version(entry.name@)->0
}

/// The index of the newest version directory among the first `upto` entries: of
/// several with the newest version, the first.
pub open spec fn latest_index(entries: Seq<ConfigEntry>, upto: int) -> Option<int>
    decreases upto,
{
    if upto <= 0 || upto > entries.len() {
        None
    } else {
        let before = latest_index(entries, upto - 1);
        if !is_version_dir(entries[upto - 1]) {
            before
        } else {
            match before {
                None => Some(upto - 1),
                Some(best) => if version_lt(tag(entries[best]), tag(entries[upto - 1])) {
                    Some(upto - 1)
                } else {
                    Some(best)
                },
            }
        }
    }
}

/// The newest version directory is one, none is newer, and none before it is as
/// new; and there is none exactly where no entry is a version directory.
pub proof fn lemma_latest_is_maximal(entries: Seq<ConfigEntry>, upto: int)
    requires
        0 <= upto <= entries.len(),
    ensures
        match latest_index(entries, upto) {
            Some(best) => {
                &&& 0 <= best < upto
                &&& is_version_dir(entries[best])
                &&& forall|j: int|
                    0 <= j < upto && is_version_dir(#[trigger] entries[j]) ==> !version_lt(
                        tag(entries[best]),
                        tag(entries[j]),
                    )
                &&& forall|j: int|
                    0 <= j < best && is_version_dir(#[trigger] entries[j]) ==> version_lt(
                        tag(entries[j]),
                        tag(entries[best]),
                    )
            },
            None => forall|j: int| 0 <= j < upto ==> !is_version_dir(#[trigger] entries[j]),
        },
    decreases upto,
{
    if upto > 0 {
        lemma_latest_is_maximal(entries, upto - 1);
    }
}

/// The message of an environment without `APPDATA`.
pub open spec fn app_data_missing_text() -> Seq<char> {
    "APPDATA is not available."@
}

/// The message of a configuration root that does not exist.
pub open spec fn root_missing_text(root: Seq<char>) -> Seq<char> {
    "Blender user config directory not found at "@ + root
}

/// The message of a configuration root that could not be listed.
pub open spec fn listing_failed_text(root: Seq<char>, detail: Seq<char>) -> Seq<char> {
    "Failed listing "@ + root + ": "@ + detail
}

/// The message of a configuration root without a version directory.
pub open spec fn no_version_text(root: Seq<char>) -> Seq<char> {
    "No Blender version folders found in "@ + root
}

/// The message of an installation that went through.
pub open spec fn installed_text(version: Seq<char>) -> Seq<char> {
    "Addon installed to Blender "@ + version
        + ". In Blender Preferences > Add-ons, enable 'Interface: Blender MCP'."@
}

/// The newest installed version and its add-on directory, or why there is none:
/// the configuration is missing where `APPDATA` is not set or the configuration
/// root does not exist, and no version is found where none of its entries is a
/// directory named like a version.
pub open spec fn located(config: ConfigSurvey) -> Result<(Seq<char>, Seq<char>), ErrorView> {
    match config.app_data {
        None => Err(ErrorView { kind: ErrorKind::ConfigMissing, message: app_data_missing_text() }),
        Some(app_data) => {
            let root = config_root(app_data@);
            if !config.root_exists {
                Err(ErrorView { kind: ErrorKind::ConfigMissing, message: root_missing_text(root) })
            } else {
                match config.entries {
                    Err(detail) => Err(
                        ErrorView {
                            kind: ErrorKind::Io,
                            message: listing_failed_text(root, detail@),
                        },
                    ),
                    Ok(entries) => match latest_index(entries@, entries@.len() as int) {
                        None => Err(
                            ErrorView {
                                kind: ErrorKind::NoVersionFound,
                                message: no_version_text(root),
                            },
                        ),
                        Some(best) => Ok(
                            (entries@[best].name@, addons_directory(root, entries@[best].name@)),
                        ),
                    },
                }
            }
        },
    }
}

/// Blender's configuration root below the application data directory.
pub fn blender_config_root(app_data: &str) -> (root: String)
    ensures
        root@ == config_root(app_data@),
{
    let vendor = join_path(app_data, "Blender Foundation");
    join_path(vendor.as_str(), "Blender")
}

/// The index of the newest version directory among the entries.
fn latest_version_entry(entries: &Vec<ConfigEntry>) -> (best: Option<usize>)
    ensures
        match best {
            Some(index) => index < entries.len() && latest_index(
                entries@,
                entries@.len() as int,
            ) == Some(index as int),
            None => latest_index(entries@, entries@.len() as int) is None,
        },
{
    let mut best: Option<(usize, (u32, u32, u32))> = None;
    let mut i: usize = 0;
    while i < entries.len()
        invariant
            i <= entries.len(),
            match best {
                Some((index, version)) => latest_index(entries@, i as int) == Some(index as int)
                    && index < i && is_version_dir(entries[index as int]) && version == tag(
                    entries[index as int],
                ),
                None => latest_index(entries@, i as int) is None,
            },
        decreases entries.len() - i,
    {
        if entries[i].is_dir {
            match parse_blender_version(entries[i].name.as_str()) {
                Some(version) => {
                    best = match best {
                        None => Some((i, version)),
                        Some((index, newest)) => if version_less(newest, version) {
                            Some((i, version))
                        } else {
                            Some((index, newest))
                        },
                    };
                },
                None => {},
            }
        }
        i += 1;
    }
    match best {
        Some((index, _)) => Some(index),
        None => None,
    }
}

/// Finds the newest installed version of Blender and the directory for its
/// add-ons.
pub fn find_latest_blender_addons_dir(config: &ConfigSurvey) -> (found: Result<
    (String, String),
    BridgeError,
>)
    ensures
        match found {
            Ok((version, addons_dir)) => located(*config) == Ok::<
                (Seq<char>, Seq<char>),
                ErrorView,
            >((version@, addons_dir@)),
            Err(error) => located(*config) == Err::<(Seq<char>, Seq<char>), ErrorView>(error@),
        },
{
    let app_data = match &config.app_data {
        Some(app_data) => app_data,
        None => {
            return Err(
                BridgeError::new(
                    ErrorKind::ConfigMissing,
                    String::from_str("APPDATA is not available."),
                ),
            );
        },
    };
    let root = blender_config_root(app_data.as_str());
    if !config.root_exists {
        let message = concat2("Blender user config directory not found at ", root.as_str());
        return Err(BridgeError::new(ErrorKind::ConfigMissing, message));
    }
    let entries = match &config.entries {
        Ok(entries) => entries,
        Err(detail) => {
            let mut message = concat3("Failed listing ", root.as_str(), ": ");
            message.append(detail.as_str());
            return Err(BridgeError::new(ErrorKind::Io, message));
        },
    };
    match latest_version_entry(entries) {
        None => {
            let message = concat2("No Blender version folders found in ", root.as_str());
            Err(BridgeError::new(ErrorKind::NoVersionFound, message))
        },
        Some(index) => {
            let version = entries[index].name.clone();
            let version_dir = join_path(root.as_str(), version.as_str());
            let scripts = join_path(version_dir.as_str(), "scripts");
            let addons_dir = join_path(scripts.as_str(), "addons");
            Ok((version, addons_dir))
        },
    }
}

/// What has been observed so far while the add-on is installed.
#[derive(Debug, PartialEq, Eq)]
pub struct InstallProgress {
    pub config: Option<ConfigSurvey>,
    pub directory_created: Option<Result<(), String>>,
    pub addon_written: Option<Result<(), String>>,
}

impl InstallProgress {
    /// Nothing has been done yet.
    pub fn new() -> (progress: Self)
        ensures
            progress.config is None,
            progress.directory_created is None,
            progress.addon_written is None,
    {
        InstallProgress { config: None, directory_created: None, addon_written: None }
    }
}

/// The next step of an installation.
#[derive(Debug, PartialEq, Eq)]
pub enum InstallStep {
    /// Survey Blender's configuration root.
    SurveyConfig,
    /// Create this directory and the directories above it.
    CreateDirectory(String),
    /// Write the add-on to this file, in place of what it may hold.
    WriteAddon(String),
    /// The installation is over, with this outcome.
    Finished(Result<AddonInstallResult, BridgeError>),
}

/// The mathematical model of an [`InstallStep`].
pub enum InstallDecision {
    SurveyConfig,
    CreateDirectory(Seq<char>),
    WriteAddon(Seq<char>),
    Finished(Result<AddonInstallView, ErrorView>),
}

impl View for InstallStep {
    type V = InstallDecision;

    open spec fn view(&self) -> InstallDecision {
        match self {
            InstallStep::SurveyConfig => InstallDecision::SurveyConfig,
            InstallStep::CreateDirectory(path) => InstallDecision::CreateDirectory(path@),
            InstallStep::WriteAddon(path) => InstallDecision::WriteAddon(path@),
            InstallStep::Finished(Ok(result)) => InstallDecision::Finished(Ok(result@)),
            InstallStep::Finished(Err(error)) => InstallDecision::Finished(Err(error@)),
        }
    }
}

/// The failure of an installation.
pub open spec fn install_failure(kind: ErrorKind, message: Seq<char>) -> InstallDecision {
    InstallDecision::Finished(Err(ErrorView { kind, message }))
}

/// The result of an installation that went through.
pub open spec fn installed(version: Seq<char>, addons_dir: Seq<char>) -> AddonInstallView {
    AddonInstallView {
        installed: true,
        addon_path: Some(addon_file(addons_dir)),
        blender_version: Some(version),
        message: installed_text(version),
    }
}

/// The step that follows what has been observed. On Windows: survey the
/// configuration, create the add-on directory of the newest version, write the
/// add-on file there, and report. The first step that failed ends the
/// installation with its failure. Elsewhere the installation is not offered.
pub open spec fn install_decision(platform: Platform, progress: InstallProgress) -> InstallDecision {
    if platform != Platform::Windows {
        install_failure(
            ErrorKind::UnsupportedPlatform,
            "Automatic addon installation is currently implemented for Windows builds only."@,
        )
    } else {
        match progress.config {
            None => InstallDecision::SurveyConfig,
            Some(config) => match located(config) {
                Err(error) => InstallDecision::Finished(Err(error)),
                Ok((version, addons_dir)) => match progress.directory_created {
                    None => InstallDecision::CreateDirectory(addons_dir),
                    Some(Err(detail)) => install_failure(
                        ErrorKind::Io,
                        "Failed creating Blender addons directory: "@ + detail@,
                    ),
                    Some(Ok(_)) => match progress.addon_written {
                        None => InstallDecision::WriteAddon(addon_file(addons_dir)),
                        Some(Err(detail)) => install_failure(
                            ErrorKind::Io,
                            "Failed writing addon file: "@ + detail@,
                        ),
                        Some(Ok(_)) => InstallDecision::Finished(Ok(installed(version, addons_dir))),
                    },
                },
            },
        }
    }
}

/// Installing again comes to the same.
///
/// As long as the configuration root looks the same, every installation whose
/// steps succeed writes the same file and ends with the same result, which says
/// that the add-on is installed.
pub proof fn lemma_install_repeats(
    config: ConfigSurvey,
    first: InstallProgress,
    second: InstallProgress,
)
    requires
        located(config) is Ok,
        first.config == Some(config),
        second.config == Some(config),
        first.directory_created matches Some(Ok(_)),
        second.directory_created matches Some(Ok(_)),
        first.addon_written is None || first.addon_written matches Some(Ok(_)),
        (first.addon_written is None) == (second.addon_written is None),
        second.addon_written is None || second.addon_written matches Some(Ok(_)),
    ensures
        install_decision(Platform::Windows, first) == install_decision(Platform::Windows, second),
        first.addon_written is None ==> install_decision(Platform::Windows, second)
            == InstallDecision::WriteAddon(addon_file(located(config)->Ok_0.1)),
        first.addon_written is Some ==> (install_decision(Platform::Windows, second)
            matches InstallDecision::Finished(Ok(result)) && result.installed),
{
}

/// Decides the next step of installing the add-on, from what the steps made so
/// far have brought. Installing again writes the same file again.
pub fn install_blender_addon_impl(platform: Platform, progress: &InstallProgress) -> (step:
    InstallStep)
    ensures
        step@ == install_decision(platform, *progress),
{
    if platform != Platform::Windows {
        return InstallStep::Finished(
            Err(
                BridgeError::new(
                    ErrorKind::UnsupportedPlatform,
                    String::from_str(
                        "Automatic addon installation is currently implemented for Windows builds only.",
                    ),
                ),
            ),
        );
    }
    let config = match &progress.config {
        Some(config) => config,
        None => { return InstallStep::SurveyConfig; },
    };
    let (version, addons_dir) = match find_latest_blender_addons_dir(config) {
        Ok(found) => found,
        Err(error) => { return InstallStep::Finished(Err(error)); },
    };
    match &progress.directory_created {
        None => { return InstallStep::CreateDirectory(addons_dir); },
        Some(Err(detail)) => {
            let message = concat2("Failed creating Blender addons directory: ", detail.as_str());
            return InstallStep::Finished(Err(BridgeError::new(ErrorKind::Io, message)));
        },
        Some(Ok(_)) => {},
    }
    let addon_path = join_path(addons_dir.as_str(), ADDON_FILE_NAME);
    match &progress.addon_written {
        None => InstallStep::WriteAddon(addon_path),
        Some(Err(detail)) => {
            let message = concat2("Failed writing addon file: ", detail.as_str());
            InstallStep::Finished(Err(BridgeError::new(ErrorKind::Io, message)))
        },
        Some(Ok(_)) => {
            let message = concat3(
                "Addon installed to Blender ",
                version.as_str(),
                ". In Blender Preferences > Add-ons, enable 'Interface: Blender MCP'.",
            );
            InstallStep::Finished(
                Ok(
                    AddonInstallResult {
                        installed: true,
                        addon_path: Some(addon_path),
                        blender_version: Some(version),
                        message,
                    },
                ),
            )
        },
    }
}

} // verus!
