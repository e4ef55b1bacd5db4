//! Commands, calculation methods, exit statuses, and where the program keeps
//! its settings and its cues.

use vstd::prelude::*;
use crate::error::AdhanError;
use crate::kinds::{AdhanType, EventKind, Prayer};
use crate::outside::{join_path, joined_path, project_config_dir};

verus! {

/// The calculation methods that a configuration can be generated from.
#[derive(Clone, Copy, Debug, PartialEq, Eq, Structural)]
pub enum Method {
    MuslimWorldLeague,
    Egyptian,
    Karachi,
    UmmAlQura,
    Dubai,
    MoonsightingCommittee,
    NorthAmerica,
    Kuwait,
    Qatar,
    Singapore,
    Tehran,
    Turkey,
    Other,
}

/// What `list` lists.
#[derive(Clone, Copy, Debug, PartialEq, Eq, Structural)]
pub enum AdhanListSubcommand {
    /// The audio output devices.
    Devices,
    /// The audio hosts.
    Hosts,
}

/// The program's commands.
#[derive(Clone, Debug, PartialEq, Eq)]
pub enum AdhanCommands {
    /// Monitor the day's schedule and play on the given output device.
    Run { audio_device: String },
    /// Play one cue on the given output device: that of the dawn prayer if
    /// `use_fajr`, else the normal one.
    Test { audio_device: String, use_fajr: bool },
    /// Show the day's timetable.
    Timetable,
    /// Write a configuration for the given method.
    Generate { method: Method },
    /// List audio components.
    List(AdhanListSubcommand),
}

/// The stage at which the program gives up.
#[derive(Clone, Copy, Debug, PartialEq, Eq, Structural)]
pub enum Failure {
    /// The configuration directory could not be set up.
    ConfigurationInit,
    /// The configuration could not be written.
    ConfigurationCreate,
    /// The configuration could not be read.
    ConfigurationRead,
    /// The test playback failed.
    Playback,
    /// The day's schedule could not be built.
    ScheduleBuild,
}

/// The exit status of each failure.
pub open spec fn exit_status(failure: Failure) -> i32 {
    match failure {
        Failure::ConfigurationInit => 1,
        Failure::ConfigurationCreate => 2,
        Failure::ConfigurationRead => 3,
        Failure::Playback => 4,
        Failure::ScheduleBuild => 5,
    }
}

/// The kind of event that the `test` command triggers.
pub open spec fn test_kind(use_fajr: bool) -> EventKind {
    if use_fajr {
        EventKind::Prayer(Prayer::Fajr)
    } else {
        EventKind::Prayer(Prayer::Isha)
    }
}

/// The text of the error for a missing configuration directory.
pub open spec fn no_directory_text() -> Seq<char> {
    "cannot generate configuration folder for 'adhan'"@
}

/// What the search for the configuration directory comes to.
pub open spec fn base_outcome(found: Option<String>, r: Result<String, AdhanError>) -> bool {
    match found {
        Some(dir) => r == Ok::<String, AdhanError>(dir),
        None => r matches Err(AdhanError::Configuration(text)) && text@ == no_directory_text(),
    }
}

impl Failure {
    /// The status with which the program exits on this failure.
    pub fn exit_code(self) -> (r: i32)
        ensures
            r == exit_status(self),
            r != 0,
    {
        match self {
            Failure::ConfigurationInit => 1,
            Failure::ConfigurationCreate => 2,
            Failure::ConfigurationRead => 3,
            Failure::Playback => 4,
            Failure::ScheduleBuild => 5,
        }
    }
}

impl AdhanCommands {
    /// The kind of event that the `test` command triggers.
    pub fn test_event(use_fajr: bool) -> (r: EventKind)
        ensures
            r == test_kind(use_fajr),
    {
        if use_fajr {
            EventKind::Prayer(Prayer::Fajr)
        } else {
            EventKind::Prayer(Prayer::Isha)
        }
    }
}

/// The configuration directory, given what the search for it found: the
/// directory itself, or a configuration error if there is none.
pub fn base_directory_from(found: Option<String>) -> (r: Result<String, AdhanError>)
    ensures
        base_outcome(found, r),
{
    match found {
        Some(dir) => Ok(dir),
        None => Err(AdhanError::Configuration("cannot generate configuration folder for 'adhan'".to_owned())),
    }
}

/// The program's configuration directory: that of the application "adhan",
/// with no qualifier and no organization, as the user's environment places
/// it. It fails with a configuration error, and no other, when the
/// environment names none; `base_directory_from` says what becomes of each
/// answer.
pub fn adhan_base_directory() -> (r: Result<String, AdhanError>)
    ensures
        r matches Err(e) ==> e matches AdhanError::Configuration(text) && text@ == no_directory_text(),
{
    base_directory_from(project_config_dir("", "", "adhan"))
}

/// The directory of the cues below the configuration directory `base`.
pub fn audio_directory_in(base: &str) -> (r: String)
    ensures
        r@ == joined_path(base@, "audio"@),
{
    join_path(base, "audio")
}

/// The settings file below the configuration directory `base`.
pub fn settings_file_in(base: &str) -> (r: String)
    ensures
        r@ == joined_path(base@, "settings.yaml"@),
{
    join_path(base, "settings.yaml")
}

/// The directory of a category's cues below the cue directory `audio`: it
/// bears the category's name.
pub fn cue_directory_in(audio: &str, category: AdhanType) -> (r: String)
    ensures
        r@ == joined_path(audio@, category.spec_name()),
{
    let name = category.name();
    join_path(audio, name.as_str())
}

/// The directory of the cues, given the outcome of the search for the
/// configuration directory: the error is handed on as it is.
pub fn audio_directory_from(base: Result<String, AdhanError>) -> (r: Result<String, AdhanError>)
    ensures
        base matches Ok(dir) ==> r matches Ok(audio) && audio@ == joined_path(dir@, "audio"@),
        base matches Err(e) ==> r == Err::<String, AdhanError>(e),
{
    match base {
        Ok(dir) => Ok(audio_directory_in(dir.as_str())),
        Err(e) => Err(e),
    }
}

/// What is to be set up at the program's start: the cue directory, if there
/// is a configuration directory to be and it does not exist yet; else
/// nothing.
pub fn directory_to_create(base: Result<String, AdhanError>, base_exists: bool) -> (r: Option<String>)
    ensures
        r is Some <==> base is Ok && !base_exists,
        r matches Some(audio) ==> base matches Ok(dir) && audio@ == joined_path(dir@, "audio"@),
{
    match base {
        Ok(dir) => if base_exists {
            None
        } else {
            Some(audio_directory_in(dir.as_str()))
        },
        Err(_) => None,
    }
}

/// The directory of the cues below the program's configuration directory.
/// It fails as `adhan_base_directory` does.
pub fn adhan_audio_directory() -> (r: Result<String, AdhanError>)
    ensures
        r matches Ok(audio) ==> exists|dir: Seq<char>| audio@ == #[trigger] joined_path(dir, "audio"@),
        r matches Err(e) ==> e matches AdhanError::Configuration(text) && text@ == no_directory_text(),
{
    audio_directory_from(adhan_base_directory())
}

/// No two failures share an exit status, and none exits with success.
pub proof fn exit_statuses_are_distinct(a: Failure, b: Failure)
    ensures
        exit_status(a) == exit_status(b) ==> a == b,
        exit_status(a) != 0,
{
}

} // verus!
