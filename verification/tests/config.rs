use std::path::Path;

use adhan::config::{
    adhan_audio_directory, adhan_base_directory, audio_directory_from, audio_directory_in, base_directory_from,
    cue_directory_in, directory_to_create, settings_file_in, AdhanCommands, AdhanListSubcommand, Failure, Method,
};
use adhan::error::AdhanError;
use adhan::kinds::{AdhanType, EventKind, Prayer};

fn text(path: &Path) -> String {
    path.to_string_lossy().into_owned()
}

#[test]
fn audio_directory_lies_below_the_base() {
    let base = text(&Path::new("home").join("user").join("adhan"));
    assert_eq!(audio_directory_in(&base), text(&Path::new(&base).join("audio")));
    assert_ne!(audio_directory_in(&base), base);
    assert!(audio_directory_in(&base).ends_with("audio"));
}

#[test]
fn settings_file_lies_below_the_base() {
    let base = text(&Path::new("home").join("user").join("adhan"));
    assert_eq!(settings_file_in(&base), text(&Path::new(&base).join("settings.yaml")));
}

#[test]
fn cue_directories_bear_the_category_names() {
    let audio = text(&Path::new("adhan").join("audio"));
    assert_eq!(cue_directory_in(&audio, AdhanType::Fajr), text(&Path::new(&audio).join("fajr")));
    assert_eq!(cue_directory_in(&audio, AdhanType::Normal), text(&Path::new(&audio).join("normal")));
}

#[test]
fn a_missing_base_directory_is_a_configuration_error() {
    let expected = AdhanError::Configuration(String::from("cannot generate configuration folder for 'adhan'"));
    assert_eq!(base_directory_from(None), Err(expected.clone()));
    assert_eq!(audio_directory_from(Err(expected.clone())), Err(expected));
    assert_eq!(audio_directory_from(Err(AdhanError::IO)), Err(AdhanError::IO));
}

#[test]
fn a_found_base_directory_is_handed_on() {
    assert_eq!(base_directory_from(Some(String::from("conf"))), Ok(String::from("conf")));
    assert_eq!(audio_directory_from(Ok(String::from("conf"))), Ok(text(&Path::new("conf").join("audio"))));
}

#[test]
fn the_audio_directory_follows_the_base_directory() {
    match adhan_base_directory() {
        Ok(base) => {
            assert!(base.ends_with("adhan") || base.contains("adhan"));
            assert_eq!(adhan_audio_directory(), Ok(audio_directory_in(&base)));
        }
        Err(e) => {
            assert_eq!(e, AdhanError::Configuration(String::from("cannot generate configuration folder for 'adhan'")));
            assert_eq!(adhan_audio_directory(), Err(e));
        }
    }
}

#[test]
fn the_cue_directory_is_set_up_once() {
    let audio = text(&Path::new("conf").join("audio"));
    assert_eq!(directory_to_create(Ok(String::from("conf")), false), Some(audio));
    assert_eq!(directory_to_create(Ok(String::from("conf")), true), None);
    assert_eq!(directory_to_create(Err(AdhanError::Configuration(String::from("none"))), false), None);
    assert_eq!(directory_to_create(Err(AdhanError::IO), true), None);
}

#[test]
fn exit_codes_are_fixed_and_distinct() {
    assert_eq!(Failure::ConfigurationInit.exit_code(), 1);
    assert_eq!(Failure::ConfigurationCreate.exit_code(), 2);
    assert_eq!(Failure::ConfigurationRead.exit_code(), 3);
    assert_eq!(Failure::Playback.exit_code(), 4);
    assert_eq!(Failure::ScheduleBuild.exit_code(), 5);
}

#[test]
fn the_test_command_triggers_fajr_or_isha() {
    assert_eq!(AdhanCommands::test_event(true), EventKind::Prayer(Prayer::Fajr));
    assert_eq!(AdhanCommands::test_event(false), EventKind::Prayer(Prayer::Isha));
}

#[test]
fn commands_hold_their_arguments() {
    let run = AdhanCommands::Run { audio_device: String::from("default") };
    assert_eq!(run.clone(), run);
    assert_ne!(AdhanCommands::List(AdhanListSubcommand::Devices), AdhanCommands::List(AdhanListSubcommand::Hosts));
    assert_ne!(
        AdhanCommands::Generate { method: Method::Karachi },
        AdhanCommands::Generate { method: Method::Turkey }
    );
}
