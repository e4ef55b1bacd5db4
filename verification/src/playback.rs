//! The playback trigger: from an event kind, the host's output devices and
//! the cue files at hand to what is to be played, and where.

use vstd::prelude::*;
use crate::error::{AdhanAudioError, AdhanError};
use crate::kinds::{category_of, AdhanType, EventKind};
use crate::outside::{choose_cue, choose_cue_seeded, name_of, names_of, seeded_choice};

verus! {

/// The output device of a trigger.
#[derive(Clone, Copy, Debug, PartialEq, Eq, Structural)]
pub enum DeviceChoice {
    /// The device at this position of the host's enumeration.
    Named(usize),
    /// The system's default device.
    Default,
}

/// What a trigger plays: a cue of a category on a device.
#[derive(Clone, Debug, PartialEq, Eq)]
pub struct Playback {
    pub category: AdhanType,
    pub device: DeviceChoice,
    pub cue: String,
}

/// `i` is the first position of `devices` that holds the name `wanted`.
pub open spec fn first_match(devices: Seq<String>, wanted: Seq<char>, i: int) -> bool {
    &&& 0 <= i < devices.len()
    &&& devices[i]@ == wanted
    &&& forall|j: int| 0 <= j < i ==> (#[trigger] devices[j])@ != wanted
}

/// No device has the name `wanted`.
pub open spec fn no_match(devices: Seq<String>, wanted: Seq<char>) -> bool {
    forall|j: int| 0 <= j < devices.len() ==> (#[trigger] devices[j])@ != wanted
}

/// `r` is what the resolution of `wanted` among `devices` comes to: the first
/// device of that name; without one, the default device; without that, the
/// device error.
pub open spec fn resolved(
    devices: Seq<String>,
    wanted: Seq<char>,
    default_available: bool,
    r: Result<DeviceChoice, AdhanError>,
) -> bool {
    match r {
        Ok(DeviceChoice::Named(i)) => first_match(devices, wanted, i as int),
        Ok(DeviceChoice::Default) => no_match(devices, wanted) && default_available,
        Err(e) => e == AdhanError::Audio(AdhanAudioError::Device) && no_match(devices, wanted)
            && !default_available,
    }
}

/// `file` is one of `files`.
pub open spec fn is_one_of(files: Seq<String>, file: Seq<char>) -> bool {
    exists|i: int| 0 <= i < files.len() && (#[trigger] files[i])@ == file
}

/// The files of a listing; a missing directory has none.
pub open spec fn listed(listing: Option<Vec<String>>) -> Seq<String> {
    match listing {
        Some(files) => files@,
        None => Seq::empty(),
    }
}

/// Finds the output device: the first enumerated device whose name is
/// exactly `wanted`, else the default device, else nothing.
pub fn resolve_device(devices: &Vec<String>, wanted: &str, default_available: bool) -> (r: Result<
    DeviceChoice,
    AdhanError,
>)
    ensures
        resolved(devices@, wanted@, default_available, r),
        r is Err <==> no_match(devices@, wanted@) && !default_available,
{
    let name: String = wanted.to_owned();
    let mut i: usize = 0;
    while i < devices.len()
        invariant
            0 <= i <= devices@.len(),
            name@ == wanted@,
            forall|j: int| 0 <= j < i ==> (#[trigger] devices@[j])@ != wanted@,
        decreases devices@.len() - i,
    {
        if devices[i] == name {
            return Ok(DeviceChoice::Named(i));
        }
        i = i + 1;
    }
    if default_available {
        Ok(DeviceChoice::Default)
    } else {
        Err(AdhanError::Audio(AdhanAudioError::Device))
    }
}

/// Turns what the random choice gave into the cue: no choice means that
/// there was no file to choose from.
pub fn cue_from_choice(choice: Option<String>) -> (r: Result<String, AdhanError>)
    ensures
        choice matches Some(file) ==> r == Ok::<String, AdhanError>(file),
        choice is None ==> r == Err::<String, AdhanError>(AdhanError::NoCueAvailable),
{
    match choice {
        Some(file) => Ok(file),
        None => Err(AdhanError::NoCueAvailable),
    }
}

/// Picks one of `files` at random, each with the same chance and anew on
/// every call. Fails exactly when there is no file.
pub fn select_cue(files: &Vec<String>) -> (r: Result<String, AdhanError>)
    ensures
        r is Err <==> files@.len() == 0,
        r matches Err(e) ==> e == AdhanError::NoCueAvailable,
        r matches Ok(file) ==> is_one_of(files@, file@),
{
    cue_from_choice(choose_cue(files))
}

/// Picks one of `files` with a generator seeded by `seed`: the same files
/// and the same seed give the same cue. Fails exactly when there is no file.
pub fn select_cue_seeded(files: &Vec<String>, seed: u64) -> (r: Result<String, AdhanError>)
    ensures
        r is Err <==> files@.len() == 0,
        r matches Err(e) ==> e == AdhanError::NoCueAvailable,
        r matches Ok(file) ==> is_one_of(files@, file@) && Some(file@) == seeded_choice(
            names_of(files@),
            seed,
        ),
{
    let choice = choose_cue_seeded(files, seed);
    assert(name_of(choice) == seeded_choice(names_of(files@), seed));
    cue_from_choice(choice)
}

/// What a trigger comes to once the device is resolved and the random
/// choice is made: nothing for a kind that is not announced; else the device
/// error, if no device was found; else the lack of a cue, if none was chosen;
/// else the playback.
pub open spec fn trigger_outcome(
    kind: EventKind,
    device: Option<DeviceChoice>,
    choice: Option<String>,
    r: Result<Option<Playback>, AdhanError>,
) -> bool {
    match category_of(kind) {
        None => r == Ok::<Option<Playback>, AdhanError>(None),
        Some(category) => match device {
            None => r == Err::<Option<Playback>, AdhanError>(AdhanError::Audio(AdhanAudioError::Device)),
            Some(device) => match choice {
                None => r == Err::<Option<Playback>, AdhanError>(AdhanError::NoCueAvailable),
                Some(cue) => r == Ok::<Option<Playback>, AdhanError>(
                    Some(Playback { category, device, cue }),
                ),
            },
        },
    }
}

/// Puts a trigger together from its parts; see `trigger_outcome`.
pub fn assemble_playback(kind: EventKind, device: Option<DeviceChoice>, choice: Option<String>) -> (r:
    Result<Option<Playback>, AdhanError>)
    ensures
        trigger_outcome(kind, device, choice, r),
{
    let category = match kind.adhan_type() {
        Some(category) => category,
        None => {
            return Ok(None);
        },
    };
    let device = match device {
        Some(device) => device,
        None => {
            return Err(AdhanError::Audio(AdhanAudioError::Device));
        },
    };
    match choice {
        Some(cue) => Ok(Some(Playback { category, device, cue })),
        None => Err(AdhanError::NoCueAvailable),
    }
}

/// The trigger for an event of kind `prayer`. `device` is the name of the
/// wanted output device, `devices` the names that the host enumerates,
/// `default_available` whether it has a default device, and `listing` the
/// regular files in the cue directory of the kind's category (`None` when
/// the directory is missing).
///
/// A kind that is not announced gives `Ok(None)` whatever the rest holds.
/// Else the device is resolved first, then a cue is chosen at random.
pub fn play_adhan(
    prayer: EventKind,
    device: &str,
    devices: &Vec<String>,
    default_available: bool,
    listing: &Option<Vec<String>>,
) -> (r: Result<Option<Playback>, AdhanError>)
    ensures
        category_of(prayer) is None ==> r == Ok::<Option<Playback>, AdhanError>(None),
        r is Ok <==> category_of(prayer) is None || (!(no_match(devices@, device@)
            && !default_available) && listed(*listing).len() > 0),
        r matches Err(e) ==> e == (if no_match(devices@, device@) && !default_available {
            AdhanError::Audio(AdhanAudioError::Device)
        } else {
            AdhanError::NoCueAvailable
        }),
        r matches Ok(Some(p)) ==> {
            &&& Some(p.category) == category_of(prayer)
            &&& is_one_of(listed(*listing), p.cue@)
            &&& match p.device {
                DeviceChoice::Named(i) => first_match(devices@, device@, i as int),
                DeviceChoice::Default => no_match(devices@, device@) && default_available,
            }
        },
        r matches Ok(None) ==> category_of(prayer) is None,
{
    if prayer.adhan_type().is_none() {
        return Ok(None);
    }
    let found = match resolve_device(devices, device, default_available) {
        Ok(choice) => Some(choice),
        Err(_) => None,
    };
    let choice = match listing {
        Some(files) if found.is_some() => choose_cue(files),
        _ => None,
    };
    assemble_playback(prayer, found, choice)
}

/// The seeded choice is reproducible: lists with the same names, taken
/// with the same seed, give the same cue.
pub proof fn seeded_choice_is_reproducible(first: Seq<String>, second: Seq<String>, seed: u64)
    requires
        first.len() == second.len(),
        forall|i: int| 0 <= i < first.len() ==> first[i]@ == second[i]@,
    ensures
        seeded_choice(names_of(first), seed) == seeded_choice(names_of(second), seed),
{
    assert(names_of(first) =~= names_of(second));
}

/// A name that no device bears does not by itself make the resolution fail:
/// with a default device the default is taken, and only without one the
/// resolution ends in the device error.
pub proof fn unknown_name_falls_back(
    devices: Seq<String>,
    wanted: Seq<char>,
    default_available: bool,
    r: Result<DeviceChoice, AdhanError>,
)
    requires
        no_match(devices, wanted),
        resolved(devices, wanted, default_available, r),
    ensures
        default_available ==> r == Ok::<DeviceChoice, AdhanError>(DeviceChoice::Default),
        !default_available ==> r == Err::<DeviceChoice, AdhanError>(
            AdhanError::Audio(AdhanAudioError::Device),
        ),
{
    if let Ok(DeviceChoice::Named(i)) = r {
        assert(devices[i as int]@ == wanted);
    }
}

/// A name that some device bears resolves to the first device of that name,
/// and to no other.
pub proof fn first_match_is_unique(devices: Seq<String>, wanted: Seq<char>, i: int)
    requires
        first_match(devices, wanted, i),
    ensures
        !no_match(devices, wanted),
        forall|k: int| first_match(devices, wanted, k) ==> k == i,
{
    assert(devices[i]@ == wanted);
    assert forall|k: int| first_match(devices, wanted, k) implies k == i by {
        if k < i {
            assert(devices[k]@ != wanted);
        } else if i < k {
            assert(devices[i]@ != wanted);
        }
    }
}

} // verus!
