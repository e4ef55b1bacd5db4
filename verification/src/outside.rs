//! The calls into other crates. Verus takes the contracts in this file on
//! trust; each says what it claims of the function it calls.

use vstd::prelude::*;
use rand::seq::SliceRandom;
use rand::SeedableRng;
use crate::kinds::{Prayer, prayer_label};

verus! {

/// The names of a list of files, as plain sequences of characters.
pub open spec fn names_of(files: Seq<String>) -> Seq<Seq<char>> {
    Seq::new(files.len(), |i: int| files[i]@)
}

/// The name inside an optional string.
pub open spec fn name_of(choice: Option<String>) -> Option<Seq<char>> {
    match choice {
        Some(s) => Some(s@),
        None => None,
    }
}

/// What `rand`'s `SliceRandom::choose` returns for a list of names when the
/// generator is a `StdRng` made by `seed_from_u64` from `seed`.
pub uninterp spec fn seeded_choice(names: Seq<Seq<char>>, seed: u64) -> Option<Seq<char>>;

/// What `Path::join` makes of a base path and a part, both as text.
pub uninterp spec fn joined_path(base: Seq<char>, part: Seq<char>) -> Seq<char>;

/// Calls `salah::Prayer::name`. For every prayer but the midday one the
/// function returns a fixed name, which the contract states; for the midday
/// prayer it consults the clock, so that prayer is left out.
#[verifier::external_body]
pub(crate) fn prayer_name(prayer: Prayer) -> (r: String)
    requires
        prayer != Prayer::Dhuhr,
    ensures
        r@ == prayer_label(prayer),
{
    let outside = match prayer {
        Prayer::Fajr => salah::Prayer::Fajr,
        Prayer::Dhuhr => salah::Prayer::Dhuhr,
        Prayer::Asr => salah::Prayer::Asr,
        Prayer::Maghrib => salah::Prayer::Maghrib,
        Prayer::Isha => salah::Prayer::Isha,
        Prayer::FajrTomorrow => salah::Prayer::FajrTomorrow,
    };
    outside.name()
}

/// Calls `rand`'s `SliceRandom::choose` with the thread's generator. The
/// function returns nothing for an empty list and else one of the list's
/// items; which one is left open.
#[verifier::external_body]
pub(crate) fn choose_cue(files: &Vec<String>) -> (r: Option<String>)
    ensures
        r is None <==> files@.len() == 0,
        r matches Some(s) ==> exists|i: int| 0 <= i < files@.len() && (#[trigger] files@[i])@ == s@,
{
    files.choose(&mut rand::thread_rng()).cloned()
}

/// Calls `rand`'s `SliceRandom::choose` with a `StdRng` seeded by
/// `seed_from_u64`. The function returns nothing for an empty list and else
/// one of the list's items; which one depends on the list and the seed alone.
#[verifier::external_body]
pub(crate) fn choose_cue_seeded(files: &Vec<String>, seed: u64) -> (r: Option<String>)
    ensures
        name_of(r) == seeded_choice(names_of(files@), seed),
        r is None <==> files@.len() == 0,
        r matches Some(s) ==> exists|i: int| 0 <= i < files@.len() && (#[trigger] files@[i])@ == s@,
{
    files.choose(&mut rand::rngs::StdRng::seed_from_u64(seed)).cloned()
}

/// Calls `directories_next::ProjectDirs::from` with the three names of a
/// project and takes the configuration directory as text. Whether there is
/// one, and where, depends on the user's environment: nothing is claimed of
/// it.
#[verifier::external_body]
pub(crate) fn project_config_dir(qualifier: &str, organization: &str, application: &str) -> (r: Option<
    String,
>)
{
    directories_next::ProjectDirs::from(qualifier, organization, application)
        .map(|dirs| dirs.config_dir().to_string_lossy().into_owned())
}

/// Calls `std::path::Path::join` on text. The result is named, not spelled
/// out: the separator it puts in is the platform's.
#[verifier::external_body]
pub(crate) fn join_path(base: &str, part: &str) -> (r: String)
    ensures
        r@ == joined_path(base@, part@),
{
    std::path::Path::new(base).join(part).to_string_lossy().into_owned()
}

} // verus!
