//! Event kinds, cue categories and the names shown to the user.

use vstd::prelude::*;
use crate::outside::prayer_name;

verus! {

/// The prayers that are announced by an audio cue.
#[derive(Clone, Copy, Debug, PartialEq, Eq, Structural)]
pub enum Prayer {
    Fajr,
    Dhuhr,
    Asr,
    Maghrib,
    Isha,
    /// The dawn prayer of the following day, which closes every schedule.
    FajrTomorrow,
}

/// What a scheduled event marks.
#[derive(Clone, Copy, Debug, PartialEq, Eq, Structural)]
pub enum EventKind {
    Prayer(Prayer),
    Sunrise,
    Qiyam,
    /// The start of a window in which prayer is restricted, by its number.
    Restricted(u8),
}

/// Day of the week of the local date.
#[derive(Clone, Copy, Debug, PartialEq, Eq, Structural)]
pub enum Weekday {
    Mon,
    Tue,
    Wed,
    Thu,
    Fri,
    Sat,
    Sun,
}

/// The two categories of audio cue.
#[derive(Clone, Copy, Debug, PartialEq, Eq, Structural)]
pub enum AdhanType {
    Normal,
    Fajr,
}

/// The cue category of an event kind: `Fajr` for the dawn prayer of the day,
/// `Normal` for every other prayer, none for the markers that are not
/// announced.
pub open spec fn category_of(kind: EventKind) -> Option<AdhanType> {
    match kind {
        EventKind::Prayer(Prayer::Fajr) => Some(AdhanType::Fajr),
        EventKind::Prayer(_) => Some(AdhanType::Normal),
        _ => None,
    }
}

/// Whether an event of this kind is announced by a cue.
pub open spec fn is_audible(kind: EventKind) -> bool {
    kind is Prayer
}

/// The name of a prayer on a day that is no Friday.
pub open spec fn prayer_label(prayer: Prayer) -> Seq<char> {
    match prayer {
        Prayer::Fajr => "Fajr"@,
        Prayer::Dhuhr => "Dhuhr"@,
        Prayer::Asr => "Asr"@,
        Prayer::Maghrib => "Maghrib"@,
        Prayer::Isha => "Isha"@,
        Prayer::FajrTomorrow => "Fajr"@,
    }
}

/// The name under which an event is shown: the midday prayer is called
/// "Jumua" on a Friday, every other name is the same on all days.
pub open spec fn label(kind: EventKind, friday: bool) -> Seq<char> {
    match kind {
        EventKind::Prayer(Prayer::Dhuhr) => if friday {
            "Jumua"@
        } else {
            "Dhuhr"@
        },
        EventKind::Prayer(prayer) => prayer_label(prayer),
        EventKind::Sunrise => "Sunrise"@,
        EventKind::Qiyam => "Qiyam"@,
        EventKind::Restricted(_) => "Restricted"@,
    }
}

impl Weekday {
    /// Whether the day is a Friday.
    pub fn is_friday(self) -> (r: bool)
        ensures
            r == (self == Weekday::Fri),
    {
        match self {
            Weekday::Fri => true,
            _ => false,
        }
    }
}

impl AdhanType {
    /// The category's name, which is also the name of its cue directory.
    pub open spec fn spec_name(self) -> Seq<char> {
        match self {
            AdhanType::Normal => "normal"@,
            AdhanType::Fajr => "fajr"@,
        }
    }

    /// Returns the category's name: "normal" or "fajr".
    pub fn name(self) -> (r: String)
        ensures
            r@ == self.spec_name(),
    {
        match self {
            AdhanType::Normal => "normal".to_owned(),
            AdhanType::Fajr => "fajr".to_owned(),
        }
    }
}

impl EventKind {
    /// Maps the kind to its cue category; `None` means that nothing is played.
    pub fn adhan_type(self) -> (r: Option<AdhanType>)
        ensures
            r == category_of(self),
            r is Some <==> is_audible(self),
    {
        match self {
            EventKind::Prayer(Prayer::Fajr) => Some(AdhanType::Fajr),
            EventKind::Prayer(_) => Some(AdhanType::Normal),
            _ => None,
        }
    }

    /// The name shown on a day that is no Friday.
    pub fn name(self) -> (r: String)
        ensures
            r@ == label(self, false),
    {
        self.name_for(false)
    }

    /// The name shown on a Friday.
    pub fn friday_name(self) -> (r: String)
        ensures
            r@ == label(self, true),
    {
        self.name_for(true)
    }

    /// The name shown on the given day of the week.
    pub fn name_on(self, weekday: Weekday) -> (r: String)
        ensures
            r@ == label(self, weekday == Weekday::Fri),
    {
        self.name_for(weekday.is_friday())
    }

    fn name_for(self, friday: bool) -> (r: String)
        ensures
            r@ == label(self, friday),
    {
        match self {
            EventKind::Prayer(Prayer::Dhuhr) => if friday {
                "Jumua".to_owned()
            } else {
                "Dhuhr".to_owned()
            },
            EventKind::Prayer(prayer) => prayer_name(prayer),
            EventKind::Sunrise => "Sunrise".to_owned(),
            EventKind::Qiyam => "Qiyam".to_owned(),
            EventKind::Restricted(_) => "Restricted".to_owned(),
        }
    }

    /// Whether the kind is one of the prayers.
    pub fn is_prayer(self) -> (r: bool)
        ensures
            r == is_audible(self),
    {
        match self {
            EventKind::Prayer(_) => true,
            _ => false,
        }
    }
}

/// The category mapping is a function of the kind alone: equal kinds have
/// equal categories, and a kind has a category exactly when it is a prayer.
pub proof fn category_is_stable(a: EventKind, b: EventKind)
    requires
        a == b,
    ensures
        category_of(a) == category_of(b),
        category_of(a) is Some <==> is_audible(a),
{
}

/// Only the midday prayer is named by the day of the week: its Friday name
/// differs from its name on other days, and every other kind has one name.
pub proof fn friday_renames_only_dhuhr(kind: EventKind)
    ensures
        kind == EventKind::Prayer(Prayer::Dhuhr) ==> label(kind, true) != label(kind, false),
        kind != EventKind::Prayer(Prayer::Dhuhr) ==> label(kind, true) == label(kind, false),
{
    reveal_strlit("Jumua");
    reveal_strlit("Dhuhr");
    if kind == EventKind::Prayer(Prayer::Dhuhr) {
        assert("Jumua"@[0] == 'J');
        assert("Dhuhr"@[0] == 'D');
    }
}

} // verus!
