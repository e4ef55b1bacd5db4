//! The lines that the monitor reports.

use vstd::prelude::*;
use crate::kinds::{is_audible, label, EventKind, Weekday};
use crate::monitor::Status;

verus! {

/// The character of a decimal digit.
pub open spec fn digit(d: int) -> char {
    if d == 0 {
        '0'
    } else if d == 1 {
        '1'
    } else if d == 2 {
        '2'
    } else if d == 3 {
        '3'
    } else if d == 4 {
        '4'
    } else if d == 5 {
        '5'
    } else if d == 6 {
        '6'
    } else if d == 7 {
        '7'
    } else if d == 8 {
        '8'
    } else {
        '9'
    }
}

/// A number in decimal, without leading zeros.
pub open spec fn decimal(n: nat) -> Seq<char>
    decreases n,
{
    if n < 10 {
        seq![digit(n as int)]
    } else {
        decimal(n / 10).push(digit((n % 10) as int))
    }
}

/// A number in decimal, with a space before a single digit.
pub open spec fn padded(n: nat) -> Seq<char> {
    if n < 10 {
        seq![' '] + decimal(n)
    } else {
        decimal(n)
    }
}

/// The line for an event that is due.
pub open spec fn announcement_text(kind: EventKind, weekday: Weekday) -> Seq<char> {
    label(kind, weekday == Weekday::Fri) + " is now!"@
}

/// The line for an event that is awaited: a prayer is named, by the day of
/// the week; any other marker is not.
pub open spec fn status_text(status: Status) -> Seq<char> {
    let hours = padded(status.left.hours as nat);
    let minutes = padded(status.left.minutes as nat);
    if is_audible(status.next.kind) {
        label(status.next.kind, status.weekday == Weekday::Fri) + " prayer starts in:"@ + hours + "h "@
            + minutes + "m"@
    } else {
        "Waiting for:"@ + hours + "h "@ + minutes + "..."@
    }
}

fn digit_text(d: u64) -> (r: &'static str)
    requires
        d < 10,
    ensures
        r@ == seq![digit(d as int)],
{
    proof {
        reveal_strlit("0");
        reveal_strlit("1");
        reveal_strlit("2");
        reveal_strlit("3");
        reveal_strlit("4");
        reveal_strlit("5");
        reveal_strlit("6");
        reveal_strlit("7");
        reveal_strlit("8");
        reveal_strlit("9");
    }
    let r = if d == 0 {
        "0"
    } else if d == 1 {
        "1"
    } else if d == 2 {
        "2"
    } else if d == 3 {
        "3"
    } else if d == 4 {
        "4"
    } else if d == 5 {
        "5"
    } else if d == 6 {
        "6"
    } else if d == 7 {
        "7"
    } else if d == 8 {
        "8"
    } else {
        "9"
    };
    assert(r@ =~= seq![digit(d as int)]);
    r
}

/// Writes a number in decimal.
pub fn decimal_text(n: u64) -> (r: String)
    ensures
        r@ == decimal(n as nat),
    decreases n,
{
    if n < 10 {
        digit_text(n).to_owned()
    } else {
        let head = decimal_text(n / 10);
        let last = digit_text(n % 10);
        let r = head.concat(last);
        assert(r@ =~= decimal((n / 10) as nat).push(digit((n % 10) as int)));
        r
    }
}

/// Writes a number in decimal, at least two characters wide.
pub fn padded_text(n: u64) -> (r: String)
    ensures
        r@ == padded(n as nat),
{
    let digits = decimal_text(n);
    if n < 10 {
        proof {
            reveal_strlit(" ");
            assert(" "@ =~= seq![' ']);
        }
        " ".to_owned().concat(digits.as_str())
    } else {
        digits
    }
}

/// The line for an event that is due: its name on the given day of the
/// week, and " is now!".
pub fn announcement(kind: EventKind, weekday: Weekday) -> (r: String)
    ensures
        r@ == announcement_text(kind, weekday),
{
    kind.name_on(weekday).concat(" is now!")
}

/// The status line of a monitor that waits.
pub fn status_line(status: &Status) -> (r: String)
    ensures
        r@ == status_text(*status),
{
    let hours = padded_text(status.left.hours);
    let minutes = padded_text(status.left.minutes);
    if status.next.kind.is_prayer() {
        let name = status.next.kind.name_on(status.weekday);
        name.concat(" prayer starts in:").concat(hours.as_str()).concat("h ").concat(minutes.as_str()).concat(
            "m",
        )
    } else {
        "Waiting for:".to_owned().concat(hours.as_str()).concat("h ").concat(minutes.as_str()).concat("...")
    }
}

} // verus!
