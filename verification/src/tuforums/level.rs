use vstd::prelude::*;
use vstd::string::StringExecFns;

verus! {

/// The day of a timestamp as `chrono` reads and writes it: where `chrono`
/// takes the text for a date and time in the form of RFC 3339, the day on
/// which that moment falls by the timestamp's own offset from UTC, written
/// as short month name, day of the month, comma and year, as in
/// `Feb 18, 2015`; and none where `chrono` does not take the text.
pub uninterp spec fn rfc3339_day(timestamp: Seq<char>) -> Option<Seq<char>>;

/// Calls `chrono::DateTime::parse_from_rfc3339` and, where it accepts the
/// text, `chrono::DateTime::format` with the pattern `%b %d, %Y`. Both
/// depend on the text alone. The contract gives the outcome the name
/// `rfc3339_day` and claims no more of it.
#[verifier::external_body]
fn day_of_timestamp(timestamp: &str) -> (day: Option<String>)
    ensures
        match day {
            Some(text) => rfc3339_day(timestamp@) == Some(text@),
            None => rfc3339_day(timestamp@) is None,
        },
{
    match chrono::DateTime::parse_from_rfc3339(timestamp) {
        Ok(at) => Some(at.format("%b %d, %Y").to_string()),
        Err(_) => None,
    }
}

/// The line that names a level's first clear: the player, a bar, and the
/// day of the clear, with `unknown` in place of a day that is not known.
pub open spec fn first_clear_line(player: Seq<char>, day: Option<Seq<char>>) -> Seq<char> {
    player + " | "@ + match day {
        Some(text) => text,
        None => "unknown"@,
    }
}

/// The line that names a level's first clear.
pub fn write_first_clear(player: &str, day: Option<String>) -> (line: String)
    ensures
        line@ == first_clear_line(
            player@,
            match day {
                Some(text) => Some(text@),
                None => None,
            },
        ),
{
    let mut line = String::from_str(player);
    line.append(" | ");
    match day {
        Some(text) => {
            line.append(text.as_str());
        },
        None => {
            line.append("unknown");
        },
    }
    line
}

/// What a level shows as its first clear.
///
/// A level that nobody has cleared shows a dash. A cleared level shows the
/// player, with a dash for a missing name, and the day on which the video
/// of the clear went up; a missing or unreadable upload time shows as
/// `unknown`.
pub open spec fn first_clear_of(
    is_cleared: bool,
    player: Option<Seq<char>>,
    uploaded: Option<Seq<char>>,
) -> Seq<char> {
    if is_cleared {
        first_clear_line(
            match player {
                Some(name) => name,
                None => "-"@,
            },
            match uploaded {
                Some(timestamp) => rfc3339_day(timestamp),
                None => rfc3339_day("unknown"@),
            },
        )
    } else {
        "-"@
    }
}

/// What a level shows as its first clear.
pub fn first_clear_label(is_cleared: bool, player: Option<&str>, uploaded: Option<&str>) -> (label:
    String)
    ensures
        label@ == first_clear_of(
            is_cleared,
            match player {
                Some(name) => Some(name@),
                None => None,
            },
            match uploaded {
                Some(timestamp) => Some(timestamp@),
                None => None,
            },
        ),
{
    if !is_cleared {
        return String::from_str("-");
    }
    let name: &str = match player {
        Some(name) => name,
        None => "-",
    };
    let timestamp: &str = match uploaded {
        Some(timestamp) => timestamp,
        None => "unknown",
    };
    write_first_clear(name, day_of_timestamp(timestamp))
}

} // verus!
