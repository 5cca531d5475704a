//! The recognized worksheet time zones and the conversion of an instant,
//! read as local wall-clock time in such a zone, to a UTC calendar date.

use vstd::prelude::*;
use crate::fields::CalDate;
use crate::text::str_eq;

verus! {

/// The four recognized worksheet time zone names.
#[derive(Clone, Copy, Debug, PartialEq, Eq, Structural)]
pub enum Zone {
    Acre,
    DeNoronha,
    East,
    West,
}

/// The zone a configured name selects, if any. The match is exact and
/// case-sensitive; every other name is a configuration mistake.
pub open spec fn zone_of(name: Seq<char>) -> Option<Zone> {
    if name == "Acre"@ {
        Some(Zone::Acre)
    } else if name == "DeNoronha"@ {
        Some(Zone::DeNoronha)
    } else if name == "East"@ {
        Some(Zone::East)
    } else if name == "West"@ {
        Some(Zone::West)
    } else {
        None
    }
}

impl Zone {
    /// Parses a configured time zone name.
    pub fn from_name(name: &str) -> (r: Option<Zone>)
        ensures
            r == zone_of(name@),
    {
        if str_eq(name, "Acre") {
            Some(Zone::Acre)
        } else if str_eq(name, "DeNoronha") {
            Some(Zone::DeNoronha)
        } else if str_eq(name, "East") {
            Some(Zone::East)
        } else if str_eq(name, "West") {
            Some(Zone::West)
        } else {
            None
        }
    }
}

/// The UTC calendar date of the instant whose Unix-epoch second count,
/// read as a local wall-clock time in the given zone, is `secs` — or
/// `None` where that reading has no unique instant (an impossible count,
/// or a wall-clock time the zone skips or repeats). A pure function of
/// its arguments: the zone database is fixed.
pub uninterp spec fn zone_utc_date(secs: int, zone: Zone) -> Option<CalDate>;

/// Relies on chrono's `DateTime::from_timestamp`, `TimeZone::from_local_datetime`
/// and `date_naive`, with the zone constants of chrono-tz's `Brazil`
/// module: the composition reads `secs` as a naive local time in the
/// zone, maps it to UTC where that is unambiguous, and extracts the
/// calendar date. The result depends on the arguments alone.
#[verifier::external_body]
pub(crate) fn zone_utc_date_exec(secs: i64, zone: Zone) -> (r: Option<CalDate>)
    ensures
        r == zone_utc_date(secs as int, zone),
{
    let tz: chrono_tz::Tz = match zone {
        Zone::Acre => chrono_tz::Brazil::Acre,
        Zone::DeNoronha => chrono_tz::Brazil::DeNoronha,
        Zone::East => chrono_tz::Brazil::East,
        Zone::West => chrono_tz::Brazil::West,
    };
    let naive = chrono::DateTime::from_timestamp(secs, 0)?.naive_utc();
    let utc = chrono::TimeZone::from_local_datetime(&tz, &naive).single()?.with_timezone(&chrono::Utc);
    let date = utc.date_naive();
    Some(CalDate {
        year: chrono::Datelike::year(&date),
        month: chrono::Datelike::month(&date) as u8,
        day: chrono::Datelike::day(&date) as u8,
    })
}

} // verus!
