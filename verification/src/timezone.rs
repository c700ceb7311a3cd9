//! Time zones of zoned timestamps, looked up by name.
use chrono_tz::Tz;
use vstd::prelude::*;

verus! {

#[verifier::external_type_specification]
#[verifier::external_body]
pub struct ExTz(Tz);

/// The zone that `chrono_tz` reads from a name, if the name is one of its
/// zones.
pub uninterp spec fn zone_named(name: Seq<char>) -> Option<Tz>;

/// A zone by name. Trusted: calls `chrono_tz::Tz`'s `FromStr`, which finds
/// the zone with exactly this name.
#[verifier::external_body]
fn parse_zone(name: &str) -> (r: Option<Tz>)
    ensures
        r == zone_named(name@),
{
    name.parse::<Tz>().ok()
}

/// The UTC zone. Trusted: returns `chrono_tz::UTC`, the zone named `UTC`.
#[verifier::external_body]
fn utc_zone() -> (r: Tz)
    ensures
        zone_named("UTC"@) == Some(r),
{
    chrono_tz::UTC
}

/// The zone with the given name; UTC when no zone has that name (offsets
/// such as `+00:00` are not zone names).
pub fn get_timezone(tz: &str) -> (r: Tz)
    ensures
        zone_named(tz@) matches Some(z) ==> r == z,
        zone_named(tz@) is None ==> zone_named("UTC"@) == Some(r),
{
    match parse_zone(tz) {
        Some(z) => z,
        None => utc_zone(),
    }
}

} // verus!
