//! The prober for web runtimes.
//!
//! Such a host resolves its own zone: the options that its
//! internationalization interface resolves for date and time formatting hold
//! the field `timeZone`, an IANA name. There is nothing to map and nothing to
//! filter.
use vstd::prelude::*;
use crate::text::{text_of, view_of};

verus! {

/// The name of the field that holds the zone in the resolved options.
pub fn zone_field() -> (r: &'static str)
    ensures
        r@ == "timeZone"@,
{
    "timeZone"
}

/// The zone of a web runtime: the value of the field `timeZone` as the host
/// gave it, `None` where the field is missing or is no string. The value is
/// handed on as it is: it passes no gate, and no predicate is asked.
pub fn get_local_zone(resolved: Option<&str>) -> (r: Option<String>)
    ensures
        text_of(r) == view_of(resolved),
{
    match resolved {
        Some(zone) => Some(zone.to_owned()),
        None => None,
    }
}

} // verus!
