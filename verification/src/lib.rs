//! Finds the IANA (Olson) time zone of the machine a program runs on.
//!
//! Every platform names its zone in a different place. A POSIX host is probed
//! through an ordered list of sources, a web runtime reports the zone itself,
//! and a Windows host reports a display name that is mapped to an IANA name
//! through the CLDR table of Windows zones.
//!
//! The library decides; it performs no input or output of its own. A caller
//! reads what the host offers and hands it over as plain values. Where the
//! zone cannot be found the answer is `None`, and the caller shall assume
//! that the machine runs in UTC.
use vstd::prelude::*;

pub mod text;
pub mod unix;
pub mod validation;
pub mod wasm32;
pub mod windows;
pub mod windows_zones;

pub use crate::windows::{iana_to_win_zone, win_zone_to_iana, ZoneMapping};

use crate::text::text_of;
use crate::unix::{answers, asked_once, chosen, single_minded, Sources, Verdicts};
use crate::validation::{is_known_zone, known_zone, knows};
use crate::windows::reported_zone;

verus! {

/// What a host offers to find its zone by, one variant for each kind of host.
#[derive(Debug)]
pub enum Host {
    /// A POSIX host: what was read at its four places.
    Posix(Sources),
    /// A web runtime: the field `timeZone` of the options that the host
    /// resolved, `None` where it is missing or no string.
    Web(Option<String>),
    /// A Windows host: the status that the query for the time zone returned,
    /// and the buffer of UTF-16 code units that holds the standard name.
    Windows { status: u32, standard_name: Vec<u16> },
}

/// Whether `zone` is a right answer for `host`. On a POSIX host every
/// candidate must look like a zone name and be accepted by the predicate, and
/// the first stage with such a candidate decides. On a Windows host the
/// predicate is asked once, about the IANA zone that the table gives for the
/// reported name. On a web runtime the predicate is not asked at all.
pub open spec fn local_zone(host: Host, may: Verdicts, zone: Option<Seq<char>>) -> bool {
    match host {
        Host::Posix(sources) => chosen(sources, may, zone),
        Host::Web(resolved) => zone == text_of(resolved),
        Host::Windows { status, standard_name } => asked_once(
            reported_zone(status, standard_name@),
            may,
            zone,
        ),
    }
}

/// Returns the local zone of `host`, with `is_valid` as the test that a name
/// must pass to be the answer.
pub fn get_local_zone_with_validation<F: FnMut(&str) -> bool>(host: &Host, is_valid: F) -> (r: Option<
    String,
>)
    requires
        forall|s: &str| call_requires(is_valid, (s,)),
    ensures
        local_zone(*host, answers(is_valid), text_of(r)),
{
    match host {
        Host::Posix(sources) => unix::get_local_zone(sources, is_valid),
        Host::Web(resolved) => {
            let held = match resolved {
                Some(zone) => Some(zone.as_str()),
                None => None,
            };
            wasm32::get_local_zone(held)
        },
        Host::Windows { status, standard_name } => {
            let mut ask = is_valid;
            match windows::get_local_zone(*status, standard_name.as_slice()) {
                Some(zone) => {
                    if ask(zone.as_str()) {
                        Some(zone)
                    } else {
                        None
                    }
                },
                None => None,
            }
        },
    }
}

/// A right answer under one predicate is a right answer under every
/// predicate that can give at least the same verdicts.
pub proof fn lemma_local_zone_weakens(host: Host, may: Verdicts, wider: Verdicts, zone: Option<Seq<char>>)
    requires
        local_zone(host, may, zone),
        forall|name: Seq<char>, verdict: bool| #[trigger] may(name, verdict) ==> wider(name, verdict),
    ensures
        local_zone(host, wider, zone),
{
    if let Host::Posix(sources) = host {
        unix::lemma_chosen_weakens(sources, may, wider, zone);
    }
}

/// The lookup has one answer. For the same host and a single-minded
/// predicate, two lookups give the same zone: nothing is kept between calls
/// that could change the second.
pub proof fn lemma_local_zone_is_deterministic(
    host: Host,
    may: Verdicts,
    first: Option<Seq<char>>,
    second: Option<Seq<char>>,
)
    requires
        single_minded(may),
        local_zone(host, may, first),
        local_zone(host, may, second),
    ensures
        first == second,
{
    match host {
        Host::Posix(sources) => {
            unix::lemma_chosen_is_deterministic(sources, may, first, second);
        },
        Host::Web(resolved) => {},
        Host::Windows { status, standard_name } => {
            if let Some(name) = reported_zone(status, standard_name@) {
                assert(!(may(name, true) && may(name, false)));
            }
        },
    }
}

/// The default predicate is single-minded, so the lookup with it has one
/// answer.
pub proof fn lemma_default_lookup_is_deterministic(host: Host, first: Option<Seq<char>>, second: Option<Seq<char>>)
    requires
        local_zone(host, knows(), first),
        local_zone(host, knows(), second),
    ensures
        first == second,
{
    lemma_local_zone_is_deterministic(host, knows(), first, second);
}

/// Returns the local zone of `host`, if it can be found. The predicate is
/// whether the IANA database knows the name. On a POSIX host and on a
/// Windows host a name is the answer only if the database knows it; what a
/// web runtime reports is the answer as it is, known or not.
pub fn get_local_zone(host: &Host) -> (r: Option<String>)
    ensures
        local_zone(*host, knows(), text_of(r)),
{
    let is_valid = |name: &str| -> (known: bool)
        ensures
            known == known_zone(name@),
        { is_known_zone(name) };
    let zone = get_local_zone_with_validation(host, is_valid);
    proof {
        lemma_local_zone_weakens(*host, answers(is_valid), knows(), text_of(zone));
    }
    zone
}

} // verus!
