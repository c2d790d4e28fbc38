//! The default test of a zone name: whether the IANA database knows it.
use vstd::prelude::*;
use crate::text::view_of;
use crate::unix::{advance, answers, follows, lemma_follows_weakens, Stage, Step, Verdicts};

verus! {

/// Whether `name` is the name of a zone in the IANA database that `chrono_tz`
/// was built from: whether the name parses as a `chrono_tz::Tz`.
pub uninterp spec fn known_zone(name: Seq<char>) -> bool;

/// Parses `name` as a `chrono_tz::Tz` and tells whether that succeeded. The
/// parse looks the name up in a table that is fixed when `chrono_tz` is
/// built, so the answer depends on the name alone; the contract gives that
/// answer a name and claims no more.
#[verifier::external_body]
pub(crate) fn is_known_zone(name: &str) -> (known: bool)
    ensures
        known == known_zone(name@),
{
    name.parse::<chrono_tz::Tz>().is_ok()
}

/// The answers of the default predicate: yes to the names that the IANA
/// database knows, no to all others.
pub open spec fn knows() -> Verdicts {
    |name: Seq<char>, verdict: bool| verdict == known_zone(name)
}

/// Takes one step of the probe of a POSIX host with the default predicate:
/// a candidate is the zone only if it looks like a zone name and the IANA
/// database knows it.
pub fn advance_default(stage: Stage, raw: Option<&str>) -> (step: Step)
    ensures
        follows(stage, view_of(raw), knows(), step),
{
    let mut is_valid = |name: &str| -> (known: bool)
        ensures
            known == known_zone(name@),
        { is_known_zone(name) };
    let ghost asked = is_valid;
    let step = advance(stage, raw, &mut is_valid);
    proof {
        lemma_follows_weakens(stage, view_of(raw), answers(asked), knows(), step);
    }
    step
}

} // verus!
