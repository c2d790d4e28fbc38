//! The prober for POSIX hosts.
//!
//! Such a host names its zone in up to four places, tried in a fixed order:
//! the variable `TZ`, the two files `/etc/timezone` and `/var/db/zoneinfo`,
//! and the target of the link `/etc/localtime`. The first place whose
//! candidate looks like a zone name and is accepted by the caller's predicate
//! decides; the places behind it are not looked at.
use vstd::prelude::*;
use vstd::string::*;
use crate::text::{after_first, suffix_after, text_of, trimmed, view_of};

verus! {

/// Whether `c` may stand in a zone name: an ASCII letter or digit, or one of
/// `-`, `+`, `/` and `_`.
pub open spec fn zone_name_char(c: char) -> bool {
    ||| 'a' <= c <= 'z'
    ||| 'A' <= c <= 'Z'
    ||| '0' <= c <= '9'
    ||| c == '-'
    ||| c == '+'
    ||| c == '/'
    ||| c == '_'
}

/// Whether `name` looks like a zone name: it is not empty and every character
/// of it may stand in one.
pub open spec fn plausible(name: Seq<char>) -> bool {
    &&& name.len() > 0
    &&& forall|i: int| 0 <= i < name.len() ==> zone_name_char(#[trigger] name[i])
}

fn zone_name_byte(b: u8) -> (r: bool)
    ensures
        r == zone_name_char(b as char),
{
    (b >= 97 && b <= 122) || (b >= 65 && b <= 90) || (b >= 48 && b <= 57) || b == 45 || b == 43
        || b == 47 || b == 95
}

/// Tells whether `name` looks like a zone name. This is a test of its
/// characters only: no zone database is consulted.
pub fn might_be_unix_tz(name: &str) -> (r: bool)
    ensures
        r == plausible(name@),
{
    if name.is_empty() {
        return false;
    }
    if !name.is_ascii() {
        proof {
            let i = choose|i: int| 0 <= i < name@.len() && !('\0' <= #[trigger] name@[i] <= '\u{7f}');
            assert(!zone_name_char(name@[i]));
        }
        return false;
    }
    let bytes = name.as_bytes();
    proof {
        vstd::utf8::is_ascii_chars_encode_utf8(name@);
    }
    let mut i: usize = 0;
    while i < bytes.len()
        invariant
            bytes@ == name.spec_bytes(),
            bytes@.len() == name@.len(),
            is_ascii(name),
            forall|k: int| 0 <= k < name@.len() ==> name@[k] as u8 == #[trigger] bytes@[k],
            i <= bytes@.len(),
            forall|k: int| 0 <= k < i ==> zone_name_char(#[trigger] name@[k]),
        decreases bytes@.len() - i,
    {
        let b = bytes[i];
        proof {
            let c = name@[i as int];
            assert('\0' <= c <= '\u{7f}');
            assert(c as u8 == b);
            assert(b as char == c);
        }
        if !zone_name_byte(b) {
            return false;
        }
        i += 1;
    }
    true
}

/// The places a POSIX host may name its zone in, in the order they are tried.
#[derive(Clone, Copy, Debug, PartialEq, Eq, Structural)]
pub enum Stage {
    /// The process's environment variable `TZ`.
    Environment,
    /// The file `/etc/timezone`, which holds a zone name and nothing else.
    TimezoneFile,
    /// The file `/var/db/zoneinfo`, of the same form.
    ZoneinfoFile,
    /// The symbolic link `/etc/localtime`, resolved to a real path.
    LocaltimeLink,
}

/// The segment of a resolved path behind which the zone's name stands.
pub open spec fn zoneinfo_marker() -> Seq<char> {
    "/zoneinfo/"@
}

impl Stage {
    /// The position of this stage in the order of trial.
    pub open spec fn rank(self) -> int {
        match self {
            Stage::Environment => 0,
            Stage::TimezoneFile => 1,
            Stage::ZoneinfoFile => 2,
            Stage::LocaltimeLink => 3,
        }
    }

    /// The stage tried after this one, if any.
    pub open spec fn following(self) -> Option<Stage> {
        match self {
            Stage::Environment => Some(Stage::TimezoneFile),
            Stage::TimezoneFile => Some(Stage::ZoneinfoFile),
            Stage::ZoneinfoFile => Some(Stage::LocaltimeLink),
            Stage::LocaltimeLink => None,
        }
    }

    /// The name of the variable, or the path of the file or link, that this
    /// stage reads.
    pub open spec fn place(self) -> Seq<char> {
        match self {
            Stage::Environment => "TZ"@,
            Stage::TimezoneFile => "/etc/timezone"@,
            Stage::ZoneinfoFile => "/var/db/zoneinfo"@,
            Stage::LocaltimeLink => "/etc/localtime"@,
        }
    }

    /// The candidate that this stage draws from what was read at its place:
    /// the variable's value as it is, a file's contents without the white
    /// space round them, the part of the link's resolved path behind
    /// `/zoneinfo/`. A place that could not be read gives none.
    pub open spec fn candidate_of(self, raw: Option<Seq<char>>) -> Option<Seq<char>> {
        match raw {
            None => None,
            Some(text) => match self {
                Stage::Environment => Some(text),
                Stage::TimezoneFile | Stage::ZoneinfoFile => Some(trimmed(text)),
                Stage::LocaltimeLink => after_first(text, zoneinfo_marker()),
            },
        }
    }

    /// The stage that is tried first.
    pub fn first() -> (stage: Stage)
        ensures
            stage == Stage::Environment,
    {
        Stage::Environment
    }

    /// The stage that is tried after this one.
    pub fn next(self) -> (r: Option<Stage>)
        ensures
            r == self.following(),
            r matches Some(stage) ==> stage.rank() == self.rank() + 1,
            r is None <==> self.rank() == 3,
    {
        match self {
            Stage::Environment => Some(Stage::TimezoneFile),
            Stage::TimezoneFile => Some(Stage::ZoneinfoFile),
            Stage::ZoneinfoFile => Some(Stage::LocaltimeLink),
            Stage::LocaltimeLink => None,
        }
    }

    /// The name of the variable, or the path of the file or link, that a
    /// caller reads for this stage.
    pub fn location(self) -> (r: &'static str)
        ensures
            r@ == self.place(),
    {
        match self {
            Stage::Environment => "TZ",
            Stage::TimezoneFile => "/etc/timezone",
            Stage::ZoneinfoFile => "/var/db/zoneinfo",
            Stage::LocaltimeLink => "/etc/localtime",
        }
    }

    /// Draws this stage's candidate from what was read at its place.
    pub fn candidate<'a>(self, raw: Option<&'a str>) -> (r: Option<&'a str>)
        ensures
            view_of(r) == self.candidate_of(view_of(raw)),
    {
        match raw {
            None => None,
            Some(text) => match self {
                Stage::Environment => Some(text),
                Stage::TimezoneFile | Stage::ZoneinfoFile => Some(text.trim()),
                Stage::LocaltimeLink => suffix_after(text, "/zoneinfo/"),
            },
        }
    }
}

/// What is known of a predicate: `(name, verdict)` is in the relation when
/// the predicate can answer `verdict` on being asked about `name`.
pub type Verdicts = spec_fn(Seq<char>, bool) -> bool;

/// Whether the predicate `is_valid` can answer `verdict` when it is asked
/// about the name `name`.
pub open spec fn may_answer<F: FnMut(&str) -> bool>(is_valid: F, name: Seq<char>, verdict: bool) -> bool {
    exists|s: &str| s@ == name && #[trigger] call_ensures(is_valid, (s,), verdict)
}

/// The answers that the predicate `is_valid` can give.
pub open spec fn answers<F: FnMut(&str) -> bool>(is_valid: F) -> Verdicts {
    |name: Seq<char>, verdict: bool| may_answer(is_valid, name, verdict)
}

/// Whether a stage's candidate did not pass the two gates: there is none, it
/// does not look like a zone name, or the predicate said no to it.
pub open spec fn turned_down(candidate: Option<Seq<char>>, may: Verdicts) -> bool {
    candidate matches Some(name) ==> !plausible(name) || may(name, false)
}

/// Whether a candidate passed the two gates and became `zone`.
pub open spec fn let_through(candidate: Option<Seq<char>>, may: Verdicts, zone: Seq<char>) -> bool {
    &&& candidate == Some(zone)
    &&& plausible(zone)
    &&& may(zone, true)
}

/// Whether `r` is a right outcome of putting `candidate` through the two
/// gates.
pub open spec fn gated(candidate: Option<Seq<char>>, may: Verdicts, r: Option<Seq<char>>) -> bool {
    match r {
        Some(zone) => let_through(candidate, may, zone),
        None => turned_down(candidate, may),
    }
}

/// Puts one candidate through the two gates: it must look like a zone name,
/// and then the predicate must accept it. The predicate is asked only about
/// names that look like zone names.
pub fn validate<F: FnMut(&str) -> bool>(candidate: Option<&str>, is_valid: &mut F) -> (r: Option<String>)
    requires
        forall|s: &str| plausible(s@) ==> call_requires(*old(is_valid), (s,)),
    ensures
        *final(is_valid) == *old(is_valid),
        gated(view_of(candidate), answers(*old(is_valid)), text_of(r)),
{
    match candidate {
        None => None,
        Some(name) => {
            if might_be_unix_tz(name) && is_valid(name) {
                Some(name.to_owned())
            } else {
                None
            }
        },
    }
}

/// What the prober asks for, or has found, after a stage.
#[derive(Debug)]
pub enum Step {
    /// Nothing was accepted so far: read the place of this stage next.
    Probe(Stage),
    /// A candidate passed both gates: this is the zone, and no place is read
    /// any more.
    Found(String),
    /// Every stage was tried and none gave a zone.
    Unknown,
}

/// Whether `step` is what follows `stage` when `raw` was read at its place.
pub open spec fn follows(stage: Stage, raw: Option<Seq<char>>, may: Verdicts, step: Step) -> bool {
    match step {
        Step::Found(zone) => let_through(stage.candidate_of(raw), may, zone@),
        Step::Probe(next) => {
            &&& stage.following() == Some(next)
            &&& turned_down(stage.candidate_of(raw), may)
        },
        Step::Unknown => {
            &&& stage.following() is None
            &&& turned_down(stage.candidate_of(raw), may)
        },
    }
}

/// Takes one step of the probe. The caller has read the place of `stage` and
/// hands over what it found there, `None` where the place is missing or
/// cannot be read. The answer is the zone, if the stage's candidate passed
/// both gates; else the stage whose place is to be read next; else, after the
/// last stage, that the zone is unknown.
pub fn advance<F: FnMut(&str) -> bool>(stage: Stage, raw: Option<&str>, is_valid: &mut F) -> (step: Step)
    requires
        forall|s: &str| plausible(s@) ==> call_requires(*old(is_valid), (s,)),
    ensures
        *final(is_valid) == *old(is_valid),
        follows(stage, view_of(raw), answers(*old(is_valid)), step),
{
    match validate(stage.candidate(raw), is_valid) {
        Some(zone) => Step::Found(zone),
        None => match stage.next() {
            Some(next) => Step::Probe(next),
            None => Step::Unknown,
        },
    }
}

/// Whether `zone` is a right outcome of asking the predicate once about
/// `candidate`: the candidate itself where the predicate accepts it, and
/// none where there is no candidate or the predicate says no.
pub open spec fn asked_once(candidate: Option<Seq<char>>, may: Verdicts, zone: Option<Seq<char>>) -> bool {
    match zone {
        Some(name) => candidate == Some(name) && may(name, true),
        None => candidate matches Some(name) ==> may(name, false),
    }
}

/// The value of the variable `TZ`, if it is set and the predicate accepts
/// it. The value is handed on as it is, and the predicate alone decides:
/// whether the value looks like a zone name is not asked here. A caller that
/// wants that gate too puts it into the predicate, or uses [`validate`].
pub fn zone_from_env<F: FnMut(&str) -> bool>(value: Option<&str>, is_valid: &mut F) -> (r: Option<String>)
    requires
        forall|s: &str| call_requires(*old(is_valid), (s,)),
    ensures
        *final(is_valid) == *old(is_valid),
        asked_once(view_of(value), answers(*old(is_valid)), text_of(r)),
{
    match value {
        None => None,
        Some(name) => {
            if is_valid(name) {
                Some(name.to_owned())
            } else {
                None
            }
        },
    }
}

/// A step that is right under one predicate is right under every predicate
/// that can give at least the same verdicts.
pub proof fn lemma_follows_weakens(stage: Stage, raw: Option<Seq<char>>, may: Verdicts, wider: Verdicts, step: Step)
    requires
        follows(stage, raw, may, step),
        forall|name: Seq<char>, verdict: bool| #[trigger] may(name, verdict) ==> wider(name, verdict),
    ensures
        follows(stage, raw, wider, step),
{
}

/// What was read at the four places of a POSIX host, each `None` where the
/// place is missing or could not be read.
#[derive(Debug)]
pub struct Sources {
    /// The value of the variable `TZ`.
    pub environment: Option<String>,
    /// The contents of `/etc/timezone`.
    pub timezone_file: Option<String>,
    /// The contents of `/var/db/zoneinfo`.
    pub zoneinfo_file: Option<String>,
    /// The real path that `/etc/localtime` resolves to.
    pub localtime_link: Option<String>,
}

impl Sources {
    /// What was read at the place of `stage`.
    pub open spec fn raw(self, stage: Stage) -> Option<Seq<char>> {
        match stage {
            Stage::Environment => text_of(self.environment),
            Stage::TimezoneFile => text_of(self.timezone_file),
            Stage::ZoneinfoFile => text_of(self.zoneinfo_file),
            Stage::LocaltimeLink => text_of(self.localtime_link),
        }
    }

    /// The candidate of `stage`.
    pub open spec fn candidate(self, stage: Stage) -> Option<Seq<char>> {
        stage.candidate_of(self.raw(stage))
    }

    /// What was read at the place of `stage`.
    pub fn read(&self, stage: Stage) -> (r: Option<&str>)
        ensures
            view_of(r) == self.raw(stage),
    {
        let held = match stage {
            Stage::Environment => &self.environment,
            Stage::TimezoneFile => &self.timezone_file,
            Stage::ZoneinfoFile => &self.zoneinfo_file,
            Stage::LocaltimeLink => &self.localtime_link,
        };
        match held {
            Some(text) => Some(text.as_str()),
            None => None,
        }
    }
}

/// Whether the probe over `sources` is decided at `stage` with the zone
/// `name`: the stage's candidate passed both gates, and the candidate of
/// every stage before it did not.
pub open spec fn decided_at(sources: Sources, may: Verdicts, stage: Stage, name: Seq<char>) -> bool {
    &&& let_through(sources.candidate(stage), may, name)
    &&& forall|earlier: Stage|
        earlier.rank() < stage.rank() ==> #[trigger] turned_down(sources.candidate(earlier), may)
}

/// Whether `zone` is a right answer of the probe over `sources`: the zone is
/// the candidate of the first stage whose candidate passed both gates, and
/// the zone is unknown when no stage has such a candidate.
pub open spec fn chosen(sources: Sources, may: Verdicts, zone: Option<Seq<char>>) -> bool {
    match zone {
        Some(name) => exists|stage: Stage| #[trigger] decided_at(sources, may, stage, name),
        None => forall|stage: Stage| #[trigger] turned_down(sources.candidate(stage), may),
    }
}

/// A probe that is decided at some stage has that stage's zone as a right
/// answer.
pub proof fn lemma_decided_is_chosen(sources: Sources, may: Verdicts, stage: Stage, name: Seq<char>)
    requires
        decided_at(sources, may, stage, name),
    ensures
        chosen(sources, may, Some(name)),
{
    let zone = Some(name);
    assert(zone->0 == name);
}

/// A right answer under one predicate is a right answer under every
/// predicate that can give at least the same verdicts.
pub proof fn lemma_chosen_weakens(sources: Sources, may: Verdicts, wider: Verdicts, zone: Option<Seq<char>>)
    requires
        chosen(sources, may, zone),
        forall|name: Seq<char>, verdict: bool| #[trigger] may(name, verdict) ==> wider(name, verdict),
    ensures
        chosen(sources, wider, zone),
{
    match zone {
        Some(name) => {
            let stage = choose|stage: Stage| #[trigger] decided_at(sources, may, stage, name);
            assert forall|earlier: Stage| earlier.rank() < stage.rank() implies #[trigger] turned_down(
                sources.candidate(earlier),
                wider,
            ) by {
                assert(turned_down(sources.candidate(earlier), may));
            }
            lemma_decided_is_chosen(sources, wider, stage, name);
        },
        None => {
            assert forall|stage: Stage| #[trigger] turned_down(sources.candidate(stage), wider) by {
                assert(turned_down(sources.candidate(stage), may));
            }
        },
    }
}

/// Whether a predicate is single-minded: it cannot answer both yes and no
/// about one name.
pub open spec fn single_minded(may: Verdicts) -> bool {
    forall|name: Seq<char>| !(#[trigger] may(name, true) && may(name, false))
}

/// Whether a candidate can pass the two gates: it looks like a zone name and
/// the predicate can accept it.
pub open spec fn can_pass(candidate: Option<Seq<char>>, may: Verdicts) -> bool {
    candidate matches Some(name) && plausible(name) && may(name, true)
}

/// The plausibility gate cannot be argued with. Whatever the predicate
/// answers, the zone that a probe gives is not empty and holds no character
/// but ASCII letters, digits, `-`, `+`, `/` and `_`; so a candidate with
/// another character in it, a space or a zero among them, is never the
/// answer.
pub proof fn lemma_answer_is_plausible(sources: Sources, may: Verdicts, name: Seq<char>)
    requires
        chosen(sources, may, Some(name)),
    ensures
        plausible(name),
        name.len() > 0,
        forall|i: int| 0 <= i < name.len() ==> zone_name_char(#[trigger] name[i]),
{
    let zone = Some(name);
    assert(zone->0 == name);
    let stage = choose|stage: Stage| #[trigger] decided_at(sources, may, stage, name);
    assert(let_through(sources.candidate(stage), may, name));
}

/// The first stage that can decide does. Where the candidate of `stage`
/// looks like a zone name and the predicate can only say yes to it, and no
/// candidate of an earlier stage can pass the gates, that candidate is the
/// answer, whatever the later stages hold.
pub proof fn lemma_first_valid_stage_wins(
    sources: Sources,
    may: Verdicts,
    stage: Stage,
    name: Seq<char>,
    zone: Option<Seq<char>>,
)
    requires
        chosen(sources, may, zone),
        sources.candidate(stage) == Some(name),
        plausible(name),
        !may(name, false),
        forall|earlier: Stage|
            earlier.rank() < stage.rank() ==> !#[trigger] can_pass(sources.candidate(earlier), may),
    ensures
        zone == Some(name),
{
    match zone {
        Some(other) => {
            let at = choose|at: Stage| #[trigger] decided_at(sources, may, at, other);
            assert(let_through(sources.candidate(at), may, other));
            if at.rank() < stage.rank() {
                assert(can_pass(sources.candidate(at), may));
            } else if stage.rank() < at.rank() {
                assert(turned_down(sources.candidate(stage), may));
            } else {
                assert(at == stage);
            }
        },
        None => {
            assert(turned_down(sources.candidate(stage), may));
        },
    }
}

/// The environment wins. Where the value of `TZ` looks like a zone name and
/// the predicate can only say yes to it, it is the answer, whatever the
/// files and the link hold.
pub proof fn lemma_environment_wins(sources: Sources, may: Verdicts, name: Seq<char>, zone: Option<Seq<char>>)
    requires
        chosen(sources, may, zone),
        text_of(sources.environment) == Some(name),
        plausible(name),
        !may(name, false),
    ensures
        zone == Some(name),
{
    lemma_first_valid_stage_wins(sources, may, Stage::Environment, name, zone);
}

/// The predicate's gate is honoured. Where the predicate never says yes, the
/// probe finds no zone, whatever the four places hold.
pub proof fn lemma_rejecting_predicate_finds_nothing(sources: Sources, may: Verdicts, zone: Option<Seq<char>>)
    requires
        chosen(sources, may, zone),
        forall|name: Seq<char>| !#[trigger] may(name, true),
    ensures
        zone is None,
{
    if let Some(name) = zone {
        let stage = choose|stage: Stage| #[trigger] decided_at(sources, may, stage, name);
        assert(let_through(sources.candidate(stage), may, name));
    }
}

/// The probe has one answer. With the same four places and a single-minded
/// predicate, two probes give the same zone.
pub proof fn lemma_chosen_is_deterministic(
    sources: Sources,
    may: Verdicts,
    first: Option<Seq<char>>,
    second: Option<Seq<char>>,
)
    requires
        single_minded(may),
        chosen(sources, may, first),
        chosen(sources, may, second),
    ensures
        first == second,
{
    match (first, second) {
        (Some(a), Some(b)) => {
            let at_a = choose|stage: Stage| #[trigger] decided_at(sources, may, stage, a);
            let at_b = choose|stage: Stage| #[trigger] decided_at(sources, may, stage, b);
            assert(let_through(sources.candidate(at_a), may, a));
            assert(let_through(sources.candidate(at_b), may, b));
            if at_a.rank() < at_b.rank() {
                assert(turned_down(sources.candidate(at_a), may));
            } else if at_b.rank() < at_a.rank() {
                assert(turned_down(sources.candidate(at_b), may));
            } else {
                assert(at_a == at_b);
            }
        },
        (Some(a), None) => {
            let at_a = choose|stage: Stage| #[trigger] decided_at(sources, may, stage, a);
            assert(let_through(sources.candidate(at_a), may, a));
            assert(turned_down(sources.candidate(at_a), may));
        },
        (None, Some(b)) => {
            let at_b = choose|stage: Stage| #[trigger] decided_at(sources, may, stage, b);
            assert(let_through(sources.candidate(at_b), may, b));
            assert(turned_down(sources.candidate(at_b), may));
        },
        (None, None) => {},
    }
}

/// Probes a POSIX host of which `sources` holds what its four places gave.
/// The stages are tried in order, and the first candidate that looks like a
/// zone name and that `is_valid` accepts is the answer.
pub fn get_local_zone<F: FnMut(&str) -> bool>(sources: &Sources, is_valid: F) -> (r: Option<String>)
    requires
        forall|s: &str| plausible(s@) ==> call_requires(is_valid, (s,)),
    ensures
        chosen(*sources, answers(is_valid), text_of(r)),
{
    let mut ask = is_valid;
    let mut stage = Stage::first();
    loop
        invariant
            ask == is_valid,
            forall|s: &str| plausible(s@) ==> call_requires(is_valid, (s,)),
            forall|earlier: Stage|
                earlier.rank() < stage.rank() ==> #[trigger] turned_down(
                    sources.candidate(earlier),
                    answers(is_valid),
                ),
        decreases 3 - stage.rank(),
    {
        match advance(stage, sources.read(stage), &mut ask) {
            Step::Found(zone) => {
                proof {
                    lemma_decided_is_chosen(*sources, answers(is_valid), stage, zone@);
                }
                return Some(zone);
            },
            Step::Probe(next) => {
                assert forall|earlier: Stage| earlier.rank() < next.rank() implies #[trigger] turned_down(
                    sources.candidate(earlier),
                    answers(is_valid),
                ) by {
                    if earlier.rank() == stage.rank() {
                        assert(earlier == stage);
                    }
                }
                stage = next;
            },
            Step::Unknown => {
                assert forall|any: Stage| #[trigger] turned_down(
                    sources.candidate(any),
                    answers(is_valid),
                ) by {
                    if any.rank() == stage.rank() {
                        assert(any == stage);
                    }
                }
                return None;
            },
        }
    }
}

} // verus!
