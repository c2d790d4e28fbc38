//! String helpers shared by the probing backends.
use vstd::prelude::*;
use vstd::string::*;

verus! {

/// The characters of an optional string.
pub open spec fn view_of(s: Option<&str>) -> Option<Seq<char>> {
    match s {
        Some(text) => Some(text@),
        None => None,
    }
}

/// The characters of an optional owned string.
pub open spec fn text_of(s: Option<String>) -> Option<Seq<char>> {
    match s {
        Some(text) => Some(text@),
        None => None,
    }
}

/// Whether `c` has the Unicode property `White_Space`.
pub open spec fn is_white_space(c: char) -> bool {
    let n = c as u32;
    ||| 0x09 <= n <= 0x0d
    ||| n == 0x20
    ||| n == 0x85
    ||| n == 0xa0
    ||| n == 0x1680
    ||| 0x2000 <= n <= 0x200a
    ||| n == 0x2028
    ||| n == 0x2029
    ||| n == 0x202f
    ||| n == 0x205f
    ||| n == 0x3000
}

/// `s` without its leading white space.
pub open spec fn trim_start(s: Seq<char>) -> Seq<char>
    decreases s.len(),
{
    if s.len() > 0 && is_white_space(s.first()) {
        trim_start(s.drop_first())
    } else {
        s
    }
}

/// `s` without its trailing white space.
pub open spec fn trim_end(s: Seq<char>) -> Seq<char>
    decreases s.len(),
{
    if s.len() > 0 && is_white_space(s.last()) {
        trim_end(s.drop_last())
    } else {
        s
    }
}

/// `s` without leading and trailing white space.
pub open spec fn trimmed(s: Seq<char>) -> Seq<char> {
    trim_end(trim_start(s))
}

/// Whether `pattern` stands in `s` at index `at`.
pub open spec fn occurs_at(s: Seq<char>, pattern: Seq<char>, at: int) -> bool {
    &&& 0 <= at
    &&& at + pattern.len() <= s.len()
    &&& s.subrange(at, at + pattern.len()) == pattern
}

/// Whether `at` is the first index of `s` at which `pattern` stands.
pub open spec fn first_occurrence(s: Seq<char>, pattern: Seq<char>, at: int) -> bool {
    &&& occurs_at(s, pattern, at)
    &&& forall|k: int| 0 <= k < at ==> !occurs_at(s, pattern, k)
}

/// What follows the first occurrence of `pattern` in `s`, if there is one.
pub open spec fn after_first(s: Seq<char>, pattern: Seq<char>) -> Option<Seq<char>> {
    if exists|at: int| first_occurrence(s, pattern, at) {
        let at = choose|at: int| first_occurrence(s, pattern, at);
        Some(s.subrange(at + pattern.len(), s.len() as int))
    } else {
        None
    }
}

/// Specifies `str::trim`: the result is the argument without the white space,
/// as Unicode's property `White_Space` defines it, at its two ends.
pub assume_specification[ str::trim ](s: &str) -> (r: &str)
    ensures
        r@ == trimmed(s@),
;

/// Calls `str::split_once` with a string as the delimiter. The contract claims
/// that the split is made at the first occurrence of the delimiter, that the
/// two parts are what stands before and after it, and that `None` comes back
/// exactly when the delimiter does not occur.
#[verifier::external_body]
pub(crate) fn split_once<'a>(s: &'a str, delimiter: &str) -> (r: Option<(&'a str, &'a str)>)
    ensures
        match r {
            Some((head, tail)) => exists|at: int|
                #![trigger first_occurrence(s@, delimiter@, at)]
                {
                    &&& first_occurrence(s@, delimiter@, at)
                    &&& head@ == s@.subrange(0, at)
                    &&& tail@ == s@.subrange(at + delimiter@.len(), s@.len() as int)
                },
            None => forall|at: int| !occurs_at(s@, delimiter@, at),
        },
{
    s.split_once(delimiter)
}

/// Two occurrences that are both the first are the same one.
pub proof fn lemma_first_occurrence_unique(s: Seq<char>, pattern: Seq<char>, a: int, b: int)
    requires
        first_occurrence(s, pattern, a),
        first_occurrence(s, pattern, b),
    ensures
        a == b,
{
}

/// The part of `s` behind the first occurrence of `delimiter`.
pub fn suffix_after<'a>(s: &'a str, delimiter: &str) -> (r: Option<&'a str>)
    ensures
        r.is_some() == after_first(s@, delimiter@).is_some(),
        r matches Some(tail) ==> Some(tail@) == after_first(s@, delimiter@),
{
    match split_once(s, delimiter) {
        Some((_, tail)) => {
            proof {
                let at = choose|at: int|
                    #![trigger first_occurrence(s@, delimiter@, at)]
                    {
                        &&& first_occurrence(s@, delimiter@, at)
                        &&& tail@ == s@.subrange(at + delimiter@.len(), s@.len() as int)
                    };
                let chosen = choose|at: int| first_occurrence(s@, delimiter@, at);
                lemma_first_occurrence_unique(s@, delimiter@, at, chosen);
            }
            Some(tail)
        },
        None => {
            None
        },
    }
}

/// Whether two strings hold the same characters.
pub fn str_eq(a: &str, b: &str) -> (r: bool)
    ensures
        r == (a@ == b@),
{
    let x = a.as_bytes();
    let y = b.as_bytes();
    if x.len() != y.len() {
        return false;
    }
    let mut i: usize = 0;
    while i < x.len()
        invariant
            x@ == a.spec_bytes(),
            y@ == b.spec_bytes(),
            x@.len() == y@.len(),
            i <= x@.len(),
            forall|j: int| 0 <= j < i ==> x@[j] == y@[j],
        decreases x@.len() - i,
    {
        if x[i] != y[i] {
            return false;
        }
        i += 1;
    }
    proof {
        assert(x@ =~= y@);
        vstd::utf8::encode_utf8_decode_utf8(a@);
        vstd::utf8::encode_utf8_decode_utf8(b@);
    }
    true
}

} // verus!
