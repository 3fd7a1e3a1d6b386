use vstd::prelude::*;

verus! {

/// The lower-case form of a string, as Unicode defines it.
pub uninterp spec fn spec_lowercase(s: Seq<char>) -> Seq<char>;

/// Whether the regular expression `pattern` matches somewhere in `text`;
/// nothing for a pattern that is not a regular expression.
pub uninterp spec fn spec_regex_is_match(pattern: Seq<char>, text: Seq<char>) -> Option<bool>;

/// Whether two string slices hold the same characters. This is `==` of
/// `str`, which compares the two slices byte by byte; the contract says of it
/// what std documents.
#[verifier::external_body]
pub(crate) fn str_eq(a: &str, b: &str) -> (r: bool)
    ensures
        r == (a@ == b@),
{
    a == b
}

/// The lower-case form of `s`. This is `str::to_lowercase`, which maps each
/// character by Unicode's tables; the contract gives its result a name and
/// says no more of it.
#[verifier::external_body]
pub(crate) fn to_lowercase(s: &str) -> (r: String)
    ensures
        r@ == spec_lowercase(s@),
{
    s.to_lowercase()
}

/// Whether `s`, put in lower case, is the word `any`.
pub open spec fn spec_is_any(s: Seq<char>) -> bool {
    spec_lowercase(s) == "any"@
}

/// Whether `s`, put in lower case, is the word `any`.
pub fn is_any(s: &str) -> (b: bool)
    ensures
        b == spec_is_any(s@),
{
    let lower = to_lowercase(s);
    is_any_lowered(lower.as_str())
}

/// Whether a string that is already in lower case is the word `any`: the
/// part of [`is_any`] that follows the change of case.
pub fn is_any_lowered(lower: &str) -> (b: bool)
    ensures
        b == (lower@ == "any"@),
{
    str_eq(lower, "any")
}

/// Whether the regular expression `pattern` matches somewhere in `text`.
/// This compiles the pattern with `regex::Regex::new` and asks
/// `Regex::is_match` of the result; a pattern that does not compile gives
/// nothing. The contract gives the outcome a name and says no more of it.
#[verifier::external_body]
pub(crate) fn regex_is_match(pattern: &str, text: &str) -> (r: Option<bool>)
    ensures
        r == spec_regex_is_match(pattern@, text@),
{
    match regex::Regex::new(pattern) {
        Ok(re) => Some(re.is_match(text)),
        Err(_) => None,
    }
}

/// For each of the names, whether the pattern matches it.
pub open spec fn spec_match_flags(pattern: Seq<char>, names: Seq<String>) -> Seq<Option<bool>> {
    Seq::new(names.len(), |i: int| spec_regex_is_match(pattern, names[i]@))
}

/// The places of the flags that say "matched", in rising order.
pub open spec fn spec_matched_places(flags: Seq<Option<bool>>) -> Seq<usize>
    decreases flags.len(),
{
    if flags.len() == 0 {
        Seq::empty()
    } else {
        let rest = spec_matched_places(flags.drop_last());
        if flags.last() == Some(true) {
            rest.push((flags.len() - 1) as usize)
        } else {
            rest
        }
    }
}

/// The places of the flags that say "matched", in rising order.
pub fn matched_places(flags: &Vec<Option<bool>>) -> (places: Vec<usize>)
    ensures
        places@ == spec_matched_places(flags@),
        forall|k: int| 0 <= k < places@.len() ==> (#[trigger] places@[k]) < flags@.len(),
{
    let mut places: Vec<usize> = Vec::new();
    let mut i: usize = 0;
    while i < flags.len()
        invariant
            i <= flags@.len(),
            places@ == spec_matched_places(flags@.take(i as int)),
            forall|k: int| 0 <= k < places@.len() ==> (#[trigger] places@[k]) < i,
        decreases flags@.len() - i,
    {
        proof {
            assert(flags@.take(i + 1).drop_last() =~= flags@.take(i as int));
            assert(flags@.take(i + 1).last() == flags@[i as int]);
        }
        match flags[i] {
            Some(true) => {
                places.push(i);
            },
            _ => {},
        }
        i += 1;
    }
    proof {
        assert(flags@.take(i as int) =~= flags@);
    }
    places
}

/// The places of the names that the pattern matches, in rising order. A
/// pattern that is not a regular expression matches nothing.
pub fn matching_places(pattern: &str, names: &Vec<String>) -> (places: Vec<usize>)
    ensures
        places@ == spec_matched_places(spec_match_flags(pattern@, names@)),
        forall|k: int| 0 <= k < places@.len() ==> (#[trigger] places@[k]) < names@.len(),
{
    let mut flags: Vec<Option<bool>> = Vec::new();
    let mut i: usize = 0;
    while i < names.len()
        invariant
            i <= names@.len(),
            flags@.len() == i,
            forall|k: int| 0 <= k < i ==> flags@[k] == spec_regex_is_match(pattern@, names@[k]@),
        decreases names@.len() - i,
    {
        flags.push(regex_is_match(pattern, names[i].as_str()));
        i += 1;
    }
    proof {
        assert(flags@ =~= spec_match_flags(pattern@, names@));
    }
    matched_places(&flags)
}

} // verus!
