//! Sets of regular expressions, compiled once and asked whether any of them
//! matches a path.

use regex::RegexSet;
use vstd::prelude::*;

verus! {

/// `regex::RegexSet`, the compiled set of the regex crate. Nothing of its
/// inside is used; what it holds is named by `set_patterns`.
#[verifier::external_type_specification]
#[verifier::external_body]
pub struct ExRegexSet(regex::RegexSet);

/// `regex::Error`, which says why a list of patterns did not compile.
#[verifier::external_type_specification]
#[verifier::external_body]
pub struct ExRegexError(regex::Error);

/// The patterns that a set holds, in the order in which they were given.
pub uninterp spec fn set_patterns(set: RegexSet) -> Seq<Seq<char>>;

/// Whether a set reads its patterns under the default options of the regex
/// crate, as every set that `RegexSet::new` makes does.
pub uninterp spec fn set_is_plain(set: RegexSet) -> bool;

/// Whether `RegexSet::new` accepts a list of patterns: each of them is a
/// valid regular expression and together they stay within the default size
/// limit.
pub uninterp spec fn set_compiles(patterns: Seq<Seq<char>>) -> bool;

/// Whether a list of patterns can be made into a set. The empty list always
/// can.
pub open spec fn patterns_compile(patterns: Seq<Seq<char>>) -> bool {
    patterns.len() == 0 || set_compiles(patterns)
}

/// Whether the regular expression `pattern`, read under the default options,
/// matches somewhere in `text`.
pub uninterp spec fn regex_matches(pattern: Seq<char>, text: Seq<char>) -> bool;

/// Whether at least one of `patterns` matches somewhere in `text`.
pub open spec fn any_matches(patterns: Seq<Seq<char>>, text: Seq<char>) -> bool {
    exists|i: int| 0 <= i < patterns.len() && #[trigger] regex_matches(patterns[i], text)
}

/// Two lists of patterns, one after the other, match a text exactly where
/// one of the two lists does.
pub proof fn lemma_joined_lists_match_either(
    first: Seq<Seq<char>>,
    second: Seq<Seq<char>>,
    text: Seq<char>,
)
    ensures
        any_matches(first + second, text) <==> any_matches(first, text) || any_matches(
            second,
            text,
        ),
{
    let both = first + second;
    if any_matches(first, text) {
        let i = choose|i: int| 0 <= i < first.len() && regex_matches(first[i], text);
        assert(both[i] == first[i]);
    }
    if any_matches(second, text) {
        let i = choose|i: int| 0 <= i < second.len() && regex_matches(second[i], text);
        assert(both[first.len() + i] == second[i]);
    }
    if any_matches(both, text) {
        let i = choose|i: int| 0 <= i < both.len() && regex_matches(both[i], text);
        if i < first.len() {
            assert(regex_matches(first[i], text));
        } else {
            assert(regex_matches(second[i - first.len()], text));
        }
    }
}

/// A list without patterns matches nothing.
pub proof fn lemma_no_pattern_matches_nothing(text: Seq<char>)
    ensures
        !any_matches(Seq::empty(), text),
{
}

/// `RegexSet::new`. It succeeds on the empty list, and else exactly on the
/// lists that the regex crate accepts; the set then holds the patterns
/// given, in their order, under the default options.
#[verifier::external_body]
fn compile(patterns: &Vec<String>) -> (r: Result<RegexSet, regex::Error>)
    ensures
        r is Ok <==> patterns@.len() == 0 || set_compiles(patterns.deep_view()),
        r matches Ok(set) ==> set_patterns(set) == patterns.deep_view() && set_is_plain(set),
{
    RegexSet::new(patterns)
}

/// `RegexSet::is_match`: whether one of the regular expressions of the set
/// matches somewhere in `text`.
#[verifier::external_body]
fn set_is_match(set: &RegexSet, text: &str) -> (b: bool)
    requires
        set_is_plain(*set),
    ensures
        b == (exists|i: int|
            0 <= i < set_patterns(*set).len() && #[trigger] regex_matches(
                set_patterns(*set)[i],
                text@,
            )),
{
    set.is_match(text)
}

/// `ToString::to_string` on a `regex::Error`: its message, of which nothing
/// is claimed.
#[verifier::external_body]
fn error_message(error: &regex::Error) -> (message: String) {
    error.to_string()
}

/// A list of patterns that is not a valid set of regular expressions.
#[derive(Debug, Clone)]
pub struct PatternError {
    /// What the regex crate reported.
    pub message: String,
}

/// A compiled set of patterns.
pub struct PatternSet {
    set: RegexSet,
}

impl View for PatternSet {
    type V = Seq<Seq<char>>;

    /// The patterns of the set, in order.
    closed spec fn view(&self) -> Seq<Seq<char>> {
        set_patterns(self.set)
    }
}

impl PatternSet {
    #[verifier::type_invariant]
    spec fn plain(self) -> bool {
        set_is_plain(self.set)
    }

    /// Compiles `patterns` into one set. Fails where the list does not
    /// compile.
    pub fn new(patterns: &Vec<String>) -> (r: Result<PatternSet, PatternError>)
        ensures
            r is Ok <==> patterns_compile(patterns.deep_view()),
            r matches Ok(set) ==> set@ == patterns.deep_view(),
    {
        match compile(patterns) {
            Ok(set) => Ok(PatternSet { set }),
            Err(error) => Err(PatternError { message: error_message(&error) }),
        }
    }

    /// Whether any pattern of the set matches `path`. A set without patterns
    /// matches nothing.
    pub fn matches(&self, path: &str) -> (b: bool)
        ensures
            b == any_matches(self@, path@),
    {
        proof {
            use_type_invariant(self);
        }
        set_is_match(&self.set, path)
    }
}

} // verus!
