//! Expansion of configured source patterns into concrete file paths.
//!
//! A pattern is first expanded shell-style (home directory, environment
//! variables) and then matched against the filesystem as a glob. The matches
//! of all patterns are concatenated in pattern order, each pattern's matches
//! in enumeration order; nothing is sorted or deduplicated.

use vstd::prelude::*;
use vstd::seq_lib::lemma_flatten_concat;

verus! {

/// Why a list of source patterns could not be expanded.
#[derive(Debug, Clone, Copy, PartialEq, Eq, Structural)]
pub enum ExpandError {
    /// A pattern's shell expansion failed: an environment variable it names
    /// is unset or is not Unicode text.
    Expansion,
    /// A pattern is not a well-formed glob.
    InvalidPattern,
}

/// Holds when a pattern asks for no shell substitution at all: it contains no
/// variable reference and does not start with a home-directory tilde. Shell
/// expansion returns such a pattern unchanged and cannot fail on it.
pub open spec fn literal_pattern(p: Seq<char>) -> bool {
    &&& forall|i: int| 0 <= i < p.len() ==> p[i] != '$'
    &&& p.len() > 0 ==> p[0] != '~'
}

/// Holds when a pattern stays clear of the two glob constructs that can be
/// malformed: character classes and recursive wildcards. Such a pattern is
/// always a well-formed glob.
pub open spec fn plain_glob(p: Seq<char>) -> bool {
    &&& forall|i: int| 0 <= i < p.len() ==> p[i] != '['
    &&& forall|i: int| 0 <= i + 1 < p.len() ==> !(#[trigger] p[i] == '*' && p[i + 1] == '*')
}

/// Holds when every pattern in the list needs no shell substitution and is a
/// well-formed glob, so that expanding the list cannot fail.
pub open spec fn self_contained_patterns(patterns: Seq<Seq<char>>) -> bool {
    forall|i: int|
        0 <= i < patterns.len() ==> literal_pattern(#[trigger] patterns[i]) && plain_glob(
            patterns[i],
        )
}

/// Holds when a configured source list cannot fail to expand: it is absent,
/// or all its patterns are self-contained.
pub open spec fn expandable(sources: Option<Vec<String>>) -> bool {
    match sources {
        None => true,
        Some(patterns) => self_contained_patterns(patterns.deep_view()),
    }
}

/// Whether a pattern is a well-formed glob, as the glob engine judges it.
pub uninterp spec fn glob_pattern_ok(p: Seq<char>) -> bool;

/// Relies on shellexpand::full: references to the home directory and to
/// environment variables are substituted; a pattern with no `$` anywhere and
/// no `~` in front is handed back unchanged, and expanding it cannot fail.
#[verifier::external_body]
fn shell_expand(pattern: &str) -> (r: Result<String, ExpandError>)
    ensures
        literal_pattern(pattern@) ==> r is Ok && r->Ok_0@ == pattern@,
{
    match shellexpand::full(pattern) {
        Ok(expanded) => Ok(expanded.into_owned()),
        Err(_) => Err(ExpandError::Expansion),
    }
}

/// Relies on glob::glob: a well-formed pattern yields the paths of the files
/// that exist and match it, in alphabetical order, and a malformed pattern is
/// the only error. Well-formedness depends on the pattern text alone, and a
/// pattern with no character class and no doubled `*` is always well-formed.
#[verifier::external_body]
fn glob_matches(pattern: &str) -> (r: Result<Vec<String>, ExpandError>)
    ensures
        r is Ok <==> glob_pattern_ok(pattern@),
        plain_glob(pattern@) ==> r is Ok,
{
    match glob::glob(pattern) {
        Ok(paths) => Ok(
            paths
                .filter_map(|entry| entry.ok())
                .map(|path| path.to_string_lossy().into_owned())
                .collect(),
        ),
        Err(_) => Err(ExpandError::InvalidPattern),
    }
}

/// Expands a single source pattern: shell substitution first, then the glob
/// match. A pattern that needs no substitution succeeds exactly when it is a
/// well-formed glob.
pub fn expand_pattern(pattern: &String) -> (r: Result<Vec<String>, ExpandError>)
    ensures
        literal_pattern(pattern@) ==> (r is Ok <==> glob_pattern_ok(pattern@)),
        literal_pattern(pattern@) && plain_glob(pattern@) ==> r is Ok,
{
    let expanded = match shell_expand(pattern.as_str()) {
        Ok(e) => e,
        Err(e) => {
            return Err(e);
        },
    };
    glob_matches(expanded.as_str())
}

/// Concatenates per-pattern match lists into one pool, keeping the pattern
/// order and, within each pattern, the enumeration order.
pub fn concat_expansions(groups: &Vec<Vec<String>>) -> (all: Vec<String>)
    ensures
        all.deep_view() == groups.deep_view().flatten(),
{
    let mut all: Vec<String> = Vec::new();
    proof {
        assert(all.deep_view() =~= groups.deep_view().take(0).flatten());
    }
    let mut i: usize = 0;
    while i < groups.len()
        invariant
            i <= groups.len(),
            all.deep_view() == groups.deep_view().take(i as int).flatten(),
        decreases groups.len() - i,
    {
        let group: &Vec<String> = &groups[i];
        let ghost before = all.deep_view();
        let mut j: usize = 0;
        while j < group.len()
            invariant
                j <= group.len(),
                all.deep_view() == before + group.deep_view().take(j as int),
            decreases group.len() - j,
        {
            let ghost all_prev = all.deep_view();
            all.push(group[j].clone());
            proof {
                assert(all.deep_view() =~= all_prev.push(group@[j as int]@));
                assert(group.deep_view().take(j + 1) =~= group.deep_view().take(j as int).push(
                    group@[j as int]@,
                ));
                assert(all.deep_view() =~= before + group.deep_view().take(j + 1));
            }
            j += 1;
        }
        proof {
            assert(group.deep_view().take(group@.len() as int) =~= group.deep_view());
            assert(groups.deep_view()[i as int] == group.deep_view());
            groups.deep_view().take(i as int).lemma_flatten_push(group.deep_view());
            assert(groups.deep_view().take(i + 1) =~= groups.deep_view().take(i as int).push(
                group.deep_view(),
            ));
            assert(all.deep_view() =~= groups.deep_view().take(i + 1).flatten());
        }
        i += 1;
    }
    proof {
        assert(groups.deep_view().take(groups@.len() as int) =~= groups.deep_view());
    }
    all
}

/// Expands a list of source patterns into the flattened list of matching
/// paths. An absent or empty list expands to the empty pool; a failing shell
/// substitution or a malformed glob fails the whole call; a pattern that
/// matches nothing contributes nothing. A list whose patterns all need no
/// substitution and are well-formed globs never fails.
pub fn expand_sources(sources: &Option<Vec<String>>) -> (r: Result<Vec<String>, ExpandError>)
    ensures
        sources is None ==> (r matches Ok(v) && v@.len() == 0),
        sources matches Some(p) && p@.len() == 0 ==> (r matches Ok(v) && v@.len() == 0),
        expandable(*sources) ==> r is Ok,
{
    let patterns = match sources {
        None => {
            return Ok(Vec::new());
        },
        Some(p) => p,
    };
    let mut groups: Vec<Vec<String>> = Vec::new();
    let mut i: usize = 0;
    while i < patterns.len()
        invariant
            i <= patterns.len(),
            *sources == Some(*patterns),
            groups@.len() == i as int,
        decreases patterns.len() - i,
    {
        let matches = match expand_pattern(&patterns[i]) {
            Ok(m) => m,
            Err(e) => {
                proof {
                    assert(patterns.deep_view()[i as int] == patterns@[i as int]@);
                }
                return Err(e);
            },
        };
        groups.push(matches);
        i += 1;
    }
    let all = concat_expansions(&groups);
    proof {
        if patterns@.len() == 0 {
            assert(groups.deep_view().flatten() =~= Seq::<Seq<char>>::empty());
        }
    }
    Ok(all)
}

/// Expansion preserves pattern order: the pool of one pattern list followed
/// by another equals the first list's pool followed by the second's, for any
/// per-pattern match lists the filesystem yields.
pub proof fn lemma_expansion_order_preserving(
    first: Seq<Seq<Seq<char>>>,
    second: Seq<Seq<Seq<char>>>,
)
    ensures
        (first + second).flatten() == first.flatten() + second.flatten(),
{
    lemma_flatten_concat(first, second);
    assert((first + second).flatten() =~= first.flatten() + second.flatten());
}

/// A pattern that matches no existing file contributes nothing: dropping its
/// empty match list anywhere in the group sequence leaves the pool unchanged.
pub proof fn lemma_empty_group_contributes_nothing(groups: Seq<Seq<Seq<char>>>, i: int)
    requires
        0 <= i < groups.len(),
        groups[i].len() == 0,
    ensures
        groups.flatten() == groups.remove(i).flatten(),
{
    let left = groups.take(i);
    let middle = seq![groups[i]];
    let right = groups.skip(i + 1);
    assert(groups =~= left + middle + right);
    lemma_flatten_concat(left + middle, right);
    lemma_flatten_concat(left, middle);
    middle.lemma_flatten_singleton();
    assert(middle.flatten() =~= Seq::<Seq<char>>::empty());
    assert(groups.remove(i) =~= left + right);
    lemma_flatten_concat(left, right);
    assert(groups.flatten() =~= groups.remove(i).flatten());
}

} // verus!
