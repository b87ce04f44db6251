//! Path selection: which manifest paths are in scope for a run.
//!
//! Selection applies a regular expression to the raw logical path, matching
//! anywhere in the path (not anchored). The expression engine is the `regex`
//! crate; its observable behaviour is named here and relied on through two
//! small wrappers.

use vstd::prelude::*;

use crate::manifest::EntryModel;
use crate::manifest::Manifest;

verus! {

#[verifier::external_type_specification]
#[verifier::external_body]
pub struct ExRegex(regex::Regex);

/// Whether this pattern is valid syntax, i.e. whether `regex::Regex::new`
/// accepts it.
pub uninterp spec fn regex_ok(pat: Seq<char>) -> bool;

/// The pattern a compiled `regex::Regex` was built from.
pub uninterp spec fn regex_pattern(re: regex::Regex) -> Seq<char>;

/// Whether the pattern matches somewhere in the text: a function of the
/// pattern and the text alone.
pub uninterp spec fn regex_selects(pat: Seq<char>, text: Seq<char>) -> bool;

/// Relies on `regex::Regex::new`: compilation succeeds exactly when the
/// pattern is valid regex syntax, and the compiled value stands for that
/// pattern.
#[verifier::external_body]
pub(crate) fn regex_new(pat: &str) -> (r: Option<regex::Regex>)
    ensures
        r is Some <==> regex_ok(pat@),
        r matches Some(re) ==> regex_pattern(re) == pat@,
{
    regex::Regex::new(pat).ok()
}

/// Relies on `regex::Regex::captures`: it yields a capture exactly when the
/// pattern matches somewhere in the text. The pattern `.*` matches every
/// text, the empty match at the start if nothing longer.
#[verifier::external_body]
pub(crate) fn regex_captures_some(re: &regex::Regex, text: &str) -> (r: bool)
    ensures
        r == regex_selects(regex_pattern(*re), text@),
        regex_pattern(*re) == ".*"@ ==> r,
{
    re.captures(text).is_some()
}

/// Whether this path is selected by the compiled pattern.
pub fn is_selected(re: &regex::Regex, path: &str) -> (r: bool)
    ensures
        r == regex_selects(regex_pattern(*re), path@),
        regex_pattern(*re) == ".*"@ ==> r,
{
    regex_captures_some(re, path)
}

/// The indices of the selected entries, in manifest order.
pub open spec fn selected_ix(s: Seq<EntryModel>, pat: Seq<char>) -> Seq<int>
    decreases s.len(),
{
    if s.len() == 0 {
        Seq::empty()
    } else {
        let pre = selected_ix(s.drop_last(), pat);
        if regex_selects(pat, s.last().path) {
            pre.push(s.len() - 1)
        } else {
            pre
        }
    }
}

/// Lists the indices of the manifest entries whose path the pattern selects,
/// in manifest order. With the match-all pattern `.*` that is every entry.
pub fn selected_indices(m: &Manifest, re: &regex::Regex) -> (r: Vec<usize>)
    ensures
        r@.map_values(|u: usize| u as int) == selected_ix(m@, regex_pattern(*re)),
        forall|j: int| 0 <= j < r@.len() ==> #[trigger] r@[j] < m@.len(),
        regex_pattern(*re) == ".*"@ ==> r@.map_values(|u: usize| u as int) == Seq::new(
            m@.len(),
            |i: int| i,
        ),
{
    let ghost pat = regex_pattern(*re);
    let n = m.entries.len();
    let mut r: Vec<usize> = Vec::new();
    let mut i: usize = 0;
    proof {
        assert(m@.take(0) =~= Seq::<EntryModel>::empty());
        assert(r@.map_values(|u: usize| u as int) =~= Seq::<int>::empty());
    }
    while i < n
        invariant
            n == m.entries.len(),
            n == m@.len(),
            0 <= i <= n,
            pat == regex_pattern(*re),
            r@.map_values(|u: usize| u as int) == selected_ix(m@.take(i as int), pat),
            forall|j: int| 0 <= j < r@.len() ==> #[trigger] r@[j] < i,
            pat == ".*"@ ==> forall|j: int| 0 <= j < i ==> regex_selects(
                pat,
                #[trigger] m@[j].path,
            ),
        decreases n - i,
    {
        let sel = is_selected(re, m.entries[i].path.as_str());
        proof {
            assert(m@[i as int] == m.entries@[i as int]@);
            assert(m@.take(i as int + 1).drop_last() =~= m@.take(i as int));
            assert(m@.take(i as int + 1).last() == m@[i as int]);
        }
        if sel {
            r.push(i);
            proof {
                assert(r@.map_values(|u: usize| u as int) =~= selected_ix(
                    m@.take(i as int + 1),
                    pat,
                ));
            }
        }
        i = i + 1;
    }
    proof {
        assert(m@.take(n as int) =~= m@);
        if pat == ".*"@ {
            lemma_match_all_selection(m@, pat);
        }
    }
    r
}

/// A pattern that selects no path selects no entry: when no entry's path
/// matches, the selection is empty and no entry is processed.
pub proof fn lemma_empty_selection(s: Seq<EntryModel>, pat: Seq<char>)
    requires
        forall|i: int| 0 <= i < s.len() ==> !regex_selects(pat, #[trigger] s[i].path),
    ensures
        selected_ix(s, pat) == Seq::<int>::empty(),
    decreases s.len(),
{
    if s.len() > 0 {
        lemma_empty_selection(s.drop_last(), pat);
    }
}

/// The match-all pattern `.*` selects every manifest path: the selection is
/// every index, in order.
pub proof fn lemma_match_all_selection(s: Seq<EntryModel>, pat: Seq<char>)
    requires
        forall|i: int| 0 <= i < s.len() ==> regex_selects(pat, #[trigger] s[i].path),
    ensures
        selected_ix(s, pat) == Seq::new(s.len(), |i: int| i),
    decreases s.len(),
{
    if s.len() == 0 {
        assert(selected_ix(s, pat) =~= Seq::new(s.len(), |i: int| i));
    } else {
        lemma_match_all_selection(s.drop_last(), pat);
        assert(selected_ix(s, pat) =~= Seq::new(s.len(), |i: int| i));
    }
}

} // verus!
