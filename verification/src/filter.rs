//! Name filtering for prune invocations.
//!
//! A filter is a regular expression held against each worktree's name; an
//! absent filter matches every name. A malformed pattern fails the whole
//! invocation before any per-worktree work begins. The matching itself is
//! done by the `regex` crate behind the trusted items below; the filtering
//! of the name list is verified against what those items state.

use vstd::prelude::*;

verus! {

/// Whether `pattern` is a regular expression that `regex::Regex::new`
/// accepts. The result depends on the pattern alone.
pub uninterp spec fn regex_valid(pattern: Seq<char>) -> bool;

/// Whether the regular expression `pattern` matches anywhere in `text`.
/// The result depends on the two texts alone.
pub uninterp spec fn regex_accepts(pattern: Seq<char>, text: Seq<char>) -> bool;

/// A compiled name filter. `regex` is always the compilation of `pattern`:
/// the only constructor is [`NameFilter::compile`], which keeps the pair
/// together, and nothing reassigns the fields.
pub struct NameFilter {
    pattern: String,
    regex: regex::Regex,
}

/// Declares `regex::Regex` so that a compiled regex can be held in a
/// field; the value is opaque, and everything known about it is said by
/// the two trusted functions below.
#[verifier::external_type_specification]
#[verifier::external_body]
pub struct ExRegex(regex::Regex);

/// The invocation-level failure of a prune run: a filter pattern that is
/// not a valid regular expression.
#[derive(Clone, Copy, PartialEq, Eq, Structural, Debug)]
pub enum FilterError {
    InvalidPattern,
}

/// Relies on `regex::Regex::new`: it returns `Ok` exactly on the patterns
/// the crate accepts (`regex_valid` names that set), and the compiled
/// value matches as the pattern prescribes.
#[verifier::external_body]
fn compile_regex(pattern: &String) -> (r: Option<NameFilter>)
    ensures
        r is Some <==> regex_valid(pattern@),
        r matches Some(f) ==> f.pattern@ == pattern@,
{
    match regex::Regex::new(pattern) {
        Ok(re) => Some(NameFilter { pattern: pattern.clone(), regex: re }),
        Err(_) => None,
    }
}

/// Relies on `regex::Regex::is_match`: true exactly when the compiled
/// pattern matches anywhere in `text` (`regex_accepts` names that
/// relation, over the pattern the filter was compiled from).
#[verifier::external_body]
fn regex_is_match(filter: &NameFilter, text: &String) -> (r: bool)
    ensures
        r == regex_accepts(filter.pattern@, text@),
{
    filter.regex.is_match(text)
}

impl NameFilter {
    /// The pattern this filter was compiled from.
    pub closed spec fn spec_pattern(&self) -> Seq<char> {
        self.pattern@
    }

    /// Whether this filter matches `text`.
    pub open spec fn spec_matches(&self, text: Seq<char>) -> bool {
        regex_accepts(self.spec_pattern(), text)
    }

    /// Compile a filter; fails exactly on patterns that are not valid
    /// regular expressions.
    pub fn compile(pattern: &String) -> (r: Result<NameFilter, FilterError>)
        ensures
            r is Ok <==> regex_valid(pattern@),
            r matches Ok(f) ==> f.spec_pattern() == pattern@,
    {
        match compile_regex(pattern) {
            Some(f) => Ok(f),
            None => Err(FilterError::InvalidPattern),
        }
    }

    /// Hold the filter against one name.
    pub fn is_match(&self, text: &String) -> (r: bool)
        ensures
            r == self.spec_matches(text@),
    {
        regex_is_match(self, text)
    }
}

/// Whether a name passes an optional filter: an absent filter passes all.
pub open spec fn spec_name_passes(filter: Option<NameFilter>, name: Seq<char>) -> bool {
    match filter {
        None => true,
        Some(f) => f.spec_matches(name),
    }
}

/// The names that pass the filter, in their given order.
pub open spec fn spec_filtered_names(names: Seq<String>, filter: Option<NameFilter>) -> Seq<String>
    decreases names.len(),
{
    if names.len() == 0 {
        Seq::empty()
    } else {
        let front = spec_filtered_names(names.drop_last(), filter);
        if spec_name_passes(filter, names.last()@) {
            front.push(names.last())
        } else {
            front
        }
    }
}

/// Keep the worktree names that pass the filter, in order: the later
/// decisions are produced exactly for the names the filter admits.
pub fn filter_worktree_names(names: Vec<String>, filter: &Option<NameFilter>) -> (r: Vec<String>)
    ensures
        r@ == spec_filtered_names(names@, *filter),
{
    let ghost all = names@;
    let mut remaining = names;
    let mut kept: Vec<String> = Vec::new();
    let mut seen: usize = 0;
    let total: usize = remaining.len();
    proof {
        assert(all.len() == total);
    }
    while remaining.len() > 0
        invariant
            all.len() <= usize::MAX,
            seen + remaining@.len() == all.len(),
            remaining@ == all.subrange(seen as int, all.len() as int),
            kept@ == spec_filtered_names(all.subrange(0, seen as int), *filter),
        decreases remaining@.len(),
    {
        let f = remaining.remove(0);
        let passes = match filter {
            None => true,
            Some(re) => re.is_match(&f),
        };
        proof {
            let prefix = all.subrange(0, seen as int + 1);
            assert(prefix.drop_last() =~= all.subrange(0, seen as int));
            assert(prefix.last() == f);
        }
        if passes {
            kept.push(f);
        }
        seen = seen + 1;
        proof {
            assert(remaining@ =~= all.subrange(seen as int, all.len() as int));
        }
    }
    proof {
        assert(all.subrange(0, all.len() as int) =~= all);
    }
    kept
}

/// Every kept name passed the filter: decisions are produced only for the
/// names the filter admits.
pub proof fn lemma_filtered_names_pass(names: Seq<String>, filter: Option<NameFilter>)
    ensures
        forall|i: int|
            0 <= i < spec_filtered_names(names, filter).len() ==> spec_name_passes(
                filter,
                (#[trigger] spec_filtered_names(names, filter)[i])@,
            ),
    decreases names.len(),
{
    if names.len() > 0 {
        lemma_filtered_names_pass(names.drop_last(), filter);
        let whole = spec_filtered_names(names, filter);
        let front = spec_filtered_names(names.drop_last(), filter);
        assert forall|i: int| 0 <= i < whole.len() implies spec_name_passes(
            filter,
            (#[trigger] whole[i])@,
        ) by {
            if i < front.len() {
                assert(whole[i] == front[i]);
            } else {
                assert(whole[i] == names.last());
            }
        }
    }
}

} // verus!
