//! Planning the directory worktrees live in.
//!
//! Paths are handled as their component lists. Given the repository's
//! working directory and the configured base path (if any), the plan fixes
//! the root directory for worktrees and whether that root must be entered
//! into the repository's ignore-rules file; the rule insertion itself is
//! idempotent on the file's content.

use vstd::prelude::*;
use vstd::string::*;

verus! {

/// The characters `str::trim` removes: Unicode whitespace.
pub open spec fn spec_is_space(c: char) -> bool {
    ||| c == ' '
    ||| c == '\t'
    ||| c == '\n'
    ||| c == '\r'
    ||| c == '\u{b}'
    ||| c == '\u{c}'
    ||| c == '\u{85}'
    ||| c == '\u{a0}'
    ||| c == '\u{1680}'
    ||| c == '\u{2000}'
    ||| c == '\u{2001}'
    ||| c == '\u{2002}'
    ||| c == '\u{2003}'
    ||| c == '\u{2004}'
    ||| c == '\u{2005}'
    ||| c == '\u{2006}'
    ||| c == '\u{2007}'
    ||| c == '\u{2008}'
    ||| c == '\u{2009}'
    ||| c == '\u{200a}'
    ||| c == '\u{2028}'
    ||| c == '\u{2029}'
    ||| c == '\u{202f}'
    ||| c == '\u{205f}'
    ||| c == '\u{3000}'
}

/// Whether `s` holds nothing but whitespace. A configured base path that
/// is blank counts as unset.
pub open spec fn spec_is_blank(s: Seq<char>) -> bool {
    forall|i: int| 0 <= i < s.len() ==> spec_is_space(#[trigger] s[i])
}

fn is_space_char(c: char) -> (r: bool)
    ensures
        r == spec_is_space(c),
{
    c == ' ' || c == '\t' || c == '\n' || c == '\r' || c == '\u{b}' || c == '\u{c}' || c == '\u{85}'
        || c == '\u{a0}' || c == '\u{1680}' || c == '\u{2000}' || c == '\u{2001}' || c
        == '\u{2002}' || c == '\u{2003}' || c == '\u{2004}' || c == '\u{2005}' || c == '\u{2006}'
        || c == '\u{2007}' || c == '\u{2008}' || c == '\u{2009}' || c == '\u{200a}' || c
        == '\u{2028}' || c == '\u{2029}' || c == '\u{202f}' || c == '\u{205f}' || c == '\u{3000}'
}

/// Whether a configured value is blank, and so counts as unset.
pub fn is_blank(s: &String) -> (r: bool)
    ensures
        r == spec_is_blank(s@),
{
    let n = s.as_str().unicode_len();
    let mut i: usize = 0;
    while i < n
        invariant
            n == s@.len(),
            0 <= i <= n,
            forall|k: int| 0 <= k < i ==> spec_is_space(#[trigger] s@[k]),
        decreases n - i,
    {
        if !is_space_char(s.as_str().get_char(i)) {
            assert(!spec_is_space(s@[i as int]));
            return false;
        }
        i = i + 1;
    }
    true
}

/// Whether `prefix` is a leading run of `whole`, component by component.
pub open spec fn spec_is_prefix(prefix: Seq<Seq<char>>, whole: Seq<Seq<char>>) -> bool {
    prefix.len() <= whole.len() && whole.subrange(0, prefix.len() as int) == prefix
}

/// The planned root directory for worktrees: the configured base path when
/// one is set, with the repository's directory name appended when the base
/// lies outside the repository; otherwise `.worktree` inside the
/// repository.
pub open spec fn spec_planned_root(repo_dir: Seq<Seq<char>>, configured: Option<Seq<Seq<char>>>) -> Seq<
    Seq<char>,
> {
    match configured {
        None => repo_dir.push(".worktree"@),
        Some(base) => if spec_is_prefix(repo_dir, base) {
            base
        } else {
            base.push(repo_dir.last())
        },
    }
}

/// Whether the planned root needs an ignore rule: exactly when it lies
/// inside the repository's working directory.
pub open spec fn spec_root_needs_exclude(
    repo_dir: Seq<Seq<char>>,
    configured: Option<Seq<Seq<char>>>,
) -> bool {
    match configured {
        None => true,
        Some(base) => spec_is_prefix(repo_dir, base),
    }
}

/// Where worktrees are created, and whether that place must be entered
/// into the repository's ignore rules.
pub struct WorktreePlan {
    pub root: Vec<String>,
    pub should_update_exclude: bool,
}

fn is_component_prefix(prefix: &Vec<String>, whole: &Vec<String>) -> (r: bool)
    ensures
        r == spec_is_prefix(prefix.deep_view(), whole.deep_view()),
{
    if prefix.len() > whole.len() {
        return false;
    }
    let n = prefix.len();
    let mut i: usize = 0;
    while i < n
        invariant
            n == prefix@.len() <= whole@.len(),
            0 <= i <= n,
            forall|k: int| 0 <= k < i ==> prefix.deep_view()[k] == whole.deep_view()[k],
        decreases n - i,
    {
        if !(prefix[i] == whole[i]) {
            assert(prefix.deep_view()[i as int] != whole.deep_view()[i as int]);
            assert(!spec_is_prefix(prefix.deep_view(), whole.deep_view())) by {
                if spec_is_prefix(prefix.deep_view(), whole.deep_view()) {
                    assert(whole.deep_view().subrange(0, prefix.deep_view().len() as int)[i as int]
                        == prefix.deep_view()[i as int]);
                }
            }
            return false;
        }
        i = i + 1;
    }
    proof {
        assert(whole.deep_view().subrange(0, n as int) =~= prefix.deep_view());
    }
    true
}

/// Plan where worktrees live. `repo_dir` is the repository's working
/// directory; `configured` is the configured base path, already dropped
/// when blank. A configured base inside the repository is used as it is
/// and excluded from tracking; one outside gets the repository's name as a
/// subdirectory and needs no rule.
pub fn calculate_worktree_plan(repo_dir: Vec<String>, configured: Option<Vec<String>>) -> (p:
    WorktreePlan)
    requires
        repo_dir@.len() > 0,
    ensures
        p.root.deep_view() == spec_planned_root(repo_dir.deep_view(), configured.deep_view()),
        p.should_update_exclude == spec_root_needs_exclude(
            repo_dir.deep_view(),
            configured.deep_view(),
        ),
{
    match configured {
        None => {
            let mut root = repo_dir;
            root.push(String::from_str(".worktree"));
            WorktreePlan { root, should_update_exclude: true }
        },
        Some(base) => {
            if is_component_prefix(&repo_dir, &base) {
                WorktreePlan { root: base, should_update_exclude: true }
            } else {
                let name = repo_dir[repo_dir.len() - 1].clone();
                let mut root = base;
                root.push(name);
                WorktreePlan { root, should_update_exclude: false }
            }
        },
    }
}

/// Path components joined with `/` between them.
pub open spec fn spec_join_rel(parts: Seq<Seq<char>>) -> Seq<char>
    decreases parts.len(),
{
    if parts.len() == 0 {
        Seq::empty()
    } else if parts.len() == 1 {
        parts[0]
    } else {
        spec_join_rel(parts.drop_last()) + "/"@ + parts.last()
    }
}

/// The ignore rule for a root inside the repository: a leading `/`, then
/// the root's components relative to the repository, joined with `/`.
pub fn exclude_rule(root: &Vec<String>, repo_len: usize) -> (r: String)
    requires
        repo_len <= root@.len(),
    ensures
        r@ == "/"@ + spec_join_rel(
            root.deep_view().subrange(repo_len as int, root.deep_view().len() as int),
        ),
{
    let ghost dv = root.deep_view();
    let mut line = String::from_str("/");
    let n = root.len();
    let mut i: usize = repo_len;
    while i < n
        invariant
            dv == root.deep_view(),
            n == root@.len(),
            dv.len() == n,
            repo_len <= i <= n,
            line@ == "/"@ + spec_join_rel(dv.subrange(repo_len as int, i as int)),
        decreases n - i,
    {
        if i > repo_len {
            line.append("/");
        }
        line.append(root[i].as_str());
        proof {
            let upto = dv.subrange(repo_len as int, i + 1 as int);
            assert(upto.drop_last() =~= dv.subrange(repo_len as int, i as int));
            assert(upto.last() == dv[i as int]);
            if i > repo_len {
                assert(line@ =~= "/"@ + spec_join_rel(upto));
            } else {
                assert(spec_join_rel(upto) == dv[i as int]);
                assert(line@ =~= "/"@ + spec_join_rel(upto));
            }
        }
        i = i + 1;
    }
    line
}

/// Whether `rule` occurs in `content` starting at position `i`.
pub open spec fn spec_contains_at(content: Seq<char>, rule: Seq<char>, i: int) -> bool {
    0 <= i && i + rule.len() <= content.len() && content.subrange(i, i + rule.len()) == rule
}

/// Whether `rule` occurs anywhere in `content`.
pub open spec fn spec_contains(content: Seq<char>, rule: Seq<char>) -> bool {
    exists|i: int| spec_contains_at(content, rule, i)
}

/// Whether the ignore file's `content` already holds `rule` somewhere.
pub fn content_contains_rule(content: &String, rule: &String) -> (r: bool)
    ensures
        r == spec_contains(content@, rule@),
{
    let n = content.as_str().unicode_len();
    let m = rule.as_str().unicode_len();
    if m > n {
        assert(!spec_contains(content@, rule@)) by {
            if spec_contains(content@, rule@) {
                let i = choose|i: int| spec_contains_at(content@, rule@, i);
            }
        }
        return false;
    }
    let mut i: usize = 0;
    while i <= n - m
        invariant
            n == content@.len(),
            m == rule@.len(),
            m <= n,
            0 <= i <= n - m + 1,
            forall|k: int| 0 <= k < i ==> !spec_contains_at(content@, rule@, k),
        decreases n + 1 - i,
    {
        let mut j: usize = 0;
        while j < m && content.as_str().get_char(i + j) == rule.as_str().get_char(j)
            invariant
                n == content@.len(),
                m == rule@.len(),
                i + m <= n,
                0 <= j <= m,
                forall|k: int| 0 <= k < j ==> content@[i + k] == rule@[k],
            decreases m - j,
        {
            j = j + 1;
        }
        if j == m {
            proof {
                assert(content@.subrange(i as int, i + m as int) =~= rule@);
                assert(spec_contains_at(content@, rule@, i as int));
            }
            return true;
        }
        proof {
            assert(content@[i + j as int] != rule@[j as int]);
            assert(!spec_contains_at(content@, rule@, i as int)) by {
                if spec_contains_at(content@, rule@, i as int) {
                    assert(content@.subrange(i as int, i + m as int)[j as int] == rule@[j as int]);
                }
            }
        }
        i = i + 1;
    }
    proof {
        assert(!spec_contains(content@, rule@)) by {
            if spec_contains(content@, rule@) {
                let k = choose|k: int| spec_contains_at(content@, rule@, k);
                assert(!spec_contains_at(content@, rule@, k));
            }
        }
    }
    false
}

/// The ignore file's content after the rule is ensured: unchanged when the
/// rule is already there, otherwise the rule and a newline appended.
pub open spec fn spec_apply_exclude(content: Seq<char>, rule: Seq<char>) -> Seq<char> {
    if spec_contains(content, rule) {
        content
    } else {
        content + rule + "\n"@
    }
}

/// What to append to the ignore file so that it holds `rule`: nothing when
/// the rule is already there, otherwise the rule and a newline.
pub fn exclude_addition(content: &String, rule: &String) -> (r: Option<String>)
    ensures
        r is None <==> spec_contains(content@, rule@),
        r matches Some(l) ==> l@ == rule@ + "\n"@,
        content@ + (match r {
            None => Seq::<char>::empty(),
            Some(l) => l@,
        }) == spec_apply_exclude(content@, rule@),
{
    if content_contains_rule(content, rule) {
        proof {
            assert(content@ + Seq::<char>::empty() =~= content@);
        }
        None
    } else {
        let line = rule.clone().concat("\n");
        proof {
            assert(content@ + line@ =~= content@ + rule@ + "\n"@);
        }
        Some(line)
    }
}

/// Ensuring the same rule twice leaves the file as ensuring it once does:
/// rule insertion is idempotent on the file's content.
pub proof fn lemma_exclude_idempotent(content: Seq<char>, rule: Seq<char>)
    ensures
        spec_apply_exclude(spec_apply_exclude(content, rule), rule) == spec_apply_exclude(
            content,
            rule,
        ),
{
    if !spec_contains(content, rule) {
        let once = content + rule + "\n"@;
        assert(once.subrange(content.len() as int, content.len() as int + rule.len() as int)
            =~= rule);
        assert(spec_contains_at(once, rule, content.len() as int));
    }
}

} // verus!
