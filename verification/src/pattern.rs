//! The log pattern matcher: a fixed table of message patterns, each with a
//! forced health-bit verdict, consulted before the generic event-type
//! classification.
//!
//! The table, in order of precedence:
//!
//! | pattern                                                  | verdict | target               |
//! |----------------------------------------------------------|---------|----------------------|
//! | message contains `Stopping container`                    | Red     | the event's object   |
//! | message contains `Liveness probe failed`                 | Red     | the event's object   |
//! | message contains `Deleted pod: ` + a non-blank run       | Red     | the captured name    |
//! | message contains `Pod sandbox changed, it will be killed and re-created.` | Yellow | the event's object |
//!
//! Matching is first-match-wins in table order. The deleted-pod rule is the
//! only one with a capture: the maximal run of non-blank characters after
//! the first eligible occurrence of its prefix names the pod that was
//! deleted, which may differ from the event's own involved object.

use vstd::prelude::*;
use vstd::string::StrSliceExecFns;

use crate::health::HealthBit;

verus! {

/// `p` occurs in `s` starting at position `i`.
pub open spec fn occurs_at(s: Seq<char>, p: Seq<char>, i: int) -> bool {
    0 <= i && i + p.len() <= s.len() && s.subrange(i, i + p.len() as int) == p
}

/// `p` occurs somewhere in `s`.
pub open spec fn contains_seq(s: Seq<char>, p: Seq<char>) -> bool {
    exists|i: int| occurs_at(s, p, i)
}

/// Blank characters: they terminate a captured pod name.
pub open spec fn spec_is_blank(c: char) -> bool {
    c == ' ' || c == '\t' || c == '\n' || c == '\r'
}

/// Whether `c` is a blank character.
pub fn is_blank(c: char) -> (r: bool)
    ensures
        r == spec_is_blank(c),
{
    c == ' ' || c == '\t' || c == '\n' || c == '\r'
}

/// End of the run of non-blank characters that starts at `j`: the first
/// position at or after `j` that is past the end of `s` or holds a blank.
pub open spec fn nonblank_run_end(s: Seq<char>, j: int) -> int
    decreases s.len() - j,
{
    if j < 0 || j >= s.len() {
        j
    } else if spec_is_blank(s[j]) {
        j
    } else {
        nonblank_run_end(s, j + 1)
    }
}

/// The prefix of the deleted-pod rule.
pub open spec fn deleted_prefix() -> Seq<char> {
    "Deleted pod: "@
}

/// The deleted-pod rule matches at `i`: its prefix occurs there, followed
/// by at least one non-blank character (the start of the pod name).
pub open spec fn deleted_match_at(s: Seq<char>, i: int) -> bool {
    &&& occurs_at(s, deleted_prefix(), i)
    &&& i + deleted_prefix().len() < s.len()
    &&& !spec_is_blank(s[i + deleted_prefix().len()])
}

/// The first position at or after `from` where the deleted-pod rule
/// matches, if any.
pub open spec fn first_deleted_match(s: Seq<char>, from: int) -> Option<int>
    decreases s.len() - from,
{
    if from < 0 || from >= s.len() {
        None
    } else if deleted_match_at(s, from) {
        Some(from)
    } else {
        first_deleted_match(s, from + 1)
    }
}

/// The pod name the deleted-pod rule captures from `s`, if it matches:
/// the maximal non-blank run after the first eligible prefix occurrence.
pub open spec fn spec_deleted_pod_target(s: Seq<char>) -> Option<Seq<char>> {
    match first_deleted_match(s, 0) {
        Some(i) => Some(
            s.subrange(
                i + deleted_prefix().len(),
                nonblank_run_end(s, i + deleted_prefix().len()),
            ),
        ),
        None => None,
    }
}

/// The verdict of the pattern table on message `s`, if any rule matches.
pub open spec fn spec_log_verdict(s: Seq<char>) -> Option<HealthBit> {
    if contains_seq(s, "Stopping container"@) {
        Some(HealthBit::Red)
    } else if contains_seq(s, "Liveness probe failed"@) {
        Some(HealthBit::Red)
    } else if spec_deleted_pod_target(s) is Some {
        Some(HealthBit::Red)
    } else if contains_seq(s, "Pod sandbox changed, it will be killed and re-created."@) {
        Some(HealthBit::Yellow)
    } else {
        None
    }
}

/// The alternate target resource the table names for message `s`: only the
/// deleted-pod rule has one, and only when it is the rule that decides.
pub open spec fn spec_log_target(s: Seq<char>) -> Option<Seq<char>> {
    if !contains_seq(s, "Stopping container"@) && !contains_seq(s, "Liveness probe failed"@) {
        spec_deleted_pod_target(s)
    } else {
        None
    }
}

/// One override decision of the pattern table.
#[derive(Debug, Clone)]
pub struct LogMatch {
    /// The health bit the matched rule forces.
    pub verdict: HealthBit,
    /// The alternate resource the rule names, where it names one; the
    /// event's own involved object is the target otherwise.
    pub target: Option<String>,
}

/// Whether `p` occurs in `s` starting at `i`.
fn occurs_at_exec(s: &str, p: &str, i: usize, s_len: usize, p_len: usize) -> (r: bool)
    requires
        s_len == s@.len(),
        p_len == p@.len(),
        i + p_len <= s_len,
    ensures
        r == occurs_at(s@, p@, i as int),
{
    let mut j: usize = 0;
    while j < p_len
        invariant
            j <= p_len,
            s_len == s@.len(),
            p_len == p@.len(),
            i + p_len <= s_len,
            forall|k: int| 0 <= k < j ==> s@[i + k] == p@[k],
        decreases p_len - j,
    {
        if s.get_char(i + j) != p.get_char(j) {
            assert(s@.subrange(i as int, i + p@.len() as int) != p@) by {
                assert(s@.subrange(i as int, i + p@.len() as int)[j as int] == s@[i + j]);
            }
            return false;
        }
        j += 1;
    }
    assert(s@.subrange(i as int, i + p@.len() as int) =~= p@);
    true
}

/// Whether `p` occurs somewhere in `s`.
pub fn contains_pattern(s: &str, p: &str) -> (r: bool)
    ensures
        r == contains_seq(s@, p@),
{
    let s_len = s.unicode_len();
    let p_len = p.unicode_len();
    if p_len > s_len {
        assert(forall|i: int| !occurs_at(s@, p@, i));
        return false;
    }
    if p_len == 0 {
        assert(s@.subrange(0, 0) =~= p@);
        assert(occurs_at(s@, p@, 0));
        return true;
    }
    let mut i: usize = 0;
    while i <= s_len - p_len
        invariant
            s_len == s@.len(),
            p_len == p@.len(),
            0 < p_len <= s_len,
            i <= s_len - p_len + 1,
            forall|k: int| 0 <= k < i ==> !occurs_at(s@, p@, k),
        decreases s_len - p_len - i + 1,
    {
        if occurs_at_exec(s, p, i, s_len, p_len) {
            return true;
        }
        i += 1;
    }
    assert(forall|k: int| !occurs_at(s@, p@, k));
    false
}

/// `nonblank_run_end` stays fixed along the run it delimits.
proof fn lemma_nonblank_run_end(s: Seq<char>, start: int, j: int)
    requires
        0 <= start <= j <= s.len(),
        forall|k: int| start <= k < j ==> !spec_is_blank(s[k]),
        j == s.len() || spec_is_blank(s[j]),
    ensures
        nonblank_run_end(s, start) == j,
    decreases j - start,
{
    if start < j {
        lemma_nonblank_run_end(s, start + 1, j);
    }
}

/// The captured pod name of the deleted-pod rule, if the rule matches `s`.
pub fn find_deleted_pod(s: &str) -> (r: Option<String>)
    ensures
        match r {
            Some(name) => spec_deleted_pod_target(s@) == Some(name@),
            None => spec_deleted_pod_target(s@) is None,
        },
{
    let s_len = s.unicode_len();
    let p = "Deleted pod: ";
    let p_len = p.unicode_len();
    proof {
        reveal_strlit("Deleted pod: ");
    }
    let mut i: usize = 0;
    while i < s_len
        invariant
            s_len == s@.len(),
            p_len == deleted_prefix().len(),
            p@ == deleted_prefix(),
            i <= s_len,
            first_deleted_match(s@, 0) == first_deleted_match(s@, i as int),
            forall|k: int| 0 <= k < i ==> !deleted_match_at(s@, k),
        decreases s_len - i,
    {
        let matched: bool = if p_len < s_len - i {
            occurs_at_exec(s, p, i, s_len, p_len) && !is_blank(s.get_char(i + p_len))
        } else {
            false
        };
        proof {
            if p_len >= s_len - i {
                assert(!deleted_match_at(s@, i as int));
            }
        }
        if matched {
            assert(deleted_match_at(s@, i as int));
            assert(first_deleted_match(s@, i as int) == Some(i as int));
            let start = i + p_len;
            let mut j: usize = start;
            while j < s_len && !is_blank(s.get_char(j))
                invariant
                    s_len == s@.len(),
                    start <= j <= s_len,
                    forall|k: int| start <= k < j ==> !spec_is_blank(s@[k]),
                decreases s_len - j,
            {
                j += 1;
            }
            proof {
                lemma_nonblank_run_end(s@, start as int, j as int);
            }
            let name = s.substring_char(start, j);
            return Some(name.to_owned());
        }
        i += 1;
    }
    assert(first_deleted_match(s@, s@.len() as int) is None);
    None
}

/// Consult the pattern table on `msg`: the first matching rule's verdict,
/// and the alternate target where the rule names one.
pub fn match_log_msg(msg: &str) -> (r: Option<LogMatch>)
    ensures
        match r {
            Some(m) => {
                &&& spec_log_verdict(msg@) == Some(m.verdict)
                &&& (match m.target {
                    Some(t) => spec_log_target(msg@) == Some(t@),
                    None => spec_log_target(msg@) is None,
                })
            },
            None => spec_log_verdict(msg@) is None && spec_log_target(msg@) is None,
        },
{
    if contains_pattern(msg, "Stopping container") {
        Some(LogMatch { verdict: HealthBit::Red, target: None })
    } else if contains_pattern(msg, "Liveness probe failed") {
        Some(LogMatch { verdict: HealthBit::Red, target: None })
    } else if let Some(name) = find_deleted_pod(msg) {
        Some(LogMatch { verdict: HealthBit::Red, target: Some(name) })
    } else if contains_pattern(msg, "Pod sandbox changed, it will be killed and re-created.") {
        Some(LogMatch { verdict: HealthBit::Yellow, target: None })
    } else {
        None
    }
}

} // verus!
