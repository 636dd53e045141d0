//! Names and reference specifications that the pipeline hands to git.

use vstd::prelude::*;

verus! {

/// The message under which local changes are stashed; only a stash whose
/// message ends with it is ever restored by an abort.
pub const STASH_MESSAGE: &'static str = "sup stash";

/// The remote used when the current branch tracks none.
pub const DEFAULT_REMOTE: &'static str = "origin";

/// The branch used when HEAD is not on a branch.
pub const DEFAULT_BRANCH: &'static str = "master";

/// The text that marks a stash as created by this tool.
pub open spec fn stash_marker() -> Seq<char> {
    STASH_MESSAGE@
}

/// `s` ends with `suffix`.
pub open spec fn has_suffix(s: Seq<char>, suffix: Seq<char>) -> bool {
    suffix.len() <= s.len() && s.subrange(s.len() - suffix.len(), s.len() as int) == suffix
}

/// Whether `s` ends with `suffix`, compared character by character.
pub fn ends_with(s: &str, suffix: &str) -> (r: bool)
    ensures
        r == has_suffix(s@, suffix@),
{
    let n = s.unicode_len();
    let m = suffix.unicode_len();
    if m > n {
        return false;
    }
    let mut i: usize = 0;
    while i < m
        invariant
            m <= n,
            n == s@.len(),
            m == suffix@.len(),
            i <= m,
            forall|j: int| 0 <= j < i ==> s@[n - m + j] == suffix@[j],
        decreases m - i,
    {
        if s.get_char(n - m + i) != suffix.get_char(i) {
            assert(s@.subrange(n - m, n as int)[i as int] != suffix@[i as int]);
            return false;
        }
        i += 1;
    }
    assert(s@.subrange(n - m, n as int) =~= suffix@);
    true
}

/// Whether a stash message is the one this tool writes.
pub fn is_sup_stash(message: &str) -> (r: bool)
    ensures
        r == has_suffix(message@, stash_marker()),
{
    ends_with(message, STASH_MESSAGE)
}

/// `refs/heads/<branch>`
pub open spec fn branch_ref_of(branch: Seq<char>) -> Seq<char> {
    "refs/heads/"@ + branch
}

/// `refs/remotes/<remote>/<branch>`
pub open spec fn tracking_ref_of(remote: Seq<char>, branch: Seq<char>) -> Seq<char> {
    "refs/remotes/"@ + remote + "/"@ + branch
}

/// `refs/heads/<branch>:refs/remotes/<remote>/<branch>`
pub open spec fn fetch_refspec_of(remote: Seq<char>, branch: Seq<char>) -> Seq<char> {
    branch_ref_of(branch) + ":"@ + tracking_ref_of(remote, branch)
}

/// `refs/heads/<branch>:refs/heads/<branch>`
pub open spec fn push_refspec_of(branch: Seq<char>) -> Seq<char> {
    branch_ref_of(branch) + ":"@ + branch_ref_of(branch)
}

/// The local reference of a branch.
pub fn branch_ref(branch: &str) -> (r: String)
    ensures
        r@ == branch_ref_of(branch@),
{
    let mut r = String::from_str("refs/heads/");
    r.append(branch);
    r
}

/// The remote-tracking reference that a fetch of `branch` from `remote`
/// updates.
pub fn tracking_ref(remote: &str, branch: &str) -> (r: String)
    ensures
        r@ == tracking_ref_of(remote@, branch@),
{
    let mut r = String::from_str("refs/remotes/");
    r.append(remote);
    r.append("/");
    r.append(branch);
    r
}

/// The refspec that fetches `branch` of `remote` into its tracking reference.
pub fn fetch_refspec(remote: &str, branch: &str) -> (r: String)
    ensures
        r@ == fetch_refspec_of(remote@, branch@),
{
    let mut r = branch_ref(branch);
    r.append(":");
    let t = tracking_ref(remote, branch);
    r.append(t.as_str());
    assert(r@ =~= fetch_refspec_of(remote@, branch@));
    r
}

/// The refspec that publishes `branch` under the same name.
pub fn push_refspec(branch: &str) -> (r: String)
    ensures
        r@ == push_refspec_of(branch@),
{
    let mut r = branch_ref(branch);
    r.append(":");
    let t = branch_ref(branch);
    r.append(t.as_str());
    r
}

} // verus!
