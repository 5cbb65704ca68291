//! The command lines that a synchronisation runs.
use crate::text::{same, starts_with, words};
use vstd::prelude::*;

verus! {

/// A command line out of its arguments.
fn line(parts: &[&str]) -> (out: Vec<String>)
    ensures
        words(out@) == parts@.map_values(|s: &str| s@),
{
    let mut out: Vec<String> = Vec::new();
    for i in 0..parts.len()
        invariant
            out.len() == i,
            forall|j: int| 0 <= j < i ==> #[trigger] out@[j]@ == parts@[j]@,
    {
        out.push(parts[i].to_owned());
    }
    assert(words(out@) =~= parts@.map_values(|s: &str| s@));
    out
}

/// Asks which commit a reference of a remote points to.
pub open spec fn ls_remote(url: Seq<char>, name: Seq<char>) -> Seq<Seq<char>> {
    seq!["git"@, "ls-remote"@, url, name]
}

/// The command line of `ls_remote`.
pub fn ls_remote_line(url: &str, name: &str) -> (out: Vec<String>)
    ensures
        words(out@) == ls_remote(url@, name@),
{
    let out = line(&["git", "ls-remote", url, name]);
    assert(words(out@) =~= ls_remote(url@, name@));
    out
}

/// Asks whether a remote has a branch.
pub open spec fn ls_heads(url: Seq<char>, name: Seq<char>) -> Seq<Seq<char>> {
    seq!["git"@, "ls-remote"@, "--heads"@, url, name]
}

/// The command line of `ls_heads`.
pub fn ls_heads_line(url: &str, name: &str) -> (out: Vec<String>)
    ensures
        words(out@) == ls_heads(url@, name@),
{
    let out = line(&["git", "ls-remote", "--heads", url, name]);
    assert(words(out@) =~= ls_heads(url@, name@));
    out
}

/// Fetches what a URL stands for.
pub open spec fn fetch(url: Seq<char>) -> Seq<Seq<char>> {
    seq!["git"@, "fetch"@, url]
}

/// The command line of `fetch`.
pub fn fetch_line(url: &str) -> (out: Vec<String>)
    ensures
        words(out@) == fetch(url@),
{
    let out = line(&["git", "fetch", url]);
    assert(words(out@) =~= fetch(url@));
    out
}

/// Fetches one reference from a URL.
pub open spec fn fetch_ref(url: Seq<char>, name: Seq<char>) -> Seq<Seq<char>> {
    seq!["git"@, "fetch"@, url, name]
}

/// The command line of `fetch_ref`.
pub fn fetch_ref_line(url: &str, name: &str) -> (out: Vec<String>)
    ensures
        words(out@) == fetch_ref(url@, name@),
{
    let out = line(&["git", "fetch", url, name]);
    assert(words(out@) =~= fetch_ref(url@, name@));
    out
}

/// Counts the root commits of the current history.
pub open spec fn count_roots() -> Seq<Seq<char>> {
    seq!["git"@, "rev-list"@, "HEAD"@, "--max-parents=0"@, "--count"@]
}

/// The command line of `count_roots`.
pub fn count_roots_line() -> (out: Vec<String>)
    ensures
        words(out@) == count_roots(),
{
    let out = line(&["git", "rev-list", "HEAD", "--max-parents=0", "--count"]);
    assert(words(out@) =~= count_roots());
    out
}

/// Asks which commit a name stands for.
pub open spec fn rev_parse(name: Seq<char>) -> Seq<Seq<char>> {
    seq!["git"@, "rev-parse"@, name]
}

/// The command line of `rev_parse`.
pub fn rev_parse_line(name: &str) -> (out: Vec<String>)
    ensures
        words(out@) == rev_parse(name@),
{
    let out = line(&["git", "rev-parse", name]);
    assert(words(out@) =~= rev_parse(name@));
    out
}

/// Merges what was fetched, always with a commit of its own.
pub open spec fn merge(message: Seq<char>) -> Seq<Seq<char>> {
    seq!["git"@, "merge"@, "FETCH_HEAD"@, "--no-verify"@, "--no-ff"@, "-m"@, message]
}

/// The command line of `merge`.
pub fn merge_line(message: &str) -> (out: Vec<String>)
    ensures
        words(out@) == merge(message@),
{
    let out = line(&["git", "merge", "FETCH_HEAD", "--no-verify", "--no-ff", "-m", message]);
    assert(words(out@) =~= merge(message@));
    out
}

/// Compares the tree with a commit; succeeds where there is no difference.
pub open spec fn diff_against(sha: Seq<char>) -> Seq<Seq<char>> {
    seq!["git"@, "diff"@, "--exit-code"@, sha]
}

/// The command line of `diff_against`.
pub fn diff_against_line(sha: &str) -> (out: Vec<String>)
    ensures
        words(out@) == diff_against(sha@),
{
    let out = line(&["git", "diff", "--exit-code", sha]);
    assert(words(out@) =~= diff_against(sha@));
    out
}

/// Stages the changes to tracked files.
pub open spec fn add_changes() -> Seq<Seq<char>> {
    seq!["git"@, "add"@, "-u"@]
}

/// The command line of `add_changes`.
pub fn add_changes_line() -> (out: Vec<String>)
    ensures
        words(out@) == add_changes(),
{
    let out = line(&["git", "add", "-u"]);
    assert(words(out@) =~= add_changes());
    out
}

/// Commits what is staged.
pub open spec fn commit(message: Seq<char>) -> Seq<Seq<char>> {
    seq!["git"@, "commit"@, "-m"@, message]
}

/// The command line of `commit`.
pub fn commit_line(message: &str) -> (out: Vec<String>)
    ensures
        words(out@) == commit(message@),
{
    let out = line(&["git", "commit", "-m", message]);
    assert(words(out@) =~= commit(message@));
    out
}

/// Puts the current branch and the tree back to a commit.
pub open spec fn reset(sha: Seq<char>) -> Seq<Seq<char>> {
    seq!["git"@, "reset"@, "--hard"@, sha]
}

/// The command line of `reset`.
pub fn reset_line(sha: &str) -> (out: Vec<String>)
    ensures
        words(out@) == reset(sha@),
{
    let out = line(&["git", "reset", "--hard", sha]);
    assert(words(out@) =~= reset(sha@));
    out
}

/// Checks that a name can name a branch.
pub open spec fn check_branch(branch: Seq<char>) -> Seq<Seq<char>> {
    seq!["git"@, "check-ref-format"@, "--branch"@, branch]
}

/// The command line of `check_branch`.
pub fn check_branch_line(branch: &str) -> (out: Vec<String>)
    ensures
        words(out@) == check_branch(branch@),
{
    let out = line(&["git", "check-ref-format", "--branch", branch]);
    assert(words(out@) =~= check_branch(branch@));
    out
}

/// Asks where the history that was fetched and a commit parted.
pub open spec fn merge_base(head: Seq<char>) -> Seq<Seq<char>> {
    seq!["git"@, "merge-base"@, "FETCH_HEAD"@, head]
}

/// The command line of `merge_base`.
pub fn merge_base_line(head: &str) -> (out: Vec<String>)
    ensures
        words(out@) == merge_base(head@),
{
    let out = line(&["git", "merge-base", "FETCH_HEAD", head]);
    assert(words(out@) =~= merge_base(head@));
    out
}

/// Lists the files in which two commits differ.
pub open spec fn changed_files(base: Seq<char>, head: Seq<char>) -> Seq<Seq<char>> {
    seq!["git"@, "diff"@, "--name-only"@, base, head]
}

/// The command line of `changed_files`.
pub fn changed_files_line(base: &str, head: &str) -> (out: Vec<String>)
    ensures
        words(out@) == changed_files(base@, head@),
{
    let out = line(&["git", "diff", "--name-only", base, head]);
    assert(words(out@) =~= changed_files(base@, head@));
    out
}

/// Opens a pull request with the GitHub tool.
pub open spec fn create_pull_request(title: Seq<char>, body: Seq<char>, repo: Seq<char>) -> Seq<Seq<char>> {
    seq!["gh"@, "pr"@, "create"@, "--title"@, title, "--body"@, body, "--repo"@, repo]
}

/// The command line of `create_pull_request`.
pub fn create_pull_request_line(title: &str, body: &str, repo: &str) -> (out: Vec<String>)
    ensures
        words(out@) == create_pull_request(title@, body@, repo@),
{
    let out = line(&["gh", "pr", "create", "--title", title, "--body", body, "--repo", repo]);
    assert(words(out@) =~= create_pull_request(title@, body@, repo@));
    out
}

/// Creates the branch `target` at a URL out of the local head, as an offer against `base`. The
/// lease on `target`, with nothing after the colon, has git refuse where `target` is there already.
pub open spec fn push_new(base: Seq<char>, target: Seq<char>, url: Seq<char>) -> Seq<Seq<char>> {
    seq![
        "git"@,
        "push"@,
        "-o"@,
        "base="@ + base,
        "--force-with-lease="@ + target + ":"@,
        url,
        "HEAD:"@ + target,
    ]
}

/// The command line of `push_new`.
pub fn push_new_line(base: &str, target: &str, url: &str) -> (out: Vec<String>)
    ensures
        words(out@) == push_new(base@, target@, url@),
{
    let mut option = "base=".to_owned();
    option.append(base);
    let mut lease = "--force-with-lease=".to_owned();
    lease.append(target);
    lease.append(":");
    let mut refspec = "HEAD:".to_owned();
    refspec.append(target);
    let out = line(&["git", "push", "-o", option.as_str(), lease.as_str(), url, refspec.as_str()]);
    assert(words(out@) =~= push_new(base@, target@, url@));
    out
}

/// The full name of a branch: `HEAD` and names under `refs/` stand for themselves.
pub open spec fn full_ref(branch: Seq<char>) -> Seq<char> {
    if branch == "HEAD"@ || "refs/"@.is_prefix_of(branch) {
        branch
    } else {
        branch_ref(branch)
    }
}

/// The reference of the branch `branch`.
pub open spec fn branch_ref(branch: Seq<char>) -> Seq<char> {
    "refs/heads/"@ + branch
}

/// The full name of a branch.
pub fn full_ref_of(branch: &str) -> (out: String)
    ensures
        out@ == full_ref(branch@),
{
    if same(branch, "HEAD") || starts_with(branch, "refs/") {
        branch.to_owned()
    } else {
        branch_ref_of(branch)
    }
}

/// The reference of the branch `branch`.
pub fn branch_ref_of(branch: &str) -> (out: String)
    ensures
        out@ == branch_ref(branch@),
{
    let mut out = "refs/heads/".to_owned();
    out.append(branch);
    out
}

/// What git and the GitHub tool are told.
pub proof fn law_command_lines(a: Seq<char>, b: Seq<char>, c: Seq<char>)
    ensures
        ls_remote(a, b) == seq!["git"@, "ls-remote"@, a, b],
        ls_heads(a, b) == seq!["git"@, "ls-remote"@, "--heads"@, a, b],
        fetch(a) == seq!["git"@, "fetch"@, a],
        fetch_ref(a, b) == seq!["git"@, "fetch"@, a, b],
        count_roots() == seq!["git"@, "rev-list"@, "HEAD"@, "--max-parents=0"@, "--count"@],
        rev_parse(a) == seq!["git"@, "rev-parse"@, a],
        merge(a) == seq!["git"@, "merge"@, "FETCH_HEAD"@, "--no-verify"@, "--no-ff"@, "-m"@, a],
        diff_against(a) == seq!["git"@, "diff"@, "--exit-code"@, a],
        add_changes() == seq!["git"@, "add"@, "-u"@],
        commit(a) == seq!["git"@, "commit"@, "-m"@, a],
        reset(a) == seq!["git"@, "reset"@, "--hard"@, a],
        check_branch(a) == seq!["git"@, "check-ref-format"@, "--branch"@, a],
        merge_base(a) == seq!["git"@, "merge-base"@, "FETCH_HEAD"@, a],
        changed_files(a, b) == seq!["git"@, "diff"@, "--name-only"@, a, b],
        create_pull_request(a, b, c) == seq![
            "gh"@,
            "pr"@,
            "create"@,
            "--title"@,
            a,
            "--body"@,
            b,
            "--repo"@,
            c,
        ],
        push_new(a, b, c) == seq![
            "git"@,
            "push"@,
            "-o"@,
            "base="@ + a,
            "--force-with-lease="@ + b + ":"@,
            c,
            "HEAD:"@ + b,
        ],
{
}

/// A branch has the name that git knows it by in full: `HEAD`, and what begins with `refs/`, are such
/// names already; any other branch is one of the heads.
pub proof fn law_full_name_of_branch(branch: Seq<char>, rest: Seq<char>)
    ensures
        branch_ref(branch) == "refs/heads/"@ + branch,
        full_ref("HEAD"@) == "HEAD"@,
        full_ref("refs/"@ + rest) == "refs/"@ + rest,
        branch != "HEAD"@ && !(branch.len() >= 5 && branch[0] == 'r' && branch[1] == 'e' && branch[2] == 'f'
            && branch[3] == 's' && branch[4] == '/') ==> full_ref(branch) == "refs/heads/"@ + branch,
{
    reveal_strlit("refs/");
    let whole = "refs/"@ + rest;
    assert(whole.subrange(0, 5) =~= "refs/"@);
    if "refs/"@.is_prefix_of(branch) {
        assert(branch.subrange(0, 5) =~= "refs/"@);
        assert(forall|i: int| 0 <= i < 5 ==> branch[i] == #[trigger] branch.subrange(0, 5)[i]);
        assert(branch[0] == branch.subrange(0, 5)[0]);
        assert(branch[1] == branch.subrange(0, 5)[1]);
        assert(branch[2] == branch.subrange(0, 5)[2]);
        assert(branch[3] == branch.subrange(0, 5)[3]);
        assert(branch[4] == branch.subrange(0, 5)[4]);
    }
}

} // verus!
