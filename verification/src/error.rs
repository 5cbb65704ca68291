//! What can go wrong in a synchronisation, and how it is put into words.
use vstd::prelude::*;

verus! {

/// Why a synchronisation, or its set-up, did not succeed. `S` holds texts: names that the
/// message repeats, and the words in which a step outside this library reported its failure.
#[derive(Debug, PartialEq, Eq)]
pub enum Fault<S> {
    /// A step failed.
    Step(S),
    /// The upstream commit could not be asked for.
    FetchUpstreamCommit(S),
    /// The remote does not have the upstream branch.
    BranchNotAdvertised,
    /// The Josh proxy did not start.
    StartProxy(S),
    /// The filtered history could not be fetched.
    FetchThroughJosh(S),
    /// The root commits could not be counted.
    CountRoots(S),
    /// The count of the root commits is not a number.
    RootCount(S),
    /// The merge stopped.
    Merge(S),
    /// The merge brought a new root commit.
    NewRootCommit,
    /// The commit that was pulled could not be recorded.
    WriteRustVersion(S),
    /// A push needs a username or a configured repository to push to.
    UsernameNeeded,
    /// The configured upstream repository has no owner.
    InvalidUpstreamRepo,
    /// The branch that a push would create is already there.
    TargetBranchExists { repo: S, branch: S },
    /// `josh-filter` is not on the path, and must not be installed here.
    FilterNotProvisioned,
    /// `josh-filter` could not be installed.
    FilterNotInstalled,
    /// The filtered local head is not known.
    FilteredHead(S),
    /// What was pushed does not come back as what was meant.
    NotRoundTrip { expected: S, got: S },
    /// A configuration has both a path and a filter.
    BothPathAndFilter,
    /// A configuration has neither a path nor a filter.
    NeitherPathNorFilter,
    /// A mirror is not of the form `organization/repository`.
    InvalidMirror,
    /// Both a proxy URL and a proxy binary are given.
    BothProxies,
    /// A CI job has no proxy URL.
    ProxyUrlNeeded,
    /// `josh-proxy` could not be installed.
    ProxyNotInstalled,
    /// The repository to push to has no owner.
    InvalidPushRepo,
}

/// The error of this library.
pub type SyncError = Fault<String>;

impl View for Fault<String> {
    type V = Fault<Seq<char>>;

    open spec fn view(&self) -> Fault<Seq<char>> {
        match *self {
            Fault::Step(s) => Fault::Step(s@),
            Fault::FetchUpstreamCommit(s) => Fault::FetchUpstreamCommit(s@),
            Fault::BranchNotAdvertised => Fault::BranchNotAdvertised,
            Fault::StartProxy(s) => Fault::StartProxy(s@),
            Fault::FetchThroughJosh(s) => Fault::FetchThroughJosh(s@),
            Fault::CountRoots(s) => Fault::CountRoots(s@),
            Fault::RootCount(s) => Fault::RootCount(s@),
            Fault::Merge(s) => Fault::Merge(s@),
            Fault::NewRootCommit => Fault::NewRootCommit,
            Fault::WriteRustVersion(s) => Fault::WriteRustVersion(s@),
            Fault::UsernameNeeded => Fault::UsernameNeeded,
            Fault::InvalidUpstreamRepo => Fault::InvalidUpstreamRepo,
            Fault::TargetBranchExists { repo, branch } => Fault::TargetBranchExists {
                repo: repo@,
                branch: branch@,
            },
            Fault::FilterNotProvisioned => Fault::FilterNotProvisioned,
            Fault::FilterNotInstalled => Fault::FilterNotInstalled,
            Fault::FilteredHead(s) => Fault::FilteredHead(s@),
            Fault::NotRoundTrip { expected, got } => Fault::NotRoundTrip {
                expected: expected@,
                got: got@,
            },
            Fault::BothPathAndFilter => Fault::BothPathAndFilter,
            Fault::NeitherPathNorFilter => Fault::NeitherPathNorFilter,
            Fault::InvalidMirror => Fault::InvalidMirror,
            Fault::BothProxies => Fault::BothProxies,
            Fault::ProxyUrlNeeded => Fault::ProxyUrlNeeded,
            Fault::ProxyNotInstalled => Fault::ProxyNotInstalled,
            Fault::InvalidPushRepo => Fault::InvalidPushRepo,
        }
    }
}

impl Fault<Seq<char>> {
    /// The message of a fault.
    pub open spec fn text(self) -> Seq<char> {
        match self {
            Fault::Step(words) => words,
            Fault::FetchUpstreamCommit(_) => "cannot fetch upstream commit"@,
            Fault::BranchNotAdvertised => "upstream branch was not advertised by the remote"@,
            Fault::StartProxy(_) => "cannot start josh-proxy"@,
            Fault::FetchThroughJosh(_) => "cannot fetch git state through Josh"@,
            Fault::CountRoots(_) => "failed to determine the number of root commits"@,
            Fault::RootCount(words) => words,
            Fault::Merge(_) => "FAILED to merge new commits, something went wrong"@,
            Fault::NewRootCommit => {
                "Josh created a new root commit. This is probably not the history you want."@
            },
            Fault::WriteRustVersion(_) => "cannot write rust-version file"@,
            Fault::UsernameNeeded => "push requires a username or push-repo"@,
            Fault::InvalidUpstreamRepo => "invalid upstream-repo"@,
            Fault::TargetBranchExists { repo, branch } => {
                "target branch already exists: "@ + repo + "/"@ + branch
            },
            Fault::FilterNotProvisioned => {
                "josh-filter must be provisioned on PATH for subtree-filter checks"@
            },
            Fault::FilterNotInstalled => "Could not install josh-filter"@,
            Fault::FilteredHead(_) => "failed to get FILTERED_HEAD"@,
            Fault::NotRoundTrip { expected, got } => {
                "Josh created a non-roundtrip push! Do NOT merge this upstream!\nExpected "@ + expected
                    + ", got "@ + got + "."@
            },
            Fault::BothPathAndFilter => "Cannot specify both `path` and `filter`"@,
            Fault::NeitherPathNorFilter => "Must specify one of `path` and `filter`"@,
            Fault::InvalidMirror => "mirror must be organization/repository"@,
            Fault::BothProxies => "cannot specify both a proxy URL and local binary"@,
            Fault::ProxyUrlNeeded => {
                "CI requires --proxy-url, JOSH_PROXY_URL, or proxy-url in the config"@
            },
            Fault::ProxyNotInstalled => "Could not install josh-proxy"@,
            Fault::InvalidPushRepo => "invalid push-repo"@,
        }
    }

    /// What lies behind a fault whose message only says what was being done.
    pub open spec fn reason(self) -> Option<Seq<char>> {
        match self {
            Fault::FetchUpstreamCommit(words) => Some(words),
            Fault::StartProxy(words) => Some(words),
            Fault::FetchThroughJosh(words) => Some(words),
            Fault::CountRoots(words) => Some(words),
            Fault::Merge(words) => Some(words),
            Fault::WriteRustVersion(words) => Some(words),
            Fault::FilteredHead(words) => Some(words),
            _ => None,
        }
    }
}

impl Fault<String> {
    /// The message of this fault.
    pub fn message(&self) -> (out: String)
        ensures
            out@ == self@.text(),
    {
        match self {
            Fault::Step(words) => words.clone(),
            Fault::FetchUpstreamCommit(_) => "cannot fetch upstream commit".to_owned(),
            Fault::BranchNotAdvertised => {
                "upstream branch was not advertised by the remote".to_owned()
            },
            Fault::StartProxy(_) => "cannot start josh-proxy".to_owned(),
            Fault::FetchThroughJosh(_) => "cannot fetch git state through Josh".to_owned(),
            Fault::CountRoots(_) => "failed to determine the number of root commits".to_owned(),
            Fault::RootCount(words) => words.clone(),
            Fault::Merge(_) => "FAILED to merge new commits, something went wrong".to_owned(),
            Fault::NewRootCommit => {
                "Josh created a new root commit. This is probably not the history you want.".to_owned()
            },
            Fault::WriteRustVersion(_) => "cannot write rust-version file".to_owned(),
            Fault::UsernameNeeded => "push requires a username or push-repo".to_owned(),
            Fault::InvalidUpstreamRepo => "invalid upstream-repo".to_owned(),
            Fault::TargetBranchExists { repo, branch } => {
                let mut out = "target branch already exists: ".to_owned();
                out.append(repo.as_str());
                out.append("/");
                out.append(branch.as_str());
                out
            },
            Fault::FilterNotProvisioned => {
                "josh-filter must be provisioned on PATH for subtree-filter checks".to_owned()
            },
            Fault::FilterNotInstalled => "Could not install josh-filter".to_owned(),
            Fault::FilteredHead(_) => "failed to get FILTERED_HEAD".to_owned(),
            Fault::NotRoundTrip { expected, got } => {
                let mut out =
                    "Josh created a non-roundtrip push! Do NOT merge this upstream!\nExpected ".to_owned();
                out.append(expected.as_str());
                out.append(", got ");
                out.append(got.as_str());
                out.append(".");
                out
            },
            Fault::BothPathAndFilter => "Cannot specify both `path` and `filter`".to_owned(),
            Fault::NeitherPathNorFilter => "Must specify one of `path` and `filter`".to_owned(),
            Fault::InvalidMirror => "mirror must be organization/repository".to_owned(),
            Fault::BothProxies => "cannot specify both a proxy URL and local binary".to_owned(),
            Fault::ProxyUrlNeeded => {
                "CI requires --proxy-url, JOSH_PROXY_URL, or proxy-url in the config".to_owned()
            },
            Fault::ProxyNotInstalled => "Could not install josh-proxy".to_owned(),
            Fault::InvalidPushRepo => "invalid push-repo".to_owned(),
        }
    }

    /// What lies behind this fault, where its message only says what was being done.
    pub fn cause(&self) -> (out: Option<String>)
        ensures
            crate::text::maybe(out) == self@.reason(),
    {
        match self {
            Fault::FetchUpstreamCommit(words) => Some(words.clone()),
            Fault::StartProxy(words) => Some(words.clone()),
            Fault::FetchThroughJosh(words) => Some(words.clone()),
            Fault::CountRoots(words) => Some(words.clone()),
            Fault::Merge(words) => Some(words.clone()),
            Fault::WriteRustVersion(words) => Some(words.clone()),
            Fault::FilteredHead(words) => Some(words.clone()),
            _ => None,
        }
    }
}

/// How each fault of a pull is put into words.
pub proof fn law_words_of_faults(a: Seq<char>, b: Seq<char>)
    ensures
        Fault::Step(a).text() == a,
        Fault::FetchUpstreamCommit(a).text() == "cannot fetch upstream commit"@,
        Fault::<Seq<char>>::BranchNotAdvertised.text() == "upstream branch was not advertised by the remote"@,
        Fault::StartProxy(a).text() == "cannot start josh-proxy"@,
        Fault::FetchThroughJosh(a).text() == "cannot fetch git state through Josh"@,
        Fault::CountRoots(a).text() == "failed to determine the number of root commits"@,
        Fault::RootCount(a).text() == a,
        Fault::Merge(a).text() == "FAILED to merge new commits, something went wrong"@,
        Fault::<Seq<char>>::NewRootCommit.text()
            == "Josh created a new root commit. This is probably not the history you want."@,
        Fault::WriteRustVersion(a).text() == "cannot write rust-version file"@,
{
}

/// How each fault of a push, or of a set-up, is put into words.
pub proof fn law_words_of_other_faults(a: Seq<char>, b: Seq<char>)
    ensures
        Fault::<Seq<char>>::UsernameNeeded.text() == "push requires a username or push-repo"@,
        Fault::<Seq<char>>::InvalidUpstreamRepo.text() == "invalid upstream-repo"@,
        (Fault::TargetBranchExists { repo: a, branch: b }).text() == "target branch already exists: "@ + a + "/"@ + b,
        Fault::<Seq<char>>::FilterNotProvisioned.text()
            == "josh-filter must be provisioned on PATH for subtree-filter checks"@,
        Fault::<Seq<char>>::FilterNotInstalled.text() == "Could not install josh-filter"@,
        Fault::FilteredHead(a).text() == "failed to get FILTERED_HEAD"@,
        (Fault::NotRoundTrip { expected: a, got: b }).text()
            == "Josh created a non-roundtrip push! Do NOT merge this upstream!\nExpected "@ + a + ", got "@ + b + "."@,
        Fault::<Seq<char>>::BothPathAndFilter.text() == "Cannot specify both `path` and `filter`"@,
        Fault::<Seq<char>>::NeitherPathNorFilter.text() == "Must specify one of `path` and `filter`"@,
        Fault::<Seq<char>>::InvalidMirror.text() == "mirror must be organization/repository"@,
        Fault::<Seq<char>>::BothProxies.text() == "cannot specify both a proxy URL and local binary"@,
        Fault::<Seq<char>>::ProxyUrlNeeded.text()
            == "CI requires --proxy-url, JOSH_PROXY_URL, or proxy-url in the config"@,
        Fault::<Seq<char>>::ProxyNotInstalled.text() == "Could not install josh-proxy"@,
        Fault::<Seq<char>>::InvalidPushRepo.text() == "invalid push-repo"@,
{
}

/// The words of a step that failed are never lost: they are the message, or they lie behind it.
pub proof fn law_words_are_kept(fault: Fault<Seq<char>>, words: Seq<char>)
    ensures
        fault == Fault::Step(words) || fault == Fault::RootCount(words) ==> fault.text() == words
            && (fault.reason() is None),
        fault == Fault::FetchUpstreamCommit(words) || fault == Fault::StartProxy(words) || fault
            == Fault::FetchThroughJosh(words) || fault == Fault::CountRoots(words) || fault == Fault::Merge(words)
            || fault == Fault::WriteRustVersion(words) || fault == Fault::FilteredHead(words) ==> fault.reason()
            == Some(words),
        fault.reason() is Some ==> (fault is FetchUpstreamCommit || fault is StartProxy || fault is FetchThroughJosh
            || fault is CountRoots || fault is Merge || fault is WriteRustVersion || fault is FilteredHead),
{
}

} // verus!
