//! The configuration of a subtree repository.
use crate::error::{Fault, SyncError};
use crate::sync::{FilterVersion, DEFAULT_UPSTREAM_REPO};
use crate::text::{
    law_only_the_end_is_taken_off, law_split_at_first, law_split_parts, maybe, split_first, split_once, trim_end,
    without_trailing, words,
};
use vstd::prelude::*;

verus! {

/// Execute an operation after a pull, and if something changes in the local git state,
/// perform a commit.
#[derive(Debug, Clone, PartialEq, Eq)]
pub struct PostPullOperation {
    /// Execute a command with these arguments
    /// At least one argument has to be present.
    /// You can run e.g. bash if you want to do more complicated stuff.
    pub cmd: Vec<String>,
    /// If the git state has changed after `cmd`, add all changes to the index (`git add -u`)
    /// and create a commit with the following commit message.
    pub commit_message: String,
}

/// The texts of a `PostPullOperation`.
pub struct OperationView {
    pub cmd: Seq<Seq<char>>,
    pub commit_message: Seq<char>,
}

impl View for PostPullOperation {
    type V = OperationView;

    open spec fn view(&self) -> OperationView {
        OperationView { cmd: words(self.cmd@), commit_message: self.commit_message@ }
    }
}

/// Which mirror belongs to which part of which upstream repository, and how the two are reached.
#[derive(Debug, Clone, PartialEq, Eq)]
pub struct JoshConfig {
    pub org: String,
    pub repo: String,
    pub upstream_repo: String,
    pub upstream_branch: String,
    pub push_repo: Option<String>,
    pub proxy_url: Option<String>,
    pub github_url: String,
    /// Relative path where the subtree is located in the upstream repository.
    /// For example `src/doc/rustc-dev-guide`.
    pub path: Option<String>,
    /// Optional filter specification for Josh.
    /// It cannot be used together with `path`.
    pub filter: Option<String>,
    /// Operation(s) that should be performed after a pull.
    /// Can be used to post-process the state of the repository after a pull happens.
    pub post_pull: Vec<PostPullOperation>,
    /// Optional subtree filter applied to the local `HEAD` during round-trip check.
    pub subtree_filter: Option<String>,
    /// Optional filter version that determines which post-processing will be applied to the
    /// specified filter.
    ///
    /// This exists for backwards compatibility with repositories using an older filter syntax.
    pub filter_version: FilterVersion,
}

/// The texts of a `JoshConfig`.
pub struct ConfigView {
    pub org: Seq<char>,
    pub repo: Seq<char>,
    pub upstream_repo: Seq<char>,
    pub upstream_branch: Seq<char>,
    pub push_repo: Option<Seq<char>>,
    pub proxy_url: Option<Seq<char>>,
    pub github_url: Seq<char>,
    pub path: Option<Seq<char>>,
    pub filter: Option<Seq<char>>,
    pub post_pull: Seq<OperationView>,
    pub subtree_filter: Option<Seq<char>>,
    pub filter_version: FilterVersion,
}

impl View for JoshConfig {
    type V = ConfigView;

    open spec fn view(&self) -> ConfigView {
        ConfigView {
            org: self.org@,
            repo: self.repo@,
            upstream_repo: self.upstream_repo@,
            upstream_branch: self.upstream_branch@,
            push_repo: maybe(self.push_repo),
            proxy_url: maybe(self.proxy_url),
            github_url: self.github_url@,
            path: maybe(self.path),
            filter: maybe(self.filter),
            post_pull: self.post_pull@.map_values(|op: PostPullOperation| op@),
            subtree_filter: maybe(self.subtree_filter),
            filter_version: self.filter_version,
        }
    }
}

impl ConfigView {
    /// Whether the subtree is given in exactly one way: by its path or by a filter.
    pub open spec fn valid(self) -> bool {
        self.path is Some <==> self.filter is None
    }

    /// What is wrong with a configuration.
    pub open spec fn problem(self) -> Option<Fault<Seq<char>>> {
        if self.path is Some && self.filter is Some {
            Some(Fault::BothPathAndFilter)
        } else if self.path is None && self.filter is None {
            Some(Fault::NeitherPathNorFilter)
        } else {
            None
        }
    }

    /// The mirror, with its owner.
    pub open spec fn mirror(self) -> Seq<char> {
        self.org + "/"@ + self.repo
    }

    /// Where git finds `repo`.
    pub open spec fn url_of(self, repo: Seq<char>) -> Seq<char> {
        without_trailing(self.github_url, '/') + "/"@ + repo
    }

    /// The repository that a push of `username` goes to.
    pub open spec fn push_target(self, username: Seq<char>) -> Result<Seq<char>, Fault<Seq<char>>> {
        match self.push_repo {
            Some(repo) => Ok(repo),
            None => if username.len() == 0 {
                Err(Fault::UsernameNeeded)
            } else {
                match split_first(self.upstream_repo, '/') {
                    Some((_, name)) => Ok(username + "/"@ + name),
                    None => Err(Fault::InvalidUpstreamRepo),
                }
            },
        }
    }

    /// The configuration under the name of another mirror.
    pub open spec fn with_mirror(self, mirror: Option<Seq<char>>) -> Result<ConfigView, Fault<Seq<char>>> {
        match mirror {
            Some(mirror) => match split_first(mirror, '/') {
                Some((org, repo)) => Ok(ConfigView { org, repo, ..self }),
                None => Err(Fault::InvalidMirror),
            },
            None => Ok(self),
        }
    }

    /// The configuration with another filter, which takes the place of a path too.
    pub open spec fn with_filter(self, filter: Option<Seq<char>>) -> ConfigView {
        match filter {
            Some(_) => ConfigView { path: None, filter, ..self },
            None => self,
        }
    }

    /// The configuration with another upstream branch.
    pub open spec fn with_branch(self, branch: Option<Seq<char>>) -> ConfigView {
        match branch {
            Some(upstream_branch) => ConfigView { upstream_branch, ..self },
            None => self,
        }
    }
}

impl JoshConfig {
    /// The configuration that a new mirror of `org` starts from.
    pub fn initial(org: &str) -> (config: JoshConfig)
        ensures
            config@ == (ConfigView {
                org: org@,
                repo: "<repository-name>"@,
                upstream_repo: "rust-lang/rust"@,
                upstream_branch: "HEAD"@,
                push_repo: None,
                proxy_url: None,
                github_url: "https://github.com"@,
                path: Some("<relative-subtree-path>"@),
                filter: None,
                post_pull: Seq::empty(),
                subtree_filter: None,
                filter_version: FilterVersion::Version2,
            }),
            config@.valid(),
    {
        let config = JoshConfig {
            org: org.to_owned(),
            repo: "<repository-name>".to_owned(),
            upstream_repo: DEFAULT_UPSTREAM_REPO.to_owned(),
            upstream_branch: "HEAD".to_owned(),
            push_repo: None,
            proxy_url: None,
            github_url: "https://github.com".to_owned(),
            path: Some("<relative-subtree-path>".to_owned()),
            filter: None,
            post_pull: Vec::new(),
            subtree_filter: None,
            filter_version: FilterVersion::latest(),
        };
        assert(config@.post_pull =~= Seq::empty());
        config
    }

    /// The mirror, with its owner.
    pub fn full_repo_name(&self) -> (out: String)
        ensures
            out@ == self@.mirror(),
    {
        let mut out = self.org.clone();
        out.append("/");
        out.append(self.repo.as_str());
        out
    }

    /// Where git finds `repo`.
    pub fn git_url(&self, repo: &str) -> (out: String)
        ensures
            out@ == self@.url_of(repo@),
    {
        let mut out = trim_end(self.github_url.as_str(), '/');
        out.append("/");
        out.append(repo);
        out
    }

    /// The repository that a push of `username` goes to.
    pub fn push_repo(&self, username: &str) -> (out: Result<String, SyncError>)
        ensures
            match out {
                Ok(repo) => self@.push_target(username@) == Ok::<Seq<char>, Fault<Seq<char>>>(repo@),
                Err(fault) => self@.push_target(username@) == Err::<Seq<char>, Fault<Seq<char>>>(fault@),
            },
    {
        if let Some(repo) = &self.push_repo {
            return Ok(repo.clone());
        }
        if username.is_empty() {
            return Err(Fault::UsernameNeeded);
        }
        match split_once(self.upstream_repo.as_str(), '/') {
            Some((_, name)) => {
                let mut out = username.to_owned();
                out.append("/");
                out.append(name.as_str());
                Ok(out)
            },
            None => Err(Fault::InvalidUpstreamRepo),
        }
    }

    /// Checks that the subtree is given in exactly one way.
    pub fn validate(&self) -> (out: Result<(), SyncError>)
        ensures
            out is Ok <==> self@.valid(),
            match out {
                Ok(_) => self@.problem() is None,
                Err(fault) => self@.problem() == Some(fault@),
            },
    {
        if self.path.is_some() == self.filter.is_some() {
            if self.path.is_some() {
                Err(Fault::BothPathAndFilter)
            } else {
                Err(Fault::NeitherPathNorFilter)
            }
        } else {
            Ok(())
        }
    }
}

/// The filter version of a configuration that names none.
pub open spec fn unnamed_version() -> FilterVersion {
    FilterVersion::Version1
}

/// Whether a filter version is left out when a configuration is written.
pub open spec fn left_out(version: FilterVersion) -> bool {
    version == FilterVersion::Version1
}

/// A filter version is read back from what is written of it: from its number, or, where it is
/// left out, from there being none.
pub proof fn law_filter_version_is_read_back(version: FilterVersion)
    ensures
        left_out(version) ==> unnamed_version() == version,
        FilterVersion::of_number(version.as_number()) == Some(version),
{
}

/// The filter version of a configuration that names none.
pub fn default_filter_version() -> (version: FilterVersion)
    ensures
        version == unnamed_version(),
{
    FilterVersion::Version1
}

/// Whether a filter version is left out when a configuration is written.
pub fn skip_serializing_filter_version(version: &FilterVersion) -> (skip: bool)
    ensures
        skip == left_out(*version),
{
    match version {
        FilterVersion::Version1 => true,
        FilterVersion::Version2 => false,
    }
}

/// The owner of a mirror whose configuration names none.
pub fn default_org() -> (out: String)
    ensures
        out@ == "rust-lang"@,
{
    "rust-lang".to_owned()
}

/// The upstream repository of a configuration that names none.
pub fn default_upstream_repo() -> (out: String)
    ensures
        out@ == "rust-lang/rust"@,
{
    DEFAULT_UPSTREAM_REPO.to_owned()
}

/// The upstream branch of a configuration that names none.
pub fn default_upstream_branch() -> (out: String)
    ensures
        out@ == "HEAD"@,
{
    "HEAD".to_owned()
}

/// The git host of a configuration that names none.
pub fn default_github_url() -> (out: String)
    ensures
        out@ == "https://github.com"@,
{
    "https://github.com".to_owned()
}

/// A slash at the end of the git host's address makes no difference to any repository's address.
pub proof fn law_trailing_slash_makes_no_difference(config: ConfigView, repo: Seq<char>)
    ensures
        (ConfigView { github_url: config.github_url.push('/'), ..config }).url_of(repo) == config.url_of(repo),
{
    assert(config.github_url.push('/').drop_last() =~= config.github_url);
}

/// The address of the git host, as it goes into a repository's address, ends without a slash.
pub proof fn law_host_ends_without_slash(host: Seq<char>)
    ensures
        without_trailing(host, '/').is_prefix_of(host),
        without_trailing(host, '/').len() > 0 ==> without_trailing(host, '/').last() != '/',
    decreases host.len(),
{
    if host.len() > 0 && host.last() == '/' {
        law_host_ends_without_slash(host.drop_last());
        let out = without_trailing(host, '/');
        assert(host.drop_last().subrange(0, out.len() as int) =~= host.subrange(0, out.len() as int));
    } else {
        assert(host.subrange(0, host.len() as int) =~= host);
    }
}

/// The address of a repository is the address of the git host, without the slashes at its end, a
/// slash and the repository. The mirror is known by its owner, a slash and its name.
pub proof fn law_addresses(config: ConfigView, repo: Seq<char>) -> (n: int)
    ensures
        config.mirror() == config.org + "/"@ + config.repo,
        0 <= n <= config.github_url.len(),
        config.url_of(repo) == config.github_url.take(n) + "/"@ + repo,
        forall|i: int| n <= i < config.github_url.len() ==> config.github_url[i] == '/',
        n > 0 ==> config.github_url[n - 1] != '/',
{
    law_only_the_end_is_taken_off(config.github_url, '/');
    without_trailing(config.github_url, '/').len() as int
}

/// A push goes to the configured repository, whoever the user is. Where none is configured it needs a
/// user, and goes to the repository of that user that is named like the upstream repository, which is
/// what follows the owner.
pub proof fn law_where_a_push_goes(config: ConfigView, username: Seq<char>, owner: Seq<char>, name: Seq<char>)
    ensures
        config.push_repo matches Some(repo) ==> config.push_target(username) == Ok::<Seq<char>, Fault<Seq<char>>>(
            repo,
        ),
        config.push_repo is None && username.len() == 0 ==> config.push_target(username) == Err::<
            Seq<char>,
            Fault<Seq<char>>,
        >(Fault::UsernameNeeded),
        config.push_repo is None && username.len() > 0 && !config.upstream_repo.contains('/')
            ==> config.push_target(username) == Err::<Seq<char>, Fault<Seq<char>>>(Fault::InvalidUpstreamRepo),
        config.push_repo is None && username.len() > 0 && config.upstream_repo == owner + seq!['/'] + name
            && !owner.contains('/') ==> config.push_target(username) == Ok::<Seq<char>, Fault<Seq<char>>>(
            username + "/"@ + name,
        ),
{
    law_split_parts(config.upstream_repo, '/');
    if let Some((left, right)) = split_first(config.upstream_repo, '/') {
        assert((left + seq!['/'] + right)[left.len() as int] == '/');
        assert(config.upstream_repo.contains('/'));
    }
    if !owner.contains('/') {
        law_split_at_first(owner, name, '/');
    }
}

/// A configuration is in order where it gives a path or a filter, and not both.
pub proof fn law_path_or_filter(config: ConfigView)
    ensures
        config.valid() <==> config.path is Some != config.filter is Some,
        config.problem() is None <==> config.path is Some != config.filter is Some,
        config.path is Some && config.filter is Some ==> config.problem() == Some(
            Fault::<Seq<char>>::BothPathAndFilter,
        ),
        config.path is None && config.filter is None ==> config.problem() == Some(
            Fault::<Seq<char>>::NeitherPathNorFilter,
        ),
{
}

/// A configuration that names no filter version has the first one, and only that one is left out
/// when a configuration is written.
pub proof fn law_first_version_is_left_out(version: FilterVersion)
    ensures
        unnamed_version() == FilterVersion::Version1,
        left_out(version) <==> version == FilterVersion::Version1,
{
}

/// A configuration is seen as it is, field by field.
pub proof fn law_configuration_is_seen(config: JoshConfig)
    ensures
        config@.org == config.org@,
        config@.repo == config.repo@,
        config@.upstream_repo == config.upstream_repo@,
        config@.upstream_branch == config.upstream_branch@,
        config@.push_repo == maybe(config.push_repo),
        config@.proxy_url == maybe(config.proxy_url),
        config@.github_url == config.github_url@,
        config@.path == maybe(config.path),
        config@.filter == maybe(config.filter),
        config@.subtree_filter == maybe(config.subtree_filter),
        config@.filter_version == config.filter_version,
        config@.post_pull.len() == config.post_pull@.len(),
        forall|i: int|
            0 <= i < config.post_pull@.len() ==> {
                &&& (#[trigger] config@.post_pull[i]).cmd == words(config.post_pull@[i].cmd@)
                &&& config@.post_pull[i].commit_message == config.post_pull@[i].commit_message@
            },
{
}

} // verus!
