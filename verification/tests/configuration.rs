use josh_sync::config::{
    default_filter_version, default_github_url, default_org, default_upstream_branch,
    default_upstream_repo, skip_serializing_filter_version, JoshConfig, PostPullOperation,
};
use josh_sync::error::SyncError;
use josh_sync::josh::{get_josh_proxy, installed_proxy, using_binary, JoshProxy, ProxySource};
use josh_sync::sync::{FilterVersion, RustcPullError, DEFAULT_UPSTREAM_REPO};
use josh_sync::{load_context, load_tracked_context, SyncContext};

fn some(text: &str) -> Option<String> {
    Some(text.to_string())
}

#[test]
fn names_and_addresses() {
    let mut config = JoshConfig::initial("rust-lang");
    config.repo = "miri".to_string();
    assert_eq!(config.full_repo_name(), "rust-lang/miri");
    assert_eq!(config.git_url("a/b"), "https://github.com/a/b");
    config.github_url = "http://localhost:8000//".to_string();
    assert_eq!(config.git_url("a/b"), "http://localhost:8000/a/b");
    config.github_url = "///".to_string();
    assert_eq!(config.git_url("a/b"), "/a/b");
}

#[test]
fn trailing_slash_makes_no_difference() {
    let plain = JoshConfig::initial("x");
    let mut slashed = plain.clone();
    slashed.github_url.push('/');
    assert_eq!(plain.git_url("a/b"), slashed.git_url("a/b"));
}

#[test]
fn initial_configuration() {
    let config = JoshConfig::initial("<organization>");
    assert_eq!(
        config,
        JoshConfig {
            org: "<organization>".to_string(),
            repo: "<repository-name>".to_string(),
            upstream_repo: DEFAULT_UPSTREAM_REPO.to_string(),
            upstream_branch: "HEAD".to_string(),
            push_repo: None,
            proxy_url: None,
            github_url: "https://github.com".to_string(),
            path: some("<relative-subtree-path>"),
            filter: None,
            post_pull: vec![],
            subtree_filter: None,
            filter_version: FilterVersion::latest(),
        }
    );
    assert!(config.validate().is_ok());
}

#[test]
fn where_a_push_goes() {
    let mut config = JoshConfig::initial("rust-lang");
    assert_eq!(config.push_repo("me"), Ok("me/rust".to_string()));
    assert_eq!(config.push_repo(""), Err(SyncError::UsernameNeeded));
    config.upstream_repo = "rust".to_string();
    assert_eq!(config.push_repo("me"), Err(SyncError::InvalidUpstreamRepo));
    config.upstream_repo = "a/b/c".to_string();
    assert_eq!(config.push_repo("me"), Ok("me/b/c".to_string()));
    config.push_repo = some("fork/rust");
    assert_eq!(config.push_repo("me"), Ok("fork/rust".to_string()));
    assert_eq!(config.push_repo(""), Ok("fork/rust".to_string()));
}

#[test]
fn exactly_one_of_path_and_filter() {
    let mut config = JoshConfig::initial("rust-lang");
    config.filter = some(":/a");
    assert_eq!(config.validate(), Err(SyncError::BothPathAndFilter));
    config.path = None;
    assert_eq!(config.validate(), Ok(()));
    config.filter = None;
    assert_eq!(config.validate(), Err(SyncError::NeitherPathNorFilter));
}

#[test]
fn defaults() {
    assert_eq!(default_org(), "rust-lang");
    assert_eq!(default_upstream_repo(), "rust-lang/rust");
    assert_eq!(default_upstream_branch(), "HEAD");
    assert_eq!(default_github_url(), "https://github.com");
    assert_eq!(default_filter_version(), FilterVersion::Version1);
    assert_eq!(FilterVersion::latest(), FilterVersion::Version2);
}

#[test]
fn filter_version_is_read_back() {
    for version in [FilterVersion::Version1, FilterVersion::Version2] {
        assert_eq!(FilterVersion::from_number(version.number()), Ok(version));
        if skip_serializing_filter_version(&version) {
            assert_eq!(default_filter_version(), version);
        }
    }
    assert!(!skip_serializing_filter_version(&FilterVersion::Version2));
    assert_eq!(FilterVersion::Version1.number(), 1);
    assert_eq!(FilterVersion::Version2.number(), 2);
    assert_eq!(FilterVersion::from_number(0), Err(0));
    assert_eq!(FilterVersion::from_number(3), Err(3));
}

#[test]
fn context_without_overrides_is_the_configuration() {
    let config = JoshConfig::initial("rust-lang");
    assert_eq!(
        load_context(config.clone(), &None, &None, &None),
        Ok(SyncContext {
            config,
            last_upstream_sha_path: None,
            last_upstream_sha: None,
        })
    );
}

#[test]
fn context_with_the_last_commit() {
    let config = JoshConfig::initial("rust-lang");
    for (held, sha) in [(some(" abc\n"), some("abc")), (some(""), some("")), (None, None)] {
        assert_eq!(
            load_tracked_context(config.clone(), "rust-version".to_string(), &held),
            Ok(SyncContext {
                config: config.clone(),
                last_upstream_sha_path: some("rust-version"),
                last_upstream_sha: sha,
            })
        );
    }
    let both = JoshConfig { filter: some(":/f"), ..config };
    assert_eq!(
        load_tracked_context(both, "rust-version".to_string(), &None),
        Err(SyncError::BothPathAndFilter)
    );
}

#[test]
fn context_with_overrides() {
    let mut config = JoshConfig::initial("rust-lang");
    config.post_pull = vec![PostPullOperation {
        cmd: vec!["true".to_string()],
        commit_message: "message".to_string(),
    }];
    let context = load_context(
        config.clone(),
        &some("o/r/s"),
        &some(":/f"),
        &some("stable"),
    )
    .unwrap();
    assert_eq!(
        context.config,
        JoshConfig {
            org: "o".to_string(),
            repo: "r/s".to_string(),
            path: None,
            filter: some(":/f"),
            upstream_branch: "stable".to_string(),
            ..config
        }
    );
}

#[test]
fn context_is_refused() {
    let config = JoshConfig::initial("rust-lang");
    assert_eq!(
        load_context(config.clone(), &some("mirror"), &None, &None),
        Err(SyncError::InvalidMirror)
    );
    let neither = JoshConfig { path: None, ..config.clone() };
    assert_eq!(
        load_context(neither.clone(), &None, &None, &None),
        Err(SyncError::NeitherPathNorFilter)
    );
    assert_eq!(
        load_context(neither, &some("o/r"), &some(":/g"), &some("main")),
        Err(SyncError::NeitherPathNorFilter)
    );
    let both = JoshConfig { filter: some(":/f"), ..config };
    assert_eq!(
        load_context(both.clone(), &None, &None, &None),
        Err(SyncError::BothPathAndFilter)
    );
    assert_eq!(
        load_context(both.clone(), &None, &some(":/g"), &None),
        Err(SyncError::BothPathAndFilter)
    );
    assert_eq!(
        load_context(both, &some("mirror"), &None, &None),
        Err(SyncError::BothPathAndFilter)
    );
}

#[test]
fn where_the_proxy_comes_from() {
    let mut config = JoshConfig::initial("rust-lang");
    assert_eq!(
        get_josh_proxy(&None, &None, &config, false),
        Ok(ProxySource::Install)
    );
    assert_eq!(
        get_josh_proxy(&None, &None, &config, true),
        Err(SyncError::ProxyUrlNeeded)
    );
    assert_eq!(
        get_josh_proxy(&None, &some("/bin/josh-proxy"), &config, false),
        Ok(ProxySource::Given(JoshProxy::Local("/bin/josh-proxy".to_string())))
    );
    assert_eq!(
        get_josh_proxy(&None, &some("/bin/josh-proxy"), &config, true),
        Err(SyncError::ProxyUrlNeeded)
    );
    config.proxy_url = some("http://configured");
    for ci in [false, true] {
        assert_eq!(
            get_josh_proxy(&None, &None, &config, ci),
            Ok(ProxySource::Given(JoshProxy::External("http://configured".to_string())))
        );
        assert_eq!(
            get_josh_proxy(&some("http://given"), &None, &config, ci),
            Ok(ProxySource::Given(JoshProxy::External("http://given".to_string())))
        );
        assert_eq!(
            get_josh_proxy(&None, &some("/bin/josh-proxy"), &config, ci),
            Err(SyncError::BothProxies)
        );
    }
}

#[test]
fn installed_proxy_is_local() {
    let proxy = installed_proxy(some("/bin/josh-proxy")).unwrap();
    assert_eq!(proxy, JoshProxy::Local("/bin/josh-proxy".to_string()));
    assert!(!proxy.is_external());
    assert!(JoshProxy::External("http://x".to_string()).is_external());
    assert_eq!(installed_proxy(None), Err(SyncError::ProxyNotInstalled));
    assert_eq!(using_binary("/a b"), "Using josh-proxy binary from /a b");
}

#[test]
fn messages_of_errors() {
    let s = |text: &str| text.to_string();
    let cases = [
        (SyncError::Step(s("why")), "why", None),
        (SyncError::FetchUpstreamCommit(s("why")), "cannot fetch upstream commit", Some("why")),
        (SyncError::BranchNotAdvertised, "upstream branch was not advertised by the remote", None),
        (SyncError::StartProxy(s("why")), "cannot start josh-proxy", Some("why")),
        (SyncError::FetchThroughJosh(s("why")), "cannot fetch git state through Josh", Some("why")),
        (
            SyncError::CountRoots(s("why")),
            "failed to determine the number of root commits",
            Some("why"),
        ),
        (SyncError::RootCount(s("why")), "why", None),
        (
            SyncError::Merge(s("why")),
            "FAILED to merge new commits, something went wrong",
            Some("why"),
        ),
        (
            SyncError::NewRootCommit,
            "Josh created a new root commit. This is probably not the history you want.",
            None,
        ),
        (SyncError::WriteRustVersion(s("why")), "cannot write rust-version file", Some("why")),
        (SyncError::UsernameNeeded, "push requires a username or push-repo", None),
        (SyncError::InvalidUpstreamRepo, "invalid upstream-repo", None),
        (
            SyncError::TargetBranchExists { repo: s("me/rust"), branch: s("b") },
            "target branch already exists: me/rust/b",
            None,
        ),
        (
            SyncError::FilterNotProvisioned,
            "josh-filter must be provisioned on PATH for subtree-filter checks",
            None,
        ),
        (SyncError::FilterNotInstalled, "Could not install josh-filter", None),
        (SyncError::FilteredHead(s("why")), "failed to get FILTERED_HEAD", Some("why")),
        (
            SyncError::NotRoundTrip { expected: s("a"), got: s("b") },
            "Josh created a non-roundtrip push! Do NOT merge this upstream!\nExpected a, got b.",
            None,
        ),
        (SyncError::BothPathAndFilter, "Cannot specify both `path` and `filter`", None),
        (SyncError::NeitherPathNorFilter, "Must specify one of `path` and `filter`", None),
        (SyncError::InvalidMirror, "mirror must be organization/repository", None),
        (SyncError::BothProxies, "cannot specify both a proxy URL and local binary", None),
        (
            SyncError::ProxyUrlNeeded,
            "CI requires --proxy-url, JOSH_PROXY_URL, or proxy-url in the config",
            None,
        ),
        (SyncError::ProxyNotInstalled, "Could not install josh-proxy", None),
        (SyncError::InvalidPushRepo, "invalid push-repo", None),
    ];
    for (error, message, cause) in cases {
        assert_eq!(error.message(), message);
        assert_eq!(error.cause().as_deref(), cause);
    }
}

#[test]
fn error_of_a_pull() {
    assert_eq!(
        RustcPullError::from(SyncError::NewRootCommit),
        RustcPullError::PullFailed(SyncError::NewRootCommit)
    );
}
