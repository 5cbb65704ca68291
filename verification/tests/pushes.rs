use josh_sync::config::JoshConfig;
use josh_sync::error::SyncError;
use josh_sync::josh::JoshProxy;
use josh_sync::push::PushRun;
use josh_sync::report::{push_exit_status, push_report};
use josh_sync::step::{Action, Line, Reply, Step};
use josh_sync::sync::{GitSync, PushResult, NO_REBASE_WARN};
use josh_sync::SyncContext;

const URL: &str = "http://localhost/me/rust.git:/src.git";

fn config() -> JoshConfig {
    JoshConfig {
        repo: "miri".to_string(),
        path: Some("src/tools/miri".to_string()),
        upstream_branch: "main".to_string(),
        ..JoshConfig::initial("rust-lang")
    }
}

fn sync_with(config: JoshConfig, proxy: JoshProxy) -> GitSync {
    GitSync::new(
        SyncContext {
            config,
            last_upstream_sha_path: None,
            last_upstream_sha: None,
        },
        proxy,
        false,
    )
}

fn local() -> JoshProxy {
    JoshProxy::Local("/bin/josh-proxy".to_string())
}

fn done(text: &str) -> Reply {
    Reply::Done(text.to_string())
}

fn failed(text: &str) -> Reply {
    Reply::Failed(text.to_string())
}

fn run(line: &[&str]) -> Option<Action> {
    Some(Action::Run {
        line: line.iter().map(|s| s.to_string()).collect(),
        verbose: false,
    })
}

fn go(push: &mut PushRun, reply: Reply) -> Step {
    assert!(push.takes(&reply));
    assert_eq!(*push.outcome(), None);
    push.step(reply)
}

/// Answers until the local head is asked for.
fn to_head<'a>(sync: &'a GitSync, inside_ci: bool) -> (PushRun<'a>, Step) {
    let (mut push, _) = sync.rustc_push("me", "branch", inside_ci, None);
    for reply in [done(""), done(""), done(""), done(URL)] {
        go(&mut push, reply);
    }
    let step = go(&mut push, done(""));
    (push, step)
}

#[test]
fn whole_push() {
    let sync = sync_with(config(), local());
    let (mut push, step) = sync.rustc_push("me", "branch", false, None);
    assert_eq!(step.action, Some(Action::EnsureClean { verbose: false }));
    let step = go(&mut push, done(""));
    assert_eq!(step.action, run(&["git", "check-ref-format", "--branch", "branch"]));
    let step = go(&mut push, done("branch"));
    assert_eq!(
        step.action,
        Some(Action::StartProxy {
            proxy: local(),
            remote: "https://github.com".to_string(),
        })
    );
    let step = go(&mut push, done(""));
    assert_eq!(
        step.action,
        Some(Action::ProxyUrl {
            repo: "me/rust".to_string(),
            commit: None,
            filter: ":/src/tools/miri".to_string(),
        })
    );
    let step = go(&mut push, done(URL));
    assert_eq!(step.action, run(&["git", "fetch", URL, "refs/heads/main"]));
    let step = go(&mut push, done(""));
    assert_eq!(step.action, Some(Action::CurrentHead { verbose: false }));
    let step = go(&mut push, done("head"));
    assert_eq!(step.action, run(&["git", "merge-base", "FETCH_HEAD", "head"]));
    let step = go(&mut push, done("common"));
    assert_eq!(step.action, run(&["git", "diff", "--name-only", "common", "head"]));
    let step = go(&mut push, done("a.rs\nb.rs"));
    assert_eq!(
        step.action,
        run(&[
            "git",
            "ls-remote",
            "--heads",
            "https://github.com/me/rust",
            "refs/heads/branch",
        ])
    );
    let step = go(&mut push, done(""));
    assert_eq!(
        step.action,
        run(&[
            "git",
            "push",
            "-o",
            "base=refs/heads/main",
            "--force-with-lease=refs/heads/branch:",
            URL,
            "HEAD:refs/heads/branch",
        ])
    );
    let step = go(&mut push, done(""));
    assert_eq!(step.action, run(&["git", "fetch", URL, "branch"]));
    let step = go(&mut push, done(""));
    assert_eq!(step.action, Some(Action::CurrentHead { verbose: false }));
    let step = go(&mut push, done("head"));
    assert_eq!(step.action, run(&["git", "rev-parse", "FETCH_HEAD"]));
    let step = go(&mut push, done("head"));
    assert_eq!(
        step.lines,
        vec![
            Line::Stdout(
                "Confirmed that the push round-trips back to miri properly. Please create an upstream PR."
                    .to_string()
            ),
            Line::Stdout(NO_REBASE_WARN.to_string()),
        ]
    );
    assert_eq!(step.action, None);
    assert_eq!(*push.outcome(), Some(Ok(PushResult::Pushed)));
    assert!(!push.takes(&done("")));
}

#[test]
fn push_that_does_not_come_back() {
    let sync = sync_with(config(), local());
    let (mut push, _) = to_head(&sync, false);
    for reply in [done("head"), done("common"), done("a.rs"), done(""), done(""), done(""), done("head")] {
        go(&mut push, reply);
    }
    let step = go(&mut push, done("other"));
    assert_eq!(step, Step { lines: vec![], action: None });
    assert_eq!(
        *push.outcome(),
        Some(Err(SyncError::NotRoundTrip {
            expected: "head".to_string(),
            got: "other".to_string(),
        }))
    );
}

#[test]
fn nothing_to_push() {
    let sync = sync_with(config(), local());
    let (mut push, _) = to_head(&sync, false);
    go(&mut push, done("head"));
    go(&mut push, done("common"));
    let step = go(&mut push, done(""));
    assert_eq!(step.action, None);
    assert_eq!(*push.outcome(), Some(Ok(PushResult::NothingToPush)));
}

#[test]
fn upstream_is_asked_from_within_its_checkout() {
    let sync = sync_with(config(), local());
    let (mut push, _) = sync.rustc_push("me", "branch", false, Some("/src/rust".to_string()));
    for reply in [done(""), done(""), done(""), done(URL), done(""), done("head"), done("common")] {
        let step = go(&mut push, reply);
        assert!(!matches!(step.action, Some(Action::RunIn { .. })));
    }
    let step = go(&mut push, done("a.rs"));
    assert_eq!(
        step.action,
        Some(Action::RunIn {
            dir: "/src/rust".to_string(),
            line: [
                "git",
                "ls-remote",
                "--heads",
                "https://github.com/me/rust",
                "refs/heads/branch",
            ]
            .iter()
            .map(|s| s.to_string())
            .collect(),
            verbose: false,
        })
    );
    let step = go(&mut push, done(""));
    assert!(matches!(step.action, Some(Action::Run { .. })));
}

#[test]
fn existing_branch_is_refused() {
    let sync = sync_with(config(), local());
    let (mut push, _) = to_head(&sync, false);
    go(&mut push, done("head"));
    go(&mut push, done("common"));
    go(&mut push, done("a.rs"));
    let step = go(&mut push, done("sha\trefs/heads/branch"));
    assert_eq!(step.action, None);
    assert_eq!(
        *push.outcome(),
        Some(Err(SyncError::TargetBranchExists {
            repo: "me/rust".to_string(),
            branch: "branch".to_string(),
        }))
    );
}

#[test]
fn repository_to_push_to_is_not_known() {
    let sync = sync_with(config(), local());
    let (mut push, _) = sync.rustc_push("", "branch", false, None);
    go(&mut push, done(""));
    let step = go(&mut push, done(""));
    assert_eq!(step.action, None);
    assert_eq!(*push.outcome(), Some(Err(SyncError::UsernameNeeded)));
}

#[test]
fn unclean_checkout_is_not_pushed() {
    let sync = sync_with(config(), local());
    let (mut push, _) = sync.rustc_push("me", "branch", false, None);
    assert_eq!(go(&mut push, failed("dirty")).action, None);
    assert_eq!(*push.outcome(), Some(Err(SyncError::Step("dirty".to_string()))));
}

#[test]
fn failed_steps_end_a_push() {
    let answers = [
        "", "", "", URL, "", "head", "common", "a.rs", "", "", "", "head", "head",
    ];
    for n in 0..answers.len() {
        let sync = sync_with(config(), local());
        let (mut push, _) = sync.rustc_push("me", "branch", false, None);
        for answer in &answers[..n] {
            go(&mut push, done(answer));
        }
        assert_eq!(go(&mut push, failed("x")).action, None);
        assert_eq!(*push.outcome(), Some(Err(SyncError::Step("x".to_string()))));
    }
}

fn filtered() -> JoshConfig {
    JoshConfig {
        subtree_filter: Some(":/sub".to_string()),
        ..config()
    }
}

#[test]
fn head_through_the_subtree_filter() {
    let sync = sync_with(filtered(), local());
    let (mut push, step) = to_head(&sync, false);
    assert_eq!(step.action, Some(Action::Find { program: "josh-filter".to_string() }));
    let step = go(&mut push, done("/bin/josh-filter"));
    let filter = |program: &str| {
        Some(Action::RunFilter {
            program: program.to_string(),
            line: vec![":/sub".to_string(), "HEAD".to_string()],
            verbose: false,
        })
    };
    assert_eq!(step.action, filter("/bin/josh-filter"));
    let step = go(&mut push, done(""));
    assert_eq!(step.action, run(&["git", "rev-parse", "FILTERED_HEAD"]));
    let step = go(&mut push, done("head"));
    assert_eq!(step.action, run(&["git", "merge-base", "FETCH_HEAD", "head"]));
    for reply in [done("common"), done("a.rs"), done(""), done("")] {
        go(&mut push, reply);
    }
    let step = go(&mut push, done(""));
    assert_eq!(step.action, Some(Action::Find { program: "josh-filter".to_string() }));
    let step = go(&mut push, failed("not found"));
    assert_eq!(
        step.lines,
        vec![Line::Stdout("Updating/installing josh-filter binary...".to_string())]
    );
    assert_eq!(step.action, Some(Action::InstallFilter { verbose: false }));
    let step = go(&mut push, done("/home/me/josh-filter"));
    assert_eq!(step.action, filter("/home/me/josh-filter"));
    go(&mut push, done(""));
    let step = go(&mut push, done("head"));
    assert_eq!(step.action, run(&["git", "rev-parse", "FETCH_HEAD"]));
    go(&mut push, done("head"));
    assert_eq!(*push.outcome(), Some(Ok(PushResult::Pushed)));
}

#[test]
fn subtree_filter_fails() {
    let sync = sync_with(filtered(), local());
    let (mut push, _) = to_head(&sync, false);
    go(&mut push, failed("not found"));
    go(&mut push, failed(""));
    assert_eq!(*push.outcome(), Some(Err(SyncError::FilterNotInstalled)));
    let (mut push, _) = to_head(&sync, false);
    go(&mut push, done(""));
    go(&mut push, failed("x"));
    assert_eq!(*push.outcome(), Some(Err(SyncError::Step("x".to_string()))));
    let (mut push, _) = to_head(&sync, false);
    go(&mut push, done(""));
    go(&mut push, done(""));
    go(&mut push, failed("x"));
    assert_eq!(*push.outcome(), Some(Err(SyncError::FilteredHead("x".to_string()))));
}

#[test]
fn filter_is_not_installed_in_ci_or_beside_an_external_proxy() {
    for (proxy, inside_ci) in [
        (local(), true),
        (JoshProxy::External("http://x".to_string()), false),
    ] {
        let sync = sync_with(filtered(), proxy);
        let (mut push, _) = to_head(&sync, inside_ci);
        assert_eq!(go(&mut push, failed("not found")).action, None);
        assert_eq!(*push.outcome(), Some(Err(SyncError::FilterNotProvisioned)));
    }
}

#[test]
fn answers_that_a_push_does_not_take() {
    let sync = sync_with(JoshConfig { path: None, ..config() }, local());
    let (mut push, _) = sync.rustc_push("me", "branch", false, None);
    go(&mut push, done(""));
    go(&mut push, done(""));
    assert!(!push.takes(&done("")));
    assert!(push.takes(&failed("x")));
}

#[test]
fn diff_that_is_empty_or_not() {
    let sync = sync_with(config(), local());
    assert_eq!(
        sync.has_empty_diff("abc").action,
        run(&["git", "diff", "--exit-code", "abc"])
    );
    assert_eq!(sync.config().repo, "miri");
    assert_eq!(*sync.proxy(), local());
    assert!(!sync.verbose());
}

#[test]
fn status_after_a_push() {
    assert_eq!(push_exit_status(PushResult::Pushed), 0);
    assert_eq!(push_exit_status(PushResult::NothingToPush), 2);
}

#[test]
fn report_after_a_push() {
    let mut config = config();
    config.repo = "m~\u{e9}".to_string();
    assert_eq!(
        push_report(&config, "me", "branch", "head"),
        Ok(
            "You can create the upstream PR using the following URL:\n\
             https://github.com/rust-lang/rust/compare/me:branch?quick_pull=1\
             &title=m~%C3%A9%20subtree%20update\
             &body=Subtree%20update%20of%20%60m~%C3%A9%60%20to%20https%3A%2F%2Fgithub.com%2F\
             rust-lang%2Fm~%C3%A9%2Fcommit%2Fhead.%0A%0A\
             Created%20using%20https%3A%2F%2Fgithub.com%2Frust-lang%2Fjosh-sync."
                .to_string()
        )
    );
    assert_eq!(
        push_report(&config, "", "branch", "head"),
        Err(SyncError::UsernameNeeded)
    );
    config.push_repo = Some("rust".to_string());
    assert_eq!(
        push_report(&config, "me", "branch", "head"),
        Err(SyncError::InvalidPushRepo)
    );
}
