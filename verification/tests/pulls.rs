use josh_sync::config::{JoshConfig, PostPullOperation};
use josh_sync::error::SyncError;
use josh_sync::josh::JoshProxy;
use josh_sync::pull::{merge_message, PullRun, MERGE_STOPPED};
use josh_sync::report::{
    maybe_create_gh_pr, pull_exit_status, pull_hint, pull_title,
};
use josh_sync::step::{Action, Line, Reply, Step};
use josh_sync::sync::{GitResetOnDrop, GitSync, PullResult, RustcPullError, NO_REBASE_WARN};
use josh_sync::SyncContext;

const SHA: &str = "3a1f5e2b9c8d4e7f6a0b1c2d3e4f5a6b7c8d9e0f";
const URL: &str = "http://localhost/rust-lang/rust.git@sha:/src.git";

fn config() -> JoshConfig {
    JoshConfig {
        repo: "miri".to_string(),
        path: Some("src/tools/miri".to_string()),
        ..JoshConfig::initial("rust-lang")
    }
}

fn sync(config: JoshConfig) -> GitSync {
    GitSync::new(
        SyncContext {
            config,
            last_upstream_sha_path: None,
            last_upstream_sha: None,
        },
        JoshProxy::External("http://localhost".to_string()),
        false,
    )
}

fn done(text: &str) -> Reply {
    Reply::Done(text.to_string())
}

fn failed(text: &str) -> Reply {
    Reply::Failed(text.to_string())
}

fn run(line: &[&str]) -> Option<Action> {
    Some(Action::Run {
        line: line.iter().map(|s| s.to_string()).collect(),
        verbose: false,
    })
}

fn out(text: &str) -> Line {
    Line::Stdout(text.to_string())
}

fn err(text: &str) -> Line {
    Line::Stderr(text.to_string())
}

fn go(pull: &mut PullRun, reply: Reply) -> Step {
    assert!(pull.takes(&reply));
    assert_eq!(*pull.outcome(), None);
    pull.step(reply)
}

/// Answers until the merge is asked for.
fn to_merge<'a>(sync: &'a GitSync, allow_noop: bool) -> (PullRun<'a>, Step) {
    let (mut pull, _) =
        sync.rustc_pull("rust-lang/rust".to_string(), Some(SHA.to_string()), allow_noop);
    for reply in [done(""), done(""), done(URL), done("head0"), done(""), done("1"), done("head0")] {
        go(&mut pull, reply);
    }
    let step = go(&mut pull, done("filtered"));
    (pull, step)
}

fn message() -> String {
    merge_message(&config(), "rust-lang/rust", SHA, "filtered")
}

/// The commit that HEAD goes back to when the pull is dropped.
fn goes_back_to(pull: &PullRun) -> Option<String> {
    let guard = pull.guard().as_ref()?;
    let step = guard.on_drop()?;
    assert_eq!(step.lines, vec![err(&format!("Reverting HEAD to {}", guard.reset_to()))]);
    assert_eq!(step.action, run(&["git", "reset", "--hard", guard.reset_to()]));
    Some(guard.reset_to().to_string())
}

#[test]
fn message_of_the_merge() {
    assert_eq!(
        message(),
        "Merge ref '3a1f5e2b9c8d' from rust-lang/rust\n\
         \n\
         Pull recent changes from https://github.com/rust-lang/rust via Josh.\n\
         \n\
         Upstream ref: rust-lang/rust@3a1f5e2b9c8d4e7f6a0b1c2d3e4f5a6b7c8d9e0f\n\
         Filtered ref: rust-lang/miri@filtered\n\
         \n\
         This merge was created using https://github.com/rust-lang/josh-sync.\n"
    );
}

#[test]
fn upstream_commit_is_asked_for() {
    let mut config = config();
    config.upstream_branch = "main".to_string();
    let sync = sync(config);
    let (mut pull, step) = sync.rustc_pull("a/b".to_string(), None, false);
    assert_eq!(step.lines, vec![]);
    assert_eq!(
        step.action,
        run(&["git", "ls-remote", "https://github.com/a/b", "refs/heads/main"])
    );
    let step = go(&mut pull, done(&format!("{SHA}\trefs/heads/main\n")));
    assert_eq!(step.action, Some(Action::EnsureClean { verbose: false }));
    go(&mut pull, done(""));
    let step = go(&mut pull, done(""));
    assert_eq!(
        step.action,
        Some(Action::ProxyUrl {
            repo: "a/b".to_string(),
            commit: Some(SHA.to_string()),
            filter: ":/src/tools/miri".to_string(),
        })
    );
}

#[test]
fn upstream_commit_is_not_there() {
    let sync = sync(config());
    let (mut pull, _) = sync.rustc_pull("a/b".to_string(), None, false);
    let step = go(&mut pull, done(" \n"));
    assert_eq!(step, Step { lines: vec![], action: None });
    assert_eq!(
        *pull.outcome(),
        Some(Err(RustcPullError::PullFailed(SyncError::BranchNotAdvertised)))
    );
    assert_eq!(goes_back_to(&pull), None);
    let (mut pull, _) = sync.rustc_pull("a/b".to_string(), None, false);
    go(&mut pull, failed("offline"));
    assert_eq!(
        *pull.outcome(),
        Some(Err(RustcPullError::PullFailed(SyncError::FetchUpstreamCommit(
            "offline".to_string()
        ))))
    );
}

#[test]
fn whole_pull() {
    let sync = sync(config());
    let (mut pull, step) =
        sync.rustc_pull("rust-lang/rust".to_string(), Some(SHA.to_string()), false);
    assert_eq!(step.action, Some(Action::EnsureClean { verbose: false }));
    let step = go(&mut pull, done(""));
    assert_eq!(
        step.action,
        Some(Action::StartProxy {
            proxy: JoshProxy::External("http://localhost".to_string()),
            remote: "https://github.com".to_string(),
        })
    );
    go(&mut pull, done(""));
    let step = go(&mut pull, done(URL));
    assert_eq!(step.action, Some(Action::CurrentHead { verbose: false }));
    assert_eq!(goes_back_to(&pull), None);
    let step = go(&mut pull, done("head0"));
    assert_eq!(
        step.lines,
        vec![
            out(&format!("new upstream base: {SHA}")),
            out("original local HEAD: head0"),
        ]
    );
    assert_eq!(step.action, run(&["git", "fetch", URL]));
    assert_eq!(goes_back_to(&pull).as_deref(), Some("head0"));
    let step = go(&mut pull, done(""));
    assert_eq!(
        step.action,
        run(&["git", "rev-list", "HEAD", "--max-parents=0", "--count"])
    );
    let step = go(&mut pull, done("+12"));
    assert_eq!(step.action, Some(Action::CurrentHead { verbose: false }));
    let step = go(&mut pull, done("head0"));
    assert_eq!(step.action, run(&["git", "rev-parse", "FETCH_HEAD"]));
    let step = go(&mut pull, done("filtered"));
    assert_eq!(step.lines, vec![out("incoming ref: filtered")]);
    assert_eq!(
        step.action,
        Some(Action::Stream {
            line: [
                "git",
                "merge",
                "FETCH_HEAD",
                "--no-verify",
                "--no-ff",
                "-m",
                &message(),
            ]
            .iter()
            .map(|s| s.to_string())
            .collect(),
            verbose: false,
        })
    );
    let step = go(&mut pull, done(""));
    assert_eq!(step.action, Some(Action::CurrentHead { verbose: false }));
    let step = go(&mut pull, done("head1"));
    assert_eq!(step.action, run(&["git", "diff", "--exit-code", "head0"]));
    let step = go(&mut pull, failed("differs"));
    assert_eq!(
        step.lines,
        vec![out("Pull finished! Current HEAD is head1"), out(NO_REBASE_WARN)]
    );
    assert_eq!(
        step.action,
        run(&["git", "rev-list", "HEAD", "--max-parents=0", "--count"])
    );
    assert_eq!(goes_back_to(&pull), None);
    let step = go(&mut pull, done("12"));
    assert_eq!(step, Step { lines: vec![], action: None });
    assert_eq!(
        *pull.outcome(),
        Some(Ok(PullResult { merge_commit_message: message() }))
    );
    assert!(!pull.takes(&done("")));
}

#[test]
fn unclean_checkout_is_left() {
    let sync = sync(config());
    let (mut pull, _) = sync.rustc_pull("a/b".to_string(), Some(SHA.to_string()), false);
    let step = go(&mut pull, failed("dirty"));
    assert_eq!(step.action, None);
    assert_eq!(
        *pull.outcome(),
        Some(Err(RustcPullError::PullFailed(SyncError::Step("dirty".to_string()))))
    );
    assert_eq!(goes_back_to(&pull), None);
}

#[test]
fn failures_before_the_merge() {
    let answers = [done(""), done(""), done(URL), done("head0"), done(""), done("1"), done("head0"), done("f")];
    let step_error = |text: &str| SyncError::Step(text.to_string());
    let expected = [
        (step_error("x"), None),
        (SyncError::StartProxy("x".to_string()), None),
        (step_error("x"), None),
        (step_error("x"), None),
        (SyncError::FetchThroughJosh("x".to_string()), Some("head0")),
        (SyncError::CountRoots("x".to_string()), Some("head0")),
        (step_error("x"), Some("head0")),
        (step_error("x"), Some("head0")),
    ];
    for (n, (error, head)) in expected.into_iter().enumerate() {
        let sync = sync(config());
        let (mut pull, _) = sync.rustc_pull("a/b".to_string(), Some(SHA.to_string()), true);
        for answer in &answers[..n] {
            let answer = match answer {
                Reply::Done(text) => done(text),
                Reply::Failed(text) => failed(text),
            };
            go(&mut pull, answer);
        }
        go(&mut pull, failed("x"));
        assert_eq!(*pull.outcome(), Some(Err(RustcPullError::PullFailed(error))));
        assert_eq!(goes_back_to(&pull).as_deref(), head);
    }
}

#[test]
fn count_that_is_no_number() {
    for printed in ["", "x", "1 ", "4294967296", "-1", "+"] {
        let sync = sync(config());
        let (mut pull, _) = sync.rustc_pull("a/b".to_string(), Some(SHA.to_string()), false);
        for reply in [done(""), done(""), done(URL), done("head0"), done("")] {
            go(&mut pull, reply);
        }
        go(&mut pull, done(printed));
        let complaint = printed.parse::<u32>().unwrap_err().to_string();
        assert_eq!(
            *pull.outcome(),
            Some(Err(RustcPullError::PullFailed(SyncError::RootCount(complaint))))
        );
        assert_eq!(goes_back_to(&pull).as_deref(), Some("head0"));
    }
}

#[test]
fn stopped_merge_is_left() {
    let sync = sync(config());
    let (mut pull, _) = to_merge(&sync, false);
    let step = go(&mut pull, failed("conflict"));
    assert_eq!(step.lines, vec![err(MERGE_STOPPED), err(NO_REBASE_WARN)]);
    assert_eq!(step.action, None);
    assert_eq!(
        *pull.outcome(),
        Some(Err(RustcPullError::PullFailed(SyncError::Merge("conflict".to_string()))))
    );
    assert_eq!(goes_back_to(&pull), None);
}

#[test]
fn no_merge_means_nothing_to_pull() {
    let sync = sync(config());
    let (mut pull, _) = to_merge(&sync, false);
    go(&mut pull, done(""));
    let step = go(&mut pull, done("head0"));
    assert_eq!(
        step.lines,
        vec![err("No merge was performed, no changes to pull were found. Rolling back.")]
    );
    assert_eq!(step.action, None);
    assert_eq!(*pull.outcome(), Some(Err(RustcPullError::NothingToPull)));
    assert_eq!(goes_back_to(&pull).as_deref(), Some("head0"));
}

#[test]
fn empty_merge_means_nothing_to_pull() {
    let sync = sync(config());
    let (mut pull, _) = to_merge(&sync, false);
    go(&mut pull, done(""));
    go(&mut pull, done("head1"));
    let step = go(&mut pull, done(""));
    assert_eq!(step.lines, vec![err("Only empty changes were pulled. Rolling back.")]);
    assert_eq!(*pull.outcome(), Some(Err(RustcPullError::NothingToPull)));
    assert_eq!(goes_back_to(&pull).as_deref(), Some("head0"));
}

#[test]
fn pull_without_changes_can_be_allowed() {
    for head in ["head0", "head1"] {
        let sync = sync(config());
        let (mut pull, _) = to_merge(&sync, true);
        go(&mut pull, done(""));
        let step = go(&mut pull, done(head));
        assert_eq!(step.action, run(&["git", "diff", "--exit-code", "head0"]));
        let step = go(&mut pull, done(""));
        assert_eq!(
            step.lines,
            vec![out(&format!("Pull finished! Current HEAD is {head}")), out(NO_REBASE_WARN)]
        );
        go(&mut pull, done("1"));
        assert!(matches!(pull.outcome(), Some(Ok(_))));
        assert_eq!(goes_back_to(&pull), None);
    }
}

#[test]
fn new_root_commit_is_an_error() {
    let sync = sync(config());
    let (mut pull, _) = to_merge(&sync, false);
    go(&mut pull, done(""));
    go(&mut pull, done("head1"));
    go(&mut pull, failed(""));
    go(&mut pull, done("2"));
    assert_eq!(
        *pull.outcome(),
        Some(Err(RustcPullError::PullFailed(SyncError::NewRootCommit)))
    );
    assert_eq!(goes_back_to(&pull), None);
}

fn with_operations() -> GitSync {
    let operation = |program: &str, commit_message: &str| PostPullOperation {
        cmd: vec![program.to_string(), "-v".to_string()],
        commit_message: commit_message.to_string(),
    };
    sync(JoshConfig {
        post_pull: vec![operation("one", "first"), operation("two", "second")],
        ..config()
    })
}

#[test]
fn post_pull_operations() {
    let sync = with_operations();
    let (mut pull, _) = to_merge(&sync, false);
    go(&mut pull, done(""));
    go(&mut pull, done("head1"));
    let step = go(&mut pull, failed(""));
    assert_eq!(step.lines[2], out("Running post-pull operation(s)"));
    assert_eq!(step.action, Some(Action::CurrentHead { verbose: false }));
    let step = go(&mut pull, done("head1"));
    assert_eq!(
        step.action,
        Some(Action::Run { line: vec!["one".to_string(), "-v".to_string()], verbose: true })
    );
    let step = go(&mut pull, done("printed"));
    assert_eq!(step.action, run(&["git", "diff", "--exit-code", "head1"]));
    let step = go(&mut pull, failed("differs"));
    assert_eq!(
        step.lines,
        vec![out("`one -v` changed something, committing with message `first`")]
    );
    assert_eq!(step.action, run(&["git", "add", "-u"]));
    let step = go(&mut pull, done(""));
    assert_eq!(step.action, run(&["git", "commit", "-m", "first"]));
    let step = go(&mut pull, done(""));
    assert_eq!(step.action, Some(Action::CurrentHead { verbose: false }));
    go(&mut pull, done("head2"));
    let step = go(&mut pull, done(""));
    assert_eq!(step.action, run(&["git", "diff", "--exit-code", "head2"]));
    assert_eq!(goes_back_to(&pull).as_deref(), Some("head0"));
    let step = go(&mut pull, done(""));
    assert_eq!(
        step.action,
        run(&["git", "rev-list", "HEAD", "--max-parents=0", "--count"])
    );
    assert_eq!(goes_back_to(&pull), None);
    go(&mut pull, done("1"));
    assert!(matches!(pull.outcome(), Some(Ok(_))));
}

#[test]
fn failed_operation_puts_head_back() {
    for answers in [
        vec![],
        vec![done("head1")],
        vec![done("head1"), done(""), failed("")],
        vec![done("head1"), done(""), failed(""), done("")],
    ] {
        let sync = with_operations();
        let (mut pull, _) = to_merge(&sync, false);
        go(&mut pull, done(""));
        go(&mut pull, done("head1"));
        go(&mut pull, failed(""));
        for answer in answers {
            go(&mut pull, answer);
        }
        go(&mut pull, failed("broken"));
        assert_eq!(
            *pull.outcome(),
            Some(Err(RustcPullError::PullFailed(SyncError::Step("broken".to_string()))))
        );
        assert_eq!(goes_back_to(&pull).as_deref(), Some("head0"));
    }
}

#[test]
fn last_count_fails_when_everything_is_done() {
    let sync = sync(config());
    let (mut pull, _) = to_merge(&sync, false);
    go(&mut pull, done(""));
    go(&mut pull, done("head1"));
    go(&mut pull, failed(""));
    go(&mut pull, failed("x"));
    assert_eq!(
        *pull.outcome(),
        Some(Err(RustcPullError::PullFailed(SyncError::CountRoots("x".to_string()))))
    );
    assert_eq!(goes_back_to(&pull), None);
}

fn recording() -> GitSync {
    GitSync::new(
        SyncContext {
            config: config(),
            last_upstream_sha_path: Some("rust-version".to_string()),
            last_upstream_sha: Some("old".to_string()),
        },
        JoshProxy::External("http://localhost".to_string()),
        false,
    )
}

#[test]
fn successful_pull_is_recorded() {
    let sync = recording();
    assert_eq!(sync.last_upstream_sha_path().as_deref(), Some("rust-version"));
    assert_eq!(sync.last_upstream_sha().as_deref(), Some("old"));
    for recorded in [true, false] {
        let (mut pull, _) = to_merge(&sync, false);
        go(&mut pull, done(""));
        go(&mut pull, done("head1"));
        go(&mut pull, failed(""));
        let step = go(&mut pull, done("1"));
        assert_eq!(
            step.action,
            Some(Action::Record {
                path: "rust-version".to_string(),
                sha: SHA.to_string(),
            })
        );
        let step = go(&mut pull, if recorded { done("") } else { failed("read-only") });
        assert_eq!(step, Step { lines: vec![], action: None });
        let end = if recorded {
            Ok(PullResult { merge_commit_message: message() })
        } else {
            Err(RustcPullError::PullFailed(SyncError::WriteRustVersion("read-only".to_string())))
        };
        assert_eq!(*pull.outcome(), Some(end));
        assert_eq!(goes_back_to(&pull), None);
    }
}

#[test]
fn vain_pull_is_not_recorded() {
    let sync = recording();
    let (mut pull, _) = to_merge(&sync, false);
    go(&mut pull, done(""));
    assert_eq!(go(&mut pull, done("head0")).action, None);
    let (mut pull, _) = to_merge(&sync, false);
    go(&mut pull, done(""));
    go(&mut pull, done("head1"));
    go(&mut pull, failed(""));
    assert_eq!(go(&mut pull, done("2")).action, None);
}

#[test]
fn answers_that_a_pull_does_not_take() {
    let sync_short = sync(config());
    let (mut pull, _) = sync_short.rustc_pull("a/b".to_string(), Some("short".to_string()), false);
    for reply in [done(""), done(""), done(URL), done("head0"), done(""), done("1"), done("head0")] {
        go(&mut pull, reply);
    }
    assert!(!pull.takes(&done("filtered")));
    assert!(pull.takes(&failed("x")));
    let sync_both = sync(JoshConfig { filter: Some(":/x".to_string()), ..config() });
    let (mut pull, _) = sync_both.rustc_pull("a/b".to_string(), Some(SHA.to_string()), false);
    go(&mut pull, done(""));
    assert!(!pull.takes(&done("")));
    assert!(pull.takes(&failed("x")));
}

#[test]
fn guard_until_disarmed() {
    let mut guard = GitResetOnDrop::new("abc".to_string(), true);
    let step = guard.on_drop().unwrap();
    assert_eq!(step.lines, vec![err("Reverting HEAD to abc")]);
    assert_eq!(
        step.action,
        Some(Action::Run {
            line: ["git", "reset", "--hard", "abc"].iter().map(|s| s.to_string()).collect(),
            verbose: true,
        })
    );
    guard.disarm();
    assert_eq!(guard.on_drop(), None);
    assert_eq!(guard.reset_to(), "abc");
}

#[test]
fn status_after_a_pull() {
    assert_eq!(pull_exit_status(&RustcPullError::NothingToPull, false), 2);
    assert_eq!(pull_exit_status(&RustcPullError::NothingToPull, true), 0);
    let failure = RustcPullError::PullFailed(SyncError::NewRootCommit);
    assert_eq!(pull_exit_status(&failure, false), 1);
    assert_eq!(pull_exit_status(&failure, true), 1);
}

#[test]
fn texts_after_a_pull() {
    assert_eq!(pull_title(&config()), "rust-lang/rust pull update");
    assert_eq!(
        pull_hint(&config()),
        "Now push the current branch to miri (either a fork or the main repo) and create a PR"
    );
}

#[test]
fn pull_request_is_opened_if_the_user_agrees() {
    let (mut offer, step) = maybe_create_gh_pr("rust-lang/miri", "title", "body");
    assert_eq!(step.action, Some(Action::Find { program: "gh".to_string() }));
    let step = offer.step(done("/bin/gh"));
    assert_eq!(
        step.action,
        Some(Action::Ask {
            question: "Do you want to create a rust-lang/miri pull PR using the `gh` tool?".to_string(),
            default: false,
        })
    );
    assert_eq!(*offer.outcome(), None);
    let step = offer.step(done(""));
    assert_eq!(
        step.action,
        Some(Action::Attend {
            line: ["gh", "pr", "create", "--title", "title", "--body", "body", "--repo", "rust-lang/miri"]
                .iter()
                .map(|s| s.to_string())
                .collect(),
        })
    );
    let step = offer.step(done(""));
    assert_eq!(step.action, None);
    assert_eq!(*offer.outcome(), Some(Ok(true)));
}

#[test]
fn pull_request_is_not_opened() {
    let (mut offer, _) = maybe_create_gh_pr("r", "t", "b");
    assert_eq!(offer.step(failed("not found")).action, None);
    assert_eq!(*offer.outcome(), Some(Ok(false)));
    let (mut offer, _) = maybe_create_gh_pr("r", "t", "b");
    offer.step(done(""));
    assert_eq!(offer.step(failed("")).action, None);
    assert_eq!(*offer.outcome(), Some(Ok(false)));
    let (mut offer, _) = maybe_create_gh_pr("r", "t", "b");
    offer.step(done(""));
    offer.step(done(""));
    offer.step(failed("no terminal"));
    assert_eq!(*offer.outcome(), Some(Err(SyncError::Step("no terminal".to_string()))));
}
