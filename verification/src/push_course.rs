//! The course of a push, answer by answer: what is asked for at which place, and where it ends.
use crate::error::Fault;
use crate::git::full_ref;
use crate::pull_course::told;
use crate::push::{PushPhase, PushView};
use crate::push_laws::{lemma_push_is_no_other_word, PushOrder};
use crate::step::{
    asking_url, clean_check, command, head_query, starting, ActionView, Answer, LineView, Notice, ReplyView, StepView,
};
use crate::sync::{PushResult, NO_REBASE_WARN};
use vstd::prelude::*;

verus! {

impl PushOrder {
    /// How many answers it takes to know the local head from the place `at` on: one, or, through the
    /// subtree filter, three, or four where `josh-filter` is installed first.
    pub open spec fn head_answers(self, replies: Seq<ReplyView>, at: int) -> int {
        if self.sync.config.subtree_filter is None {
            1
        } else if replies[at] is Failed {
            4
        } else {
            3
        }
    }

    /// The place of the answer on the commit where the histories parted, when the local head is
    /// known.
    pub open spec fn base_at(self, replies: Seq<ReplyView>) -> int {
        5 + self.head_answers(replies, 5)
    }

    /// The place of the first answer on the local head after the push itself.
    pub open spec fn back_at(self, replies: Seq<ReplyView>) -> int {
        self.base_at(replies) + 5
    }

    /// The place of the answer on the commit that came back, which is the last.
    pub open spec fn last_at(self, replies: Seq<ReplyView>) -> int {
        self.back_at(replies) + self.head_answers(replies, self.back_at(replies))
    }

    /// How the upstream repository is asked whether it has the branch that is to be created.
    pub open spec fn asks_for_branch(self, push_repo: Seq<char>) -> ActionView {
        let line = seq![
            "git"@,
            "ls-remote"@,
            "--heads"@,
            self.sync.config.url_of(push_repo),
            "refs/heads/"@ + self.branch,
        ];
        match self.upstream_checkout {
            Some(dir) => ActionView::RunIn { dir, line, verbose: self.sync.verbose },
            None => ActionView::Run { line, verbose: self.sync.verbose },
        }
    }
}

/// Where the local head is asked for: before the push itself, or after it.
spec fn head_place(order: PushOrder, v: PushView, replies: Seq<ReplyView>) -> int {
    if v.pushed {
        order.back_at(replies)
    } else {
        5
    }
}

/// What the push knows while it is under way, told by the answers that it was given.
spec fn knows(order: PushOrder, v: PushView, replies: Seq<ReplyView>) -> bool {
    let n = replies.len();
    let b = order.base_at(replies);
    &&& v.sync == order.sync && v.username == order.username && v.branch == order.branch && v.inside_ci
        == order.inside_ci && v.upstream_checkout == order.upstream_checkout
    &&& v.outcome is None
    &&& n >= 2 ==> order.sync.config.push_target(order.username) == Ok::<Seq<char>, Fault<Seq<char>>>(v.push_repo)
    &&& n > 3 ==> replies[3] == Answer::Done(v.josh_url)
    &&& n >= b && v.phase != PushPhase::FetchedHead ==> replies[b - 1] == Answer::Done(v.local_head)
    &&& n > b ==> replies[b] is Done
}

/// Where the push stands while it is under way, told by the number of answers that it was given.
spec fn stands(order: PushOrder, v: PushView, replies: Seq<ReplyView>) -> bool {
    let n = replies.len();
    let b = order.base_at(replies);
    let h = head_place(order, v, replies);
    let filtered = order.sync.config.subtree_filter is Some;
    match v.phase {
        PushPhase::Clean => n == 0 && !v.pushed,
        PushPhase::BranchName => n == 1 && !v.pushed,
        PushPhase::Proxy => n == 2 && !v.pushed,
        PushPhase::Url => n == 3 && !v.pushed,
        PushPhase::Fetch => n == 4 && !v.pushed,
        PushPhase::FindFilter => n == h && filtered,
        PushPhase::InstallFilter => n == h + 1 && filtered && replies[h] is Failed,
        PushPhase::RunFilter => n == h + order.head_answers(replies, h) - 2 && filtered,
        PushPhase::FilteredHead => n == h + order.head_answers(replies, h) - 1 && filtered,
        PushPhase::CurrentHead => n == h && !filtered,
        PushPhase::MergeBase => n == b && !v.pushed,
        PushPhase::Changes => n == b + 1 && !v.pushed,
        PushPhase::Existing => n == b + 2 && !v.pushed,
        PushPhase::Push => n == b + 3 && !v.pushed,
        PushPhase::FetchBack => n == b + 4 && v.pushed,
        PushPhase::FetchedHead => n == order.last_at(replies) && v.pushed && replies[n - 1] == Answer::Done(
            v.local_head,
        ),
        PushPhase::Over => false,
    }
}

/// What the push says while it is under way.
spec fn says(order: PushOrder, v: PushView, replies: Seq<ReplyView>, s: StepView) -> bool {
    let config = order.sync.config;
    let verbose = order.sync.verbose;
    let b = order.base_at(replies);
    let h = head_place(order, v, replies);
    let n = replies.len() as int;
    let target = "refs/heads/"@ + order.branch;
    let base = full_ref(config.upstream_branch);
    &&& v.phase != PushPhase::InstallFilter ==> s.lines == Seq::<LineView>::empty()
    &&& match v.phase {
        PushPhase::Clean => s.action == Some(clean_check(verbose)),
        PushPhase::BranchName => s.action == Some(
            command(seq!["git"@, "check-ref-format"@, "--branch"@, order.branch], verbose),
        ),
        PushPhase::Proxy => s.action == Some(starting(order.sync.proxy, config.github_url)),
        PushPhase::Url => s.action == Some(asking_url(v.push_repo, None, config.josh_filter())),
        PushPhase::Fetch => s.action == Some(command(seq!["git"@, "fetch"@, told(replies, 3), base], verbose)),
        PushPhase::FindFilter => s.action == Some(ActionView::Find { program: "josh-filter"@ }),
        PushPhase::InstallFilter => {
            &&& s.action == Some(ActionView::InstallFilter { verbose })
            &&& s.lines == seq![Notice::Stdout("Updating/installing josh-filter binary..."@)]
            &&& !order.inside_ci && !(order.sync.proxy is External)
        },
        PushPhase::RunFilter => s.action == Some(
            ActionView::RunFilter {
                program: told(replies, n - 1),
                line: seq![config.subtree_filter->0, "HEAD"@],
                verbose,
            },
        ),
        PushPhase::FilteredHead => s.action == Some(
            command(seq!["git"@, "rev-parse"@, "FILTERED_HEAD"@], verbose),
        ),
        PushPhase::CurrentHead => s.action == Some(head_query(verbose)),
        PushPhase::MergeBase => s.action == Some(
            command(seq!["git"@, "merge-base"@, "FETCH_HEAD"@, told(replies, b - 1)], verbose),
        ),
        PushPhase::Changes => s.action == Some(
            command(seq!["git"@, "diff"@, "--name-only"@, told(replies, b), told(replies, b - 1)], verbose),
        ),
        PushPhase::Existing => s.action == Some(order.asks_for_branch(v.push_repo)),
        PushPhase::Push => s.action == Some(
            command(
                seq![
                    "git"@,
                    "push"@,
                    "-o"@,
                    "base="@ + base,
                    "--force-with-lease="@ + target + ":"@,
                    told(replies, 3),
                    "HEAD:"@ + target,
                ],
                verbose,
            ),
        ),
        PushPhase::FetchBack => s.action == Some(
            command(seq!["git"@, "fetch"@, told(replies, 3), order.branch], verbose),
        ),
        PushPhase::FetchedHead => s.action == Some(
            command(seq!["git"@, "rev-parse"@, "FETCH_HEAD"@], verbose),
        ),
        PushPhase::Over => false,
    }
}

/// The last step of a run is the step after the last answer.
proof fn lemma_pushed(order: PushOrder, replies: Seq<ReplyView>, reply: ReplyView)
    ensures
        order.moved(replies.push(reply)) == order.after(replies).next(reply),
        order.takes(replies.push(reply)) == (order.takes(replies) && order.after(replies).takes(reply)),
{
    assert(replies.push(reply).drop_last() =~= replies);
}

/// One answer to a push under way.
#[verifier::rlimit(80)]
proof fn lemma_course_goes_on(order: PushOrder, v: PushView, replies: Seq<ReplyView>, reply: ReplyView)
    requires
        knows(order, v, replies),
        stands(order, v, replies),
    ensures
        ({
            let w = v.next(reply).0;
            let next = replies.push(reply);
            w.phase != PushPhase::Over ==> knows(order, w, next) && stands(order, w, next)
        }),
        v.next(reply).0.phase == PushPhase::Over <==> v.next(reply).0.outcome is Some,
{
    let next = replies.push(reply);
    assert(forall|i: int| 0 <= i < replies.len() ==> next[i] == #[trigger] replies[i]);
    assert(next[replies.len() as int] == reply);
    let b = order.base_at(replies);
    assert(replies.len() > 5 ==> order.base_at(next) == b);
    assert(replies.len() > b + 5 ==> order.last_at(next) == order.last_at(replies));
}

/// What is said after one answer to a push under way.
#[verifier::rlimit(80)]
proof fn lemma_course_is_said(order: PushOrder, v: PushView, replies: Seq<ReplyView>, reply: ReplyView)
    requires
        knows(order, v, replies),
        stands(order, v, replies),
    ensures
        v.next(reply).0.phase != PushPhase::Over ==> says(
            order,
            v.next(reply).0,
            replies.push(reply),
            v.next(reply).1,
        ),
{
    let next = replies.push(reply);
    assert(forall|i: int| 0 <= i < replies.len() ==> next[i] == #[trigger] replies[i]);
    assert(next[replies.len() as int] == reply);
    let b = order.base_at(replies);
    assert(replies.len() > 5 ==> order.base_at(next) == b);
}

/// The facts of `knows`, `stands` and `says` hold of every push under way.
proof fn lemma_course(order: PushOrder, replies: Seq<ReplyView>)
    requires
        order.takes(replies),
    ensures
        order.after(replies).phase == PushPhase::Over <==> order.after(replies).outcome is Some,
        order.after(replies).outcome is None ==> knows(order, order.after(replies), replies) && stands(
            order,
            order.after(replies),
            replies,
        ) && says(order, order.after(replies), replies, order.step(replies)),
    decreases replies.len(),
{
    if replies.len() > 0 {
        let front = replies.drop_last();
        assert(replies =~= front.push(replies.last()));
        lemma_course(order, front);
        lemma_pushed(order, front, replies.last());
        lemma_course_goes_on(order, order.after(front), front, replies.last());
        lemma_course_is_said(order, order.after(front), front, replies.last());
    }
}

/// Before the local head is known, a push asks in turn: that the checkout has no changes; that the
/// branch can be a branch; that the proxy runs; under which URL the proxy serves the repository that
/// is pushed to, through the configured filter; and for the upstream branch of that URL.
pub proof fn law_push_prepares(order: PushOrder, replies: Seq<ReplyView>)
    requires
        order.takes(replies),
        order.after(replies).outcome is None,
        replies.len() < 5,
    ensures
        order.step(replies).lines == Seq::<LineView>::empty(),
        replies.len() >= 2 ==> order.sync.config.push_target(order.username) is Ok,
        ({
            let n = replies.len();
            let config = order.sync.config;
            let verbose = order.sync.verbose;
            order.step(replies).action == Some(
                if n == 0 {
                    ActionView::EnsureClean { verbose }
                } else if n == 1 {
                    ActionView::Run { line: seq!["git"@, "check-ref-format"@, "--branch"@, order.branch], verbose }
                } else if n == 2 {
                    ActionView::StartProxy { proxy: order.sync.proxy, remote: config.github_url }
                } else if n == 3 {
                    ActionView::ProxyUrl {
                        repo: config.push_target(order.username)->Ok_0,
                        commit: None,
                        filter: config.josh_filter(),
                    }
                } else {
                    ActionView::Run {
                        line: seq!["git"@, "fetch"@, told(replies, 3), full_ref(config.upstream_branch)],
                        verbose,
                    }
                },
            )
        }),
{
    lemma_course(order, replies);
}

/// The local head is asked for twice, before and after the push itself, and in the same way: as the
/// commit that is checked out, or, where a subtree filter is configured, as what `josh-filter` makes
/// of it. `josh-filter` is looked for and, where it is missing, installed; it is run from where it
/// was found.
pub proof fn law_push_asks_for_local_head(order: PushOrder, replies: Seq<ReplyView>, at: int, j: int)
    requires
        order.takes(replies),
        order.after(replies).outcome is None,
        at == 5 || at == order.back_at(replies),
        replies.len() == at + j,
        0 <= j < order.head_answers(replies, at),
    ensures
        ({
            let config = order.sync.config;
            let verbose = order.sync.verbose;
            let all = order.head_answers(replies, at);
            order.step(replies).action == Some(
                if config.subtree_filter is None {
                    ActionView::CurrentHead { verbose }
                } else if j == 0 {
                    ActionView::Find { program: "josh-filter"@ }
                } else if j == all - 1 {
                    ActionView::Run { line: seq!["git"@, "rev-parse"@, "FILTERED_HEAD"@], verbose }
                } else if j == all - 2 {
                    ActionView::RunFilter {
                        program: told(replies, at + j - 1),
                        line: seq![config.subtree_filter->0, "HEAD"@],
                        verbose,
                    }
                } else {
                    ActionView::InstallFilter { verbose }
                },
            )
        }),
        order.step(replies).lines == if j == 1 && order.head_answers(replies, at) == 4 {
            seq![Notice::Stdout("Updating/installing josh-filter binary..."@)]
        } else {
            Seq::<LineView>::empty()
        },
        j == 1 && order.head_answers(replies, at) == 4 ==> !order.inside_ci && !(order.sync.proxy is External),
{
    lemma_course(order, replies);
}

/// With the local head, a push asks in turn: for the commit where it and the upstream branch parted;
/// for the files that differ between that commit and the local head; whether the repository that is
/// pushed to has the branch already; for the push of HEAD to that branch, on top of the upstream
/// branch and only where the branch is still missing; and for the branch back. When the local head
/// is known again, it asks for the commit that came back.
pub proof fn law_push_offers(order: PushOrder, replies: Seq<ReplyView>)
    requires
        order.takes(replies),
        order.after(replies).outcome is None,
        order.base_at(replies) <= replies.len() < order.back_at(replies) || replies.len() >= order.last_at(replies),
    ensures
        order.step(replies).lines == Seq::<LineView>::empty(),
        replies.len() <= order.last_at(replies),
        ({
            let n = replies.len();
            let b = order.base_at(replies);
            let verbose = order.sync.verbose;
            let head = told(replies, b - 1);
            let target = "refs/heads/"@ + order.branch;
            order.step(replies).action == Some(
                if n == b {
                    ActionView::Run { line: seq!["git"@, "merge-base"@, "FETCH_HEAD"@, head], verbose }
                } else if n == b + 1 {
                    ActionView::Run { line: seq!["git"@, "diff"@, "--name-only"@, told(replies, b), head], verbose }
                } else if n == b + 2 {
                    order.asks_for_branch(order.sync.config.push_target(order.username)->Ok_0)
                } else if n == b + 3 {
                    ActionView::Run {
                        line: seq![
                            "git"@,
                            "push"@,
                            "-o"@,
                            "base="@ + full_ref(order.sync.config.upstream_branch),
                            "--force-with-lease="@ + target + ":"@,
                            told(replies, 3),
                            "HEAD:"@ + target,
                        ],
                        verbose,
                    }
                } else if n == b + 4 {
                    ActionView::Run { line: seq!["git"@, "fetch"@, told(replies, 3), order.branch], verbose }
                } else {
                    ActionView::Run { line: seq!["git"@, "rev-parse"@, "FETCH_HEAD"@], verbose }
                },
            )
        }),
{
    lemma_course(order, replies);
}

/// What an answer makes of a push before the local head is known. A step that failed ends it, with
/// the words of the step; and so does a repository to push to that cannot be told.
pub proof fn law_answer_before_head(order: PushOrder, replies: Seq<ReplyView>, reply: ReplyView)
    requires
        order.takes(replies.push(reply)),
        replies.len() < 5,
    ensures
        order.takes(replies),
        order.after(replies).outcome is None,
        order.after(replies.push(reply)).outcome == match reply {
            Answer::Failed(words) => Some(Err::<PushResult, Fault<Seq<char>>>(Fault::Step(words))),
            Answer::Done(_) => match order.sync.config.push_target(order.username) {
                Err(fault) if replies.len() == 1 => Some(Err(fault)),
                _ => None,
            },
        },
        order.after(replies.push(reply)).outcome is Some ==> order.step(replies.push(reply)).action is None
            && order.step(replies.push(reply)).lines == Seq::<LineView>::empty(),
{
    lemma_pushed(order, replies, reply);
    lemma_course(order, replies);
}

/// What an answer makes of a push that asks for the local head, before or after the push itself.
/// That `josh-filter` is missing ends it in CI and beside a proxy that somebody else runs; elsewhere
/// it ends where `josh-filter` cannot be installed. Other steps end it where they fail.
pub proof fn law_answer_on_head(order: PushOrder, replies: Seq<ReplyView>, reply: ReplyView, at: int, j: int)
    requires
        order.takes(replies.push(reply)),
        at == 5 || at == order.back_at(replies),
        replies.len() == at + j,
        0 <= j < order.head_answers(replies.push(reply), at),
    ensures
        order.takes(replies),
        order.after(replies).outcome is None,
        ({
            let filtered = order.sync.config.subtree_filter is Some;
            let all = order.head_answers(replies.push(reply), at);
            order.after(replies.push(reply)).outcome == match reply {
                Answer::Failed(words) => if filtered && j == 0 {
                    if order.inside_ci || order.sync.proxy is External {
                        Some(Err::<PushResult, Fault<Seq<char>>>(Fault::FilterNotProvisioned))
                    } else {
                        None
                    }
                } else if filtered && j == all - 3 {
                    Some(Err(Fault::FilterNotInstalled))
                } else if filtered && j == all - 1 {
                    Some(Err(Fault::FilteredHead(words)))
                } else {
                    Some(Err(Fault::Step(words)))
                },
                Answer::Done(_) => None,
            }
        }),
        order.after(replies.push(reply)).outcome is Some ==> order.step(replies.push(reply)).action is None
            && order.step(replies.push(reply)).lines == Seq::<LineView>::empty(),
{
    lemma_pushed(order, replies, reply);
    lemma_course(order, replies);
    let next = replies.push(reply);
    assert(j > 0 ==> next[at] == replies[at]);
    assert(j == 0 ==> next[at] == reply);
}

/// What an answer makes of a push that knows the local head. Without files that differ there is
/// nothing to push, and it ends. It ends where the branch is there already, and where what came back
/// is not the local head. It ends well where what came back is the local head. Steps end it where
/// they fail.
pub proof fn law_answer_on_offer(order: PushOrder, replies: Seq<ReplyView>, reply: ReplyView)
    requires
        order.takes(replies.push(reply)),
        order.base_at(replies) <= replies.len() < order.back_at(replies) || replies.len() >= order.last_at(replies),
    ensures
        order.takes(replies),
        order.after(replies).outcome is None,
        ({
            let n = replies.len();
            let b = order.base_at(replies);
            let next = replies.push(reply);
            order.after(next).outcome == match reply {
                Answer::Failed(words) => Some(Err::<PushResult, Fault<Seq<char>>>(Fault::Step(words))),
                Answer::Done(text) => if n == b + 1 && text.len() == 0 {
                    Some(Ok(PushResult::NothingToPush))
                } else if n == b + 2 && text.len() > 0 {
                    Some(
                        Err(
                            Fault::TargetBranchExists {
                                repo: order.sync.config.push_target(order.username)->Ok_0,
                                branch: order.branch,
                            },
                        ),
                    )
                } else if n == order.last_at(replies) {
                    if text == told(replies, n - 1) {
                        Some(Ok(PushResult::Pushed))
                    } else {
                        Some(Err(Fault::NotRoundTrip { expected: told(replies, n - 1), got: text }))
                    }
                } else {
                    None
                },
            }
        }),
        order.after(replies.push(reply)).outcome is Some ==> {
            let end = order.after(replies.push(reply)).outcome->0;
            &&& order.step(replies.push(reply)).action is None
            &&& order.step(replies.push(reply)).lines == if end == Ok::<PushResult, Fault<Seq<char>>>(
                PushResult::Pushed,
            ) {
                seq![
                    Notice::Stdout(
                        "Confirmed that the push round-trips back to "@ + order.sync.config.repo
                            + " properly. Please create an upstream PR."@,
                    ),
                    Notice::Stdout(NO_REBASE_WARN@),
                ]
            } else {
                Seq::<LineView>::empty()
            }
        },
{
    lemma_pushed(order, replies, reply);
    lemma_course(order, replies);
    let s = order.step(replies.push(reply));
    if order.after(replies.push(reply)).outcome == Some(Ok::<PushResult, Fault<Seq<char>>>(PushResult::Pushed)) {
        assert(s.lines =~= seq![
            Notice::Stdout(
                "Confirmed that the push round-trips back to "@ + order.sync.config.repo
                    + " properly. Please create an upstream PR."@,
            ),
            Notice::Stdout(NO_REBASE_WARN@),
        ]);
    }
}

/// Which answers a push takes: any, while it is under way; but the proxy can be asked for a URL only
/// with a path or a filter, and not both.
pub proof fn law_push_takes(order: PushOrder, replies: Seq<ReplyView>, reply: ReplyView)
    ensures
        order.takes(replies.push(reply)) <==> {
            &&& order.takes(replies)
            &&& order.after(replies).outcome is None
            &&& reply is Done && replies.len() == 2 ==> order.sync.config.path is Some
                != order.sync.config.filter is Some
        },
{
    lemma_pushed(order, replies, reply);
    if order.takes(replies) {
        lemma_course(order, replies);
    }
}

/// A push command is asked for only where the list of the files that differ was not empty, whoever
/// asks and wherever the push is run.
pub proof fn law_push_needs_changes(order: PushOrder, replies: Seq<ReplyView>, line: Seq<Seq<char>>, verbose: bool)
    requires
        order.takes(replies),
        order.step(replies).action == Some(ActionView::Run { line, verbose }),
        line.len() >= 2,
        line[1] == "push"@,
    ensures
        replies.len() == order.base_at(replies) + 3,
        replies[order.base_at(replies) + 1] is Done,
        told(replies, order.base_at(replies) + 1).len() > 0,
        told(replies, order.base_at(replies) + 2).len() == 0,
{
    lemma_course(order, replies);
    lemma_push_is_no_other_word();
    if order.after(replies).outcome is Some {
        assert(replies =~= replies.drop_last().push(replies.last()));
        lemma_course(order, replies.drop_last());
        lemma_pushed(order, replies.drop_last(), replies.last());
    }
    assert(order.after(replies).phase == PushPhase::Push);
    let front = replies.drop_last();
    let first = front.drop_last();
    assert(replies =~= front.push(replies.last()));
    assert(front =~= first.push(front.last()));
    lemma_pushed(order, front, replies.last());
    lemma_pushed(order, first, front.last());
    lemma_course(order, front);
    lemma_course(order, first);
    assert(front[5] == replies[5] && first[5] == replies[5]);
}

} // verus!
