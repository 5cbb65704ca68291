//! The course of a pull, answer by answer: what is asked for at which place, and where it ends.
use crate::error::Fault;
use crate::pull::{merge_text, PullPhase, PullView, MERGE_STOPPED};
use crate::pull_laws::PullOrder;
use crate::git::full_ref;
use crate::step::{
    asking_url, clean_check, command, head_query, recording, starting, streaming, ActionView, Answer, LineView, Notice, ReplyView,
    StepView,
};
use crate::sync::{GuardView, PullFault, NO_REBASE_WARN};
use crate::text::{decimal, has_short_form, joined, parse_complaint, word};
use vstd::prelude::*;

verus! {

/// What the answer at the place `i` hands back.
pub open spec fn told(replies: Seq<ReplyView>, i: int) -> Seq<char> {
    replies[i]->Done_0
}

impl PullOrder {
    /// The place of the first answer on the post-pull operation `k`, or, after the last of them,
    /// of the answer on the root commits. An operation that changes something takes five answers,
    /// another one three.
    pub open spec fn operation_at(self, replies: Seq<ReplyView>, k: nat) -> int
        decreases k,
    {
        if k == 0 {
            self.clean_at() + 11
        } else {
            let at = self.operation_at(replies, (k - 1) as nat);
            if replies[at + 2] is Failed {
                at + 5
            } else {
                at + 3
            }
        }
    }

    /// How many post-pull operations are configured.
    pub open spec fn operation_count(self) -> nat {
        self.sync.config.post_pull.len()
    }

    /// The place of the answer on the root commits after everything.
    pub open spec fn end_at(self, replies: Seq<ReplyView>) -> int {
        self.operation_at(replies, self.operation_count())
    }
}

/// Operations follow one another.
proof fn lemma_operations_follow(order: PullOrder, replies: Seq<ReplyView>, j: nat, k: nat)
    requires
        j < k,
    ensures
        order.operation_at(replies, j) + 3 <= order.operation_at(replies, j + 1) <= order.operation_at(replies, k),
        replies[order.operation_at(replies, j) + 2] is Failed ==> order.operation_at(replies, j) + 5
            == order.operation_at(replies, j + 1),
    decreases k,
{
    if j + 1 < k {
        lemma_operations_follow(order, replies, j, (k - 1) as nat);
        let at = order.operation_at(replies, (k - 1) as nat);
        assert(order.operation_at(replies, k) >= at);
    }
}

/// The place of an operation does not depend on answers after it.
proof fn lemma_operation_stays(order: PullOrder, replies: Seq<ReplyView>, reply: ReplyView, k: nat)
    requires
        order.operation_at(replies, k) <= replies.len(),
    ensures
        order.operation_at(replies.push(reply), k) == order.operation_at(replies, k),
    decreases k,
{
    if k > 0 {
        let j = (k - 1) as nat;
        lemma_operations_follow(order, replies, j, k);
        lemma_operation_stays(order, replies, reply, j);
        let at = order.operation_at(replies, j);
        assert(0 <= at + 2) by {
            lemma_operation_is_late(order, replies, j);
        }
        assert(replies.push(reply)[at + 2] == replies[at + 2]);
    }
}

/// Operations come after the merge.
proof fn lemma_operation_is_late(order: PullOrder, replies: Seq<ReplyView>, k: nat)
    ensures
        order.operation_at(replies, k) >= order.clean_at() + 11,
{
    if k > 0 {
        lemma_operations_follow(order, replies, 0, k);
    }
}

/// What the pull knows while it is under way, told by the answers that it was given.
spec fn knows(order: PullOrder, v: PullView, replies: Seq<ReplyView>) -> bool {
    let c = order.clean_at();
    let n = replies.len();
    &&& v.sync == order.sync && v.upstream_repo == order.upstream_repo && v.allow_noop == order.allow_noop
    &&& v.outcome is None
    &&& n >= c ==> order.commit(replies) == Some(v.upstream_sha)
    &&& n > c + 2 ==> replies[c + 2] == Answer::Done(v.josh_url)
    &&& n <= c + 3 ==> v.guard is None
    &&& n > c + 3 ==> replies[c + 3] is Done && v.guard == Some(
        GuardView {
            disarmed: v.phase == PullPhase::RootsAfter || v.phase == PullPhase::Record,
            reset_to: told(replies, c + 3),
            verbose: order.sync.verbose,
        },
    )
    &&& n > c + 5 ==> replies[c + 5] is Done && decimal(told(replies, c + 5)) == Some(v.roots_before as nat)
    &&& n > c + 6 ==> replies[c + 6] == Answer::Done(v.pre_merge)
    &&& n > c + 7 ==> replies[c + 7] is Done && v.message == merge_text(
        order.sync.config,
        order.upstream_repo,
        v.upstream_sha,
        told(replies, c + 7),
    )
    &&& n > c + 9 ==> replies[c + 9] == Answer::Done(v.current)
}

/// Where the pull stands while it is under way, told by the number of answers that it was given.
spec fn stands(order: PullOrder, v: PullView, replies: Seq<ReplyView>) -> bool {
    let c = order.clean_at();
    let n = replies.len();
    let at = order.operation_at(replies, v.operation);
    match v.phase {
        PullPhase::Upstream => n == 0 && order.upstream_commit is None,
        PullPhase::Clean => n == c,
        PullPhase::Proxy => n == c + 1,
        PullPhase::Url => n == c + 2,
        PullPhase::OriginalHead => n == c + 3,
        PullPhase::Fetch => n == c + 4,
        PullPhase::RootsBefore => n == c + 5,
        PullPhase::PreMerge => n == c + 6,
        PullPhase::Incoming => n == c + 7,
        PullPhase::Merge => n == c + 8,
        PullPhase::MergedHead => n == c + 9,
        PullPhase::Diff => n == c + 10,
        PullPhase::OperationHead => v.operation < order.operation_count() && n == at,
        PullPhase::OperationRun => v.operation < order.operation_count() && n == at + 1 && replies[at]
            == Answer::Done(v.operation_head),
        PullPhase::OperationDiff => v.operation < order.operation_count() && n == at + 2 && replies[at]
            == Answer::Done(v.operation_head),
        PullPhase::OperationAdd => v.operation < order.operation_count() && n == at + 3 && replies[at + 2] is Failed,
        PullPhase::OperationCommit => v.operation < order.operation_count() && n == at + 4
            && replies[at + 2] is Failed,
        PullPhase::RootsAfter => n == order.end_at(replies),
        PullPhase::Record => n == order.end_at(replies) + 1 && order.sync.last_upstream_sha_path is Some,
        PullPhase::Over => false,
    }
}

/// What the pull says while it is under way.
spec fn says(order: PullOrder, v: PullView, replies: Seq<ReplyView>, s: StepView) -> bool {
    let c = order.clean_at();
    let config = order.sync.config;
    let verbose = order.sync.verbose;
    let k = v.operation as int;
    let at = order.operation_at(replies, v.operation);
    let count = seq!["git"@, "rev-list"@, "HEAD"@, "--max-parents=0"@, "--count"@];
    let finished = Notice::Stdout("Pull finished! Current HEAD is "@ + told(replies, c + 9));
    let warned = Notice::Stdout(NO_REBASE_WARN@);
    match v.phase {
        PullPhase::Upstream => {
            &&& s.lines == Seq::<LineView>::empty()
            &&& s.action == Some(
                command(
                    seq!["git"@, "ls-remote"@, config.url_of(order.upstream_repo), full_ref(config.upstream_branch)],
                    verbose,
                ),
            )
        },
        PullPhase::Clean => s.lines == Seq::<LineView>::empty() && s.action == Some(clean_check(verbose)),
        PullPhase::Proxy => s.lines == Seq::<LineView>::empty() && s.action == Some(
            starting(order.sync.proxy, config.github_url),
        ),
        PullPhase::Url => s.lines == Seq::<LineView>::empty() && s.action == Some(
            asking_url(order.upstream_repo, order.commit(replies), config.josh_filter()),
        ),
        PullPhase::OriginalHead => s.lines == Seq::<LineView>::empty() && s.action == Some(head_query(verbose)),
        PullPhase::Fetch => {
            &&& s.lines == seq![
                Notice::Stdout("new upstream base: "@ + order.commit(replies)->0),
                Notice::Stdout("original local HEAD: "@ + told(replies, c + 3)),
            ]
            &&& s.action == Some(command(seq!["git"@, "fetch"@, told(replies, c + 2)], verbose))
        },
        PullPhase::RootsBefore => s.lines == Seq::<LineView>::empty() && s.action == Some(command(count, verbose)),
        PullPhase::PreMerge => s.lines == Seq::<LineView>::empty() && s.action == Some(head_query(verbose)),
        PullPhase::Incoming => s.lines == Seq::<LineView>::empty() && s.action == Some(
            command(seq!["git"@, "rev-parse"@, "FETCH_HEAD"@], verbose),
        ),
        PullPhase::Merge => {
            &&& s.lines == seq![Notice::Stdout("incoming ref: "@ + told(replies, c + 7))]
            &&& s.action == Some(
                streaming(
                    seq!["git"@, "merge"@, "FETCH_HEAD"@, "--no-verify"@, "--no-ff"@, "-m"@, v.message],
                    verbose,
                ),
            )
        },
        PullPhase::MergedHead => s.lines == Seq::<LineView>::empty() && s.action == Some(head_query(verbose)),
        PullPhase::Diff => s.lines == Seq::<LineView>::empty() && s.action == Some(
            command(seq!["git"@, "diff"@, "--exit-code"@, told(replies, c + 6)], verbose),
        ),
        PullPhase::OperationHead => {
            &&& s.lines == if k == 0 {
                seq![finished, warned, Notice::Stdout("Running post-pull operation(s)"@)]
            } else {
                Seq::<LineView>::empty()
            }
            &&& s.action == Some(head_query(verbose))
        },
        PullPhase::OperationRun => s.lines == Seq::<LineView>::empty() && s.action == Some(
            command(config.post_pull[k].cmd, true),
        ),
        PullPhase::OperationDiff => s.lines == Seq::<LineView>::empty() && s.action == Some(
            command(seq!["git"@, "diff"@, "--exit-code"@, told(replies, at)], verbose),
        ),
        PullPhase::OperationAdd => {
            &&& s.lines == seq![
                Notice::Stdout(
                    "`"@ + joined(config.post_pull[k].cmd, " "@) + "` changed something, committing with message `"@
                        + config.post_pull[k].commit_message + "`"@,
                ),
            ]
            &&& s.action == Some(command(seq!["git"@, "add"@, "-u"@], verbose))
        },
        PullPhase::OperationCommit => s.lines == Seq::<LineView>::empty() && s.action == Some(
            command(seq!["git"@, "commit"@, "-m"@, config.post_pull[k].commit_message], verbose),
        ),
        PullPhase::RootsAfter => {
            &&& s.lines == if order.operation_count() == 0 {
                seq![finished, warned]
            } else {
                Seq::<LineView>::empty()
            }
            &&& s.action == Some(command(count, verbose))
        },
        PullPhase::Record => s.lines == Seq::<LineView>::empty() && s.action == Some(
            recording(order.sync.last_upstream_sha_path->0, order.commit(replies)->0),
        ),
        PullPhase::Over => false,
    }
}

/// The last step of a run is the step after the last answer.
proof fn lemma_pushed(order: PullOrder, replies: Seq<ReplyView>, reply: ReplyView)
    ensures
        order.moved(replies.push(reply)) == order.after(replies).next(reply),
        order.takes(replies.push(reply)) == (order.takes(replies) && order.after(replies).takes(reply)),
{
    assert(replies.push(reply).drop_last() =~= replies);
}

/// What is said after one answer to a pull under way.
#[verifier::rlimit(80)]
proof fn lemma_course_is_said(order: PullOrder, v: PullView, replies: Seq<ReplyView>, reply: ReplyView)
    requires
        knows(order, v, replies),
        stands(order, v, replies),
    ensures
        v.next(reply).0.phase != PullPhase::Over ==> says(
            order,
            v.next(reply).0,
            replies.push(reply),
            v.next(reply).1,
        ),
{
    let (w, s) = v.next(reply);
    let next = replies.push(reply);
    assert(forall|i: int| 0 <= i < replies.len() ==> next[i] == #[trigger] replies[i]);
    assert(next[replies.len() as int] == reply);
    lemma_operation_is_late(order, replies, v.operation);
    match v.phase {
        PullPhase::OperationHead | PullPhase::OperationRun | PullPhase::OperationDiff | PullPhase::OperationAdd
        | PullPhase::OperationCommit => {
            lemma_operation_stays(order, replies, reply, v.operation);
        },
        PullPhase::RootsAfter => {
            lemma_operation_is_late(order, replies, order.operation_count());
        },
        _ => {},
    }
    let c = order.clean_at();
    let finished = Notice::Stdout("Pull finished! Current HEAD is "@ + v.current);
    let warned = Notice::Stdout(NO_REBASE_WARN@);
    if w.phase == PullPhase::Fetch {
        assert(s.lines =~= seq![
            Notice::Stdout("new upstream base: "@ + v.upstream_sha),
            Notice::Stdout("original local HEAD: "@ + told(next, c + 3)),
        ]);
    } else if v.phase == PullPhase::Diff && w.phase == PullPhase::OperationHead {
        assert(s.lines =~= seq![finished, warned, Notice::Stdout("Running post-pull operation(s)"@)]);
    } else if v.phase == PullPhase::Diff && w.phase == PullPhase::RootsAfter {
        assert(s.lines =~= seq![finished, warned]);
    }
}

/// One answer to a pull under way.
#[verifier::rlimit(60)]
proof fn lemma_course_goes_on(order: PullOrder, v: PullView, replies: Seq<ReplyView>, reply: ReplyView)
    requires
        knows(order, v, replies),
        stands(order, v, replies),
    ensures
        ({
            let w = v.next(reply).0;
            let next = replies.push(reply);
            w.phase != PullPhase::Over ==> knows(order, w, next) && stands(order, w, next)
        }),
        v.next(reply).0.phase == PullPhase::Over <==> v.next(reply).0.outcome is Some,
{
    let w = v.next(reply).0;
    let next = replies.push(reply);
    let c = order.clean_at();
    let at = order.operation_at(replies, v.operation);
    assert(forall|i: int| 0 <= i < replies.len() ==> next[i] == #[trigger] replies[i]);
    assert(next[replies.len() as int] == reply);
    assert(order.operation_at(next, 0) == c + 11);
    lemma_operation_is_late(order, replies, v.operation);
    match v.phase {
        PullPhase::OperationHead | PullPhase::OperationRun | PullPhase::OperationDiff | PullPhase::OperationAdd
        | PullPhase::OperationCommit => {
            lemma_operation_stays(order, replies, reply, v.operation);
            assert(order.operation_at(next, v.operation + 1) == if next[at + 2] is Failed {
                at + 5
            } else {
                at + 3
            });
        },
        PullPhase::RootsAfter => {
            lemma_operation_stays(order, replies, reply, order.operation_count());
            lemma_operation_is_late(order, replies, order.operation_count());
        },
        _ => {},
    }
}

/// The facts of `knows` and `stands` hold of every pull under way.
proof fn lemma_course(order: PullOrder, replies: Seq<ReplyView>)
    requires
        order.takes(replies),
    ensures
        order.after(replies).phase == PullPhase::Over <==> order.after(replies).outcome is Some,
        order.after(replies).outcome is None ==> knows(order, order.after(replies), replies) && stands(
            order,
            order.after(replies),
            replies,
        ) && says(order, order.after(replies), replies, order.step(replies)),
    decreases replies.len(),
{
    if replies.len() > 0 {
        let front = replies.drop_last();
        assert(replies =~= front.push(replies.last()));
        lemma_course(order, front);
        lemma_pushed(order, front, replies.last());
        lemma_course_goes_on(order, order.after(front), front, replies.last());
        lemma_course_is_said(order, order.after(front), front, replies.last());
    }
}

/// Where a pull under way stands in its operations.
proof fn lemma_operation_here(order: PullOrder, replies: Seq<ReplyView>, k: nat, j: int)
    requires
        order.takes(replies),
        order.after(replies).outcome is None,
        k < order.operation_count(),
        replies.len() == order.operation_at(replies, k) + j,
        0 <= j <= 2 || j <= 4 && replies[order.operation_at(replies, k) + 2] is Failed,
        0 <= j,
    ensures
        order.after(replies).operation == k,
        order.after(replies).phase == (if j == 0 {
            PullPhase::OperationHead
        } else if j == 1 {
            PullPhase::OperationRun
        } else if j == 2 {
            PullPhase::OperationDiff
        } else if j == 3 {
            PullPhase::OperationAdd
        } else {
            PullPhase::OperationCommit
        }),
{
    lemma_course(order, replies);
    let v = order.after(replies);
    lemma_operation_is_late(order, replies, k);
    lemma_operations_follow(order, replies, k, order.operation_count());
    if v.phase == PullPhase::OperationHead || v.phase == PullPhase::OperationRun || v.phase == PullPhase::OperationDiff
        || v.phase == PullPhase::OperationAdd || v.phase == PullPhase::OperationCommit {
        if v.operation < k {
            lemma_operations_follow(order, replies, v.operation, k);
        } else if v.operation > k {
            lemma_operations_follow(order, replies, k, v.operation);
        }
    }
}

/// A pull under way stands at a place where `end` answers or more were given only when its
/// operations are done.
proof fn lemma_end_here(order: PullOrder, replies: Seq<ReplyView>)
    requires
        order.takes(replies),
        order.after(replies).outcome is None,
    ensures
        replies.len() == order.end_at(replies) <==> order.after(replies).phase == PullPhase::RootsAfter,
        replies.len() == order.end_at(replies) + 1 <==> order.after(replies).phase == PullPhase::Record,
        replies.len() <= order.end_at(replies) + order.sync.records(),
{
    lemma_course(order, replies);
    let v = order.after(replies);
    let n = order.operation_count();
    lemma_operation_is_late(order, replies, n);
    if v.phase == PullPhase::OperationHead || v.phase == PullPhase::OperationRun || v.phase == PullPhase::OperationDiff
        || v.phase == PullPhase::OperationAdd || v.phase == PullPhase::OperationCommit {
        lemma_operations_follow(order, replies, v.operation, n);
    }
}

/// Before anything is changed, a pull asks in turn: which commit the upstream branch of the remote
/// has, where no commit is given; that the checkout has no changes; that the proxy runs; under
/// which URL the proxy serves the upstream repository, at the commit that is pulled, through the
/// configured filter; and which commit is checked out.
pub proof fn law_pull_prepares(order: PullOrder, replies: Seq<ReplyView>)
    requires
        order.takes(replies),
        order.after(replies).outcome is None,
        replies.len() <= order.clean_at() + 3,
    ensures
        order.step(replies).lines == Seq::<LineView>::empty(),
        ({
            let c = order.clean_at();
            let n = replies.len();
            let config = order.sync.config;
            let verbose = order.sync.verbose;
            order.step(replies).action == Some(
                if n < c {
                    ActionView::Run {
                        line: seq![
                            "git"@,
                            "ls-remote"@,
                            config.url_of(order.upstream_repo),
                            full_ref(config.upstream_branch),
                        ],
                        verbose,
                    }
                } else if n == c {
                    ActionView::EnsureClean { verbose }
                } else if n == c + 1 {
                    ActionView::StartProxy { proxy: order.sync.proxy, remote: config.github_url }
                } else if n == c + 2 {
                    ActionView::ProxyUrl {
                        repo: order.upstream_repo,
                        commit: order.commit(replies),
                        filter: config.josh_filter(),
                    }
                } else {
                    ActionView::CurrentHead { verbose }
                },
            )
        }),
        replies.len() >= order.clean_at() ==> order.commit(replies) is Some,
        order.after(replies).guard is None,
{
    lemma_course(order, replies);
    lemma_operation_is_late(order, replies, order.after(replies).operation);
    lemma_operation_is_late(order, replies, order.operation_count());
}

/// The merge of a pull goes on from the URL that the proxy named: that URL is fetched, the root
/// commits are counted, the commit that is checked out and the one that was fetched are asked for,
/// the fetched one is merged under the message that names it and the upstream commit, and the tree
/// is compared with the commit that was checked out before the merge.
pub proof fn law_pull_merges(order: PullOrder, replies: Seq<ReplyView>)
    requires
        order.takes(replies),
        order.after(replies).outcome is None,
        order.clean_at() + 4 <= replies.len() <= order.clean_at() + 10,
    ensures
        order.commit(replies) is Some,
        ({
            let c = order.clean_at();
            let n = replies.len();
            let verbose = order.sync.verbose;
            order.step(replies).action == Some(
                if n == c + 4 {
                    ActionView::Run { line: seq!["git"@, "fetch"@, told(replies, c + 2)], verbose }
                } else if n == c + 5 {
                    ActionView::Run {
                        line: seq!["git"@, "rev-list"@, "HEAD"@, "--max-parents=0"@, "--count"@],
                        verbose,
                    }
                } else if n == c + 7 {
                    ActionView::Run { line: seq!["git"@, "rev-parse"@, "FETCH_HEAD"@], verbose }
                } else if n == c + 8 {
                    ActionView::Stream {
                        line: seq![
                            "git"@,
                            "merge"@,
                            "FETCH_HEAD"@,
                            "--no-verify"@,
                            "--no-ff"@,
                            "-m"@,
                            merge_text(
                                order.sync.config,
                                order.upstream_repo,
                                order.commit(replies)->0,
                                told(replies, c + 7),
                            ),
                        ],
                        verbose,
                    }
                } else if n == c + 10 {
                    ActionView::Run { line: seq!["git"@, "diff"@, "--exit-code"@, told(replies, c + 6)], verbose }
                } else {
                    ActionView::CurrentHead { verbose }
                },
            )
        }),
        ({
            let c = order.clean_at();
            let n = replies.len();
            order.step(replies).lines == if n == c + 4 {
                seq![
                    Notice::Stdout("new upstream base: "@ + order.commit(replies)->0),
                    Notice::Stdout("original local HEAD: "@ + told(replies, c + 3)),
                ]
            } else if n == c + 8 {
                seq![Notice::Stdout("incoming ref: "@ + told(replies, c + 7))]
            } else {
                Seq::<LineView>::empty()
            }
        }),
{
    lemma_course(order, replies);
    lemma_operation_is_late(order, replies, order.after(replies).operation);
    lemma_operation_is_late(order, replies, order.operation_count());
}

/// Each post-pull operation is run in its turn: the commit that is checked out is asked for, the
/// command of this operation is run, and the tree is compared with that commit. Where it differs,
/// the user is told so, the changes are staged and then committed under the message of this
/// operation.
pub proof fn law_pull_runs_operation(order: PullOrder, replies: Seq<ReplyView>, k: nat, j: int)
    requires
        order.takes(replies),
        order.after(replies).outcome is None,
        k < order.operation_count(),
        replies.len() == order.operation_at(replies, k) + j,
        0 <= j <= 2 || 3 <= j <= 4 && replies[order.operation_at(replies, k) + 2] is Failed,
    ensures
        ({
            let operation = order.sync.config.post_pull[k as int];
            let verbose = order.sync.verbose;
            order.step(replies).action == Some(
                if j == 0 {
                    ActionView::CurrentHead { verbose }
                } else if j == 1 {
                    ActionView::Run { line: operation.cmd, verbose: true }
                } else if j == 2 {
                    ActionView::Run {
                        line: seq!["git"@, "diff"@, "--exit-code"@, told(replies, order.operation_at(replies, k))],
                        verbose,
                    }
                } else if j == 3 {
                    ActionView::Run { line: seq!["git"@, "add"@, "-u"@], verbose }
                } else {
                    ActionView::Run { line: seq!["git"@, "commit"@, "-m"@, operation.commit_message], verbose }
                },
            )
        }),
        ({
            let operation = order.sync.config.post_pull[k as int];
            order.step(replies).lines == if j == 0 && k == 0 {
                seq![
                    Notice::Stdout("Pull finished! Current HEAD is "@ + told(replies, order.clean_at() + 9)),
                    Notice::Stdout(NO_REBASE_WARN@),
                    Notice::Stdout("Running post-pull operation(s)"@),
                ]
            } else if j == 3 {
                seq![
                    Notice::Stdout(
                        "`"@ + joined(operation.cmd, " "@) + "` changed something, committing with message `"@
                            + operation.commit_message + "`"@,
                    ),
                ]
            } else {
                Seq::<LineView>::empty()
            }
        }),
{
    lemma_course(order, replies);
    lemma_operation_here(order, replies, k, j);
}

/// When the operations are done, the root commits are counted again, and then, where a file is kept
/// for it, the commit that was pulled is recorded. There is no other place where a pull can stand.
pub proof fn law_pull_closes(order: PullOrder, replies: Seq<ReplyView>)
    requires
        order.takes(replies),
        order.after(replies).outcome is None,
        replies.len() >= order.end_at(replies),
    ensures
        replies.len() == order.end_at(replies) || replies.len() == order.end_at(replies) + 1
            && order.sync.last_upstream_sha_path is Some,
        order.commit(replies) is Some,
        order.step(replies).action == Some(
            if replies.len() == order.end_at(replies) {
                ActionView::Run {
                    line: seq!["git"@, "rev-list"@, "HEAD"@, "--max-parents=0"@, "--count"@],
                    verbose: order.sync.verbose,
                }
            } else {
                ActionView::Record {
                    path: order.sync.last_upstream_sha_path->0,
                    sha: order.commit(replies)->0,
                }
            },
        ),
        order.step(replies).lines == if replies.len() == order.end_at(replies) && order.operation_count() == 0 {
            seq![
                Notice::Stdout("Pull finished! Current HEAD is "@ + told(replies, order.clean_at() + 9)),
                Notice::Stdout(NO_REBASE_WARN@),
            ]
        } else {
            Seq::<LineView>::empty()
        },
{
    lemma_course(order, replies);
    lemma_end_here(order, replies);
    lemma_operation_is_late(order, replies, order.operation_count());
}

/// A pull under way that is past its merge and has operations left stands in one of them.
pub proof fn law_pull_stands_in_an_operation(order: PullOrder, replies: Seq<ReplyView>) -> (place: (nat, int))
    requires
        order.takes(replies),
        order.after(replies).outcome is None,
        order.clean_at() + 11 <= replies.len() < order.end_at(replies),
    ensures
        place.0 < order.operation_count(),
        replies.len() == order.operation_at(replies, place.0) + place.1,
        0 <= place.1 <= 2 || 3 <= place.1 <= 4 && replies[order.operation_at(replies, place.0) + 2] is Failed,
{
    lemma_course(order, replies);
    lemma_end_here(order, replies);
    let v = order.after(replies);
    (v.operation, replies.len() - order.operation_at(replies, v.operation))
}

/// What an answer makes of a pull that has not come to its merge. A step that failed ends it, with
/// the words of the step; and it ends where the remote names no commit, and where the count of root
/// commits is no number.
pub proof fn law_answer_before_merge(order: PullOrder, replies: Seq<ReplyView>, reply: ReplyView)
    requires
        order.takes(replies.push(reply)),
        replies.len() <= order.clean_at() + 7,
    ensures
        order.takes(replies),
        order.after(replies).outcome is None,
        order.after(replies.push(reply)).outcome == match reply {
            Answer::Failed(words) => Some(
                Err::<Seq<char>, PullFault>(
                    PullFault::PullFailed(
                        if replies.len() < order.clean_at() {
                            Fault::FetchUpstreamCommit(words)
                        } else if replies.len() == order.clean_at() + 1 {
                            Fault::StartProxy(words)
                        } else if replies.len() == order.clean_at() + 4 {
                            Fault::FetchThroughJosh(words)
                        } else if replies.len() == order.clean_at() + 5 {
                            Fault::CountRoots(words)
                        } else {
                            Fault::Step(words)
                        },
                    ),
                ),
            ),
            Answer::Done(printed) => if replies.len() < order.clean_at() && word(printed) is None {
                Some(Err(PullFault::PullFailed(Fault::BranchNotAdvertised)))
            } else if replies.len() == order.clean_at() + 5 && !(decimal(printed) matches Some(n) && n <= u32::MAX) {
                Some(Err(PullFault::PullFailed(Fault::RootCount(parse_complaint(printed)))))
            } else {
                None
            },
        },
        order.after(replies.push(reply)).outcome is Some ==> order.step(replies.push(reply)).action is None
            && order.step(replies.push(reply)).lines == Seq::<LineView>::empty(),
{
    lemma_pushed(order, replies, reply);
    lemma_course(order, replies);
    lemma_operation_is_late(order, replies, order.after(replies).operation);
    lemma_operation_is_late(order, replies, order.operation_count());
}

/// What an answer makes of a pull from its merge on, until its operations. A merge that fails ends
/// it. Unless a pull without changes is in order, it ends as a pull of nothing where HEAD is still
/// what it was before the merge, and where the tree is.
pub proof fn law_answer_on_merge(order: PullOrder, replies: Seq<ReplyView>, reply: ReplyView)
    requires
        order.takes(replies.push(reply)),
        order.clean_at() + 8 <= replies.len() <= order.clean_at() + 10,
    ensures
        order.takes(replies),
        order.after(replies).outcome is None,
        ({
            let c = order.clean_at();
            let n = replies.len();
            let nothing = Some(Err::<Seq<char>, PullFault>(PullFault::NothingToPull));
            order.after(replies.push(reply)).outcome == match reply {
                Answer::Failed(words) => if n == c + 8 {
                    Some(Err(PullFault::PullFailed(Fault::Merge(words))))
                } else if n == c + 9 {
                    Some(Err(PullFault::PullFailed(Fault::Step(words))))
                } else {
                    None
                },
                Answer::Done(head) => if n == c + 9 && head == told(replies, c + 6) && !order.allow_noop {
                    nothing
                } else if n == c + 10 && !order.allow_noop {
                    nothing
                } else {
                    None
                },
            }
        }),
        order.after(replies.push(reply)).outcome is Some ==> {
            let n = replies.len();
            &&& order.step(replies.push(reply)).action is None
            &&& order.step(replies.push(reply)).lines == if n == order.clean_at() + 8 {
                seq![Notice::Stderr(MERGE_STOPPED@), Notice::Stderr(NO_REBASE_WARN@)]
            } else if n == order.clean_at() + 10 {
                seq![Notice::Stderr("Only empty changes were pulled. Rolling back."@)]
            } else if reply is Done {
                seq![
                    Notice::Stderr("No merge was performed, no changes to pull were found. Rolling back."@),
                ]
            } else {
                Seq::<LineView>::empty()
            }
        },
{
    lemma_pushed(order, replies, reply);
    lemma_course(order, replies);
    lemma_operation_is_late(order, replies, order.after(replies).operation);
    lemma_operation_is_late(order, replies, order.operation_count());
    if replies.len() == order.clean_at() + 8 && reply is Failed {
        assert(order.step(replies.push(reply)).lines =~= seq![
            Notice::Stderr(MERGE_STOPPED@),
            Notice::Stderr(NO_REBASE_WARN@),
        ]);
    }
}

/// What an answer makes of a pull in a post-pull operation: it ends where a step of the operation
/// failed; that the tree differs is no failure.
pub proof fn law_answer_on_operation(order: PullOrder, replies: Seq<ReplyView>, reply: ReplyView, k: nat, j: int)
    requires
        order.takes(replies.push(reply)),
        k < order.operation_count(),
        replies.len() == order.operation_at(replies, k) + j,
        0 <= j <= 2 || 3 <= j <= 4 && replies[order.operation_at(replies, k) + 2] is Failed,
    ensures
        order.takes(replies),
        order.after(replies).outcome is None,
        order.after(replies.push(reply)).outcome == match reply {
            Answer::Failed(words) if j != 2 => Some(
                Err::<Seq<char>, PullFault>(PullFault::PullFailed(Fault::Step(words))),
            ),
            _ => None,
        },
        order.after(replies.push(reply)).outcome is Some ==> order.step(replies.push(reply)).action is None
            && order.step(replies.push(reply)).lines == Seq::<LineView>::empty(),
{
    lemma_pushed(order, replies, reply);
    lemma_course(order, replies);
    lemma_operation_here(order, replies, k, j);
}

/// What an answer makes of a pull whose operations are done. It ends where the root commits cannot
/// be counted, where there are not as many as before the merge, and where the commit cannot be
/// recorded. Else it ends well, with the message of the merge, once there is nothing to record.
pub proof fn law_answer_at_end(order: PullOrder, replies: Seq<ReplyView>, reply: ReplyView)
    requires
        order.takes(replies.push(reply)),
        replies.len() >= order.end_at(replies),
    ensures
        order.takes(replies),
        order.after(replies).outcome is None,
        order.commit(replies) is Some,
        ({
            let c = order.clean_at();
            let well = Some(
                Ok::<Seq<char>, PullFault>(
                    merge_text(
                        order.sync.config,
                        order.upstream_repo,
                        order.commit(replies)->0,
                        told(replies, c + 7),
                    ),
                ),
            );
            order.after(replies.push(reply)).outcome == if replies.len() == order.end_at(replies) {
                match reply {
                    Answer::Failed(words) => Some(Err(PullFault::PullFailed(Fault::CountRoots(words)))),
                    Answer::Done(printed) => if !(decimal(printed) matches Some(n) && n <= u32::MAX) {
                        Some(Err(PullFault::PullFailed(Fault::RootCount(parse_complaint(printed)))))
                    } else if decimal(printed) != decimal(told(replies, c + 5)) {
                        Some(Err(PullFault::PullFailed(Fault::NewRootCommit)))
                    } else if order.sync.last_upstream_sha_path is Some {
                        None
                    } else {
                        well
                    },
                }
            } else {
                match reply {
                    Answer::Failed(words) => Some(Err(PullFault::PullFailed(Fault::WriteRustVersion(words)))),
                    Answer::Done(_) => well,
                }
            }
        }),
        order.after(replies.push(reply)).outcome is Some ==> order.step(replies.push(reply)).action is None
            && order.step(replies.push(reply)).lines == Seq::<LineView>::empty(),
{
    lemma_pushed(order, replies, reply);
    lemma_course(order, replies);
    lemma_end_here(order, replies);
    lemma_operation_is_late(order, replies, order.operation_count());
}

/// Which answers a pull takes: any, while it is under way; but the proxy can be asked for a URL only
/// with a path or a filter, and not both, and the merge needs a commit that has a short form.
pub proof fn law_pull_takes(order: PullOrder, replies: Seq<ReplyView>, reply: ReplyView)
    ensures
        order.takes(replies.push(reply)) <==> {
            &&& order.takes(replies)
            &&& order.after(replies).outcome is None
            &&& reply is Done && replies.len() == order.clean_at() + 1 ==> order.sync.config.path is Some
                != order.sync.config.filter is Some
            &&& reply is Done && replies.len() == order.clean_at() + 7 ==> has_short_form(order.commit(replies)->0)
        },
{
    lemma_pushed(order, replies, reply);
    if order.takes(replies) {
        lemma_course(order, replies);
        lemma_operation_is_late(order, replies, order.after(replies).operation);
        lemma_operation_is_late(order, replies, order.operation_count());
    }
}

/// HEAD goes back to what it was before anything was changed, whenever a pull is dropped after HEAD
/// was known; but not after a merge that failed, and not once the operations are done.
pub proof fn law_where_head_goes(order: PullOrder, replies: Seq<ReplyView>)
    requires
        order.takes(replies),
    ensures
        ({
            let c = order.clean_at();
            let n = replies.len();
            order.after(replies).guard == if n > c + 3 && replies[c + 3] is Done {
                Some(
                    GuardView {
                        disarmed: n == c + 9 && replies[c + 8] is Failed || n > order.end_at(replies) || n
                            == order.end_at(replies) && order.after(replies).outcome is None,
                        reset_to: told(replies, c + 3),
                        verbose: order.sync.verbose,
                    },
                )
            } else {
                None
            }
        }),
{
    lemma_course(order, replies);
    let v = order.after(replies);
    let all = order.operation_count();
    lemma_operation_is_late(order, replies, all);
    if v.outcome is None {
        lemma_end_here(order, replies);
        if v.phase == PullPhase::OperationHead || v.phase == PullPhase::OperationRun || v.phase
            == PullPhase::OperationDiff || v.phase == PullPhase::OperationAdd || v.phase
            == PullPhase::OperationCommit {
            lemma_operation_is_late(order, replies, v.operation);
        }
    } else {
        let front = replies.drop_last();
        let reply = replies.last();
        assert(replies =~= front.push(reply));
        lemma_pushed(order, front, reply);
        lemma_course(order, front);
        lemma_end_here(order, front);
        let u = order.after(front);
        lemma_operation_is_late(order, front, all);
        lemma_operation_is_late(order, front, u.operation);
        if u.phase == PullPhase::OperationHead || u.phase == PullPhase::OperationRun || u.phase
            == PullPhase::OperationDiff || u.phase == PullPhase::OperationAdd || u.phase
            == PullPhase::OperationCommit {
            lemma_operation_stays(order, front, reply, u.operation);
            lemma_operations_follow(order, replies, u.operation, all);
        } else if u.phase == PullPhase::RootsAfter || u.phase == PullPhase::Record {
            lemma_operation_stays(order, front, reply, all);
        }
    }
}

/// Every first part of the answers of a run is a run, and the pull is under way after it.
proof fn lemma_first_part(order: PullOrder, replies: Seq<ReplyView>, i: int)
    requires
        order.takes(replies),
        0 <= i <= replies.len(),
    ensures
        order.takes(replies.take(i)),
        i < replies.len() ==> order.after(replies.take(i)).outcome is None,
    decreases replies.len(),
{
    if i == replies.len() {
        assert(replies.take(i) =~= replies);
    } else {
        let front = replies.drop_last();
        assert(replies =~= front.push(replies.last()));
        lemma_pushed(order, front, replies.last());
        lemma_course(order, front);
        lemma_first_part(order, front, i);
        assert(front.take(i) =~= replies.take(i));
        if i == front.len() {
            assert(replies.take(i) =~= front);
        }
    }
}

/// The place of an operation is the same in every first part of the answers that comes to it.
proof fn lemma_operation_in_first_part(order: PullOrder, replies: Seq<ReplyView>, k: nat, i: int)
    requires
        order.operation_at(replies, k) <= i <= replies.len(),
    ensures
        order.operation_at(replies.take(i), k) == order.operation_at(replies, k),
    decreases k,
{
    if k > 0 {
        let j = (k - 1) as nat;
        lemma_operations_follow(order, replies, j, k);
        lemma_operation_is_late(order, replies, j);
        lemma_operation_in_first_part(order, replies, j, i);
        let at = order.operation_at(replies, j);
        assert(replies.take(i)[at + 2] == replies[at + 2]);
    }
}

/// Whenever a pull asks for a URL, it asks for the upstream repository at the commit that is pulled,
/// through the configured filter; and what it fetches next but one is the URL that is answered. So
/// what is fetched is the commit that the message and the record name.
pub proof fn law_pulled_commit_is_fetched(
    order: PullOrder,
    replies: Seq<ReplyView>,
    repo: Seq<char>,
    commit: Option<Seq<char>>,
    filter: Seq<char>,
    url: Seq<char>,
    head: Seq<char>,
)
    requires
        order.takes(replies),
        order.step(replies).action == Some(ActionView::ProxyUrl { repo, commit, filter }),
    ensures
        repo == order.upstream_repo,
        commit is Some && commit == order.commit(replies),
        filter == order.sync.config.josh_filter(),
        order.takes(replies.push(Answer::Done(url)).push(Answer::Done(head))),
        order.step(replies.push(Answer::Done(url)).push(Answer::Done(head))).action == Some(
            ActionView::Run { line: seq!["git"@, "fetch"@, url], verbose: order.sync.verbose },
        ),
        order.commit(replies.push(Answer::Done(url)).push(Answer::Done(head))) == commit,
{
    lemma_course(order, replies);
    let v = order.after(replies);
    if v.outcome is Some {
        let front = replies.drop_last();
        assert(replies =~= front.push(replies.last()));
        lemma_pushed(order, front, replies.last());
        lemma_course(order, front);
    }
    assert(v.phase == PullPhase::Url);
    let one = replies.push(Answer::Done(url));
    let two = one.push(Answer::Done(head));
    lemma_pushed(order, replies, Answer::Done(url));
    lemma_pushed(order, one, Answer::Done(head));
    assert(two[0] == replies[0]);
}

/// In a pull that succeeds, the changes of every operation that changed something were staged and then
/// committed, once, under the message of that operation, and both were done.
pub proof fn law_changes_are_committed(order: PullOrder, replies: Seq<ReplyView>, k: nat)
    requires
        order.takes(replies),
        order.after(replies).succeeded(),
        k < order.operation_count(),
        replies[order.operation_at(replies, k) + 2] is Failed,
    ensures
        ({
            let at = order.operation_at(replies, k);
            let verbose = order.sync.verbose;
            &&& at + 5 <= replies.len()
            &&& order.step(replies.take(at + 3)).action == Some(
                ActionView::Run { line: seq!["git"@, "add"@, "-u"@], verbose },
            )
            &&& order.step(replies.take(at + 4)).action == Some(
                ActionView::Run {
                    line: seq!["git"@, "commit"@, "-m"@, order.sync.config.post_pull[k as int].commit_message],
                    verbose,
                },
            )
            &&& replies[at + 3] is Done && replies[at + 4] is Done
        }),
{
    let at = order.operation_at(replies, k);
    let n = order.operation_count();
    lemma_success_comes_at_the_end(order, replies);
    lemma_operations_follow(order, replies, k, n);
    lemma_operation_is_late(order, replies, k);
    let third = replies.take(at + 3);
    let fourth = replies.take(at + 4);
    let fifth = replies.take(at + 5);
    lemma_first_part(order, replies, at + 3);
    lemma_first_part(order, replies, at + 4);
    lemma_first_part(order, replies, at + 5);
    lemma_operation_in_first_part(order, replies, k, at + 3);
    lemma_operation_in_first_part(order, replies, k, at + 4);
    assert(third[at + 2] == replies[at + 2] && fourth[at + 2] == replies[at + 2]);
    law_pull_runs_operation(order, third, k, 3);
    law_pull_runs_operation(order, fourth, k, 4);
    assert(fourth =~= third.push(replies[at + 3]));
    assert(fifth =~= fourth.push(replies[at + 4]));
    law_answer_on_operation(order, third, replies[at + 3], k, 3);
    law_answer_on_operation(order, fourth, replies[at + 4], k, 4);
}

/// A pull succeeds only after its operations.
proof fn lemma_success_comes_at_the_end(order: PullOrder, replies: Seq<ReplyView>)
    requires
        order.takes(replies),
        order.after(replies).succeeded(),
    ensures
        replies.len() > order.end_at(replies),
{
    if replies.len() > 0 {
        let front = replies.drop_last();
        let all = order.operation_count();
        assert(replies =~= front.push(replies.last()));
        lemma_pushed(order, front, replies.last());
        lemma_course(order, front);
        lemma_end_here(order, front);
        assert(front.len() >= order.end_at(front));
        lemma_operation_stays(order, front, replies.last(), all);
    }
}

} // verus!
