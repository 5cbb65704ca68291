//! What holds of every pull, however its steps go.
use crate::config::OperationView;
use crate::error::Fault;
use crate::git::{count_roots, reset, rev_parse};
use crate::josh::ProxyView;
use crate::pull::{merge_text, root_count, PullPhase, PullView};
use crate::report::pull_status;
use crate::step::{clean_check, command, head_query, recording, Answer, Deed, ReplyView, StepView};
use crate::sync::{PullFault, SyncView};
use crate::text::word;
use vstd::prelude::*;

verus! {

/// What a pull is asked for.
pub struct PullOrder {
    /// The mirror.
    pub sync: SyncView,
    /// The repository to pull from.
    pub upstream_repo: Seq<char>,
    /// The commit to pull, where it is not that of the upstream branch.
    pub upstream_commit: Option<Seq<char>>,
    /// Whether a pull without changes is in order.
    pub allow_noop: bool,
}

impl PullOrder {
    /// The pull after `replies`, given one after the other, and what it says then.
    pub open spec fn moved(self, replies: Seq<ReplyView>) -> (PullView, StepView)
        decreases replies.len(),
    {
        if replies.len() == 0 {
            PullView::start(self.sync, self.upstream_repo, self.upstream_commit, self.allow_noop)
        } else {
            self.moved(replies.drop_last()).0.next(replies.last())
        }
    }

    /// The pull after `replies`.
    pub open spec fn after(self, replies: Seq<ReplyView>) -> PullView {
        self.moved(replies).0
    }

    /// What the pull says after `replies`.
    pub open spec fn step(self, replies: Seq<ReplyView>) -> StepView {
        self.moved(replies).1
    }

    /// Whether the pull takes `replies`, one after the other.
    pub open spec fn takes(self, replies: Seq<ReplyView>) -> bool
        decreases replies.len(),
    {
        replies.len() > 0 ==> {
            &&& self.takes(replies.drop_last())
            &&& self.after(replies.drop_last()).takes(replies.last())
        }
    }

    /// The number of the answer that says whether the checkout has no changes.
    pub open spec fn clean_at(self) -> int {
        if self.upstream_commit is Some {
            0
        } else {
            1
        }
    }

    /// The number of the answer that holds HEAD before anything is changed.
    pub open spec fn head_at(self) -> int {
        self.clean_at() + 3
    }

    /// The number of the answer that holds the count of root commits before the merge.
    pub open spec fn roots_at(self) -> int {
        self.clean_at() + 5
    }

    /// The number of the answer that holds the filtered commit.
    pub open spec fn incoming_at(self) -> int {
        self.clean_at() + 7
    }

    /// The upstream commit that is pulled: the one that is asked for, else the one that the
    /// remote names first.
    pub open spec fn commit(self, replies: Seq<ReplyView>) -> Option<Seq<char>> {
        match self.upstream_commit {
            Some(commit) => Some(commit),
            None => match replies[0] {
                Answer::Done(printed) => word(printed),
                Answer::Failed(_) => None,
            },
        }
    }

    /// The number of the answer that holds the count of root commits after everything, where the
    /// pull succeeded after `replies`: it is the last but for that on the record of the commit.
    pub open spec fn recount_at(self, replies: Seq<ReplyView>) -> int {
        replies.len() - 1 - self.sync.records()
    }

    /// The most answers that the pull waits for.
    pub open spec fn most_steps(self) -> int {
        13 + 5 * self.sync.config.post_pull.len() + self.sync.records()
    }

    /// The commands of the post-pull operations that the pull asked for, up to what it says after
    /// `replies`.
    pub open spec fn operations_run(self, replies: Seq<ReplyView>) -> Seq<Seq<Seq<char>>>
        decreases replies.len(),
    {
        let before = if replies.len() == 0 {
            Seq::empty()
        } else {
            self.operations_run(replies.drop_last())
        };
        match self.step(replies).action {
            Some(Deed::Run { line, .. }) if self.after(replies).phase == PullPhase::OperationRun => before.push(line),
            _ => before,
        }
    }
}

impl SyncView {
    /// How many answers a pull waits for that are on the record of the commit.
    pub open spec fn records(self) -> int {
        if self.last_upstream_sha_path is Some {
            1
        } else {
            0
        }
    }

    /// The commands of the configured post-pull operations, in their order.
    pub open spec fn operations(self) -> Seq<Seq<Seq<char>>> {
        self.config.post_pull.map_values(|operation: OperationView| operation.cmd)
    }
}

impl PullPhase {
    /// Before HEAD is known.
    pub open spec fn early(self) -> bool {
        self == PullPhase::Upstream || self == PullPhase::Clean || self == PullPhase::Proxy || self
            == PullPhase::Url || self == PullPhase::OriginalHead
    }

    /// After the message of the merge commit is known.
    pub open spec fn late(self) -> bool {
        self == PullPhase::Merge || self == PullPhase::MergedHead || self == PullPhase::Diff || self
            == PullPhase::OperationHead || self == PullPhase::OperationRun || self
            == PullPhase::OperationDiff || self == PullPhase::OperationAdd || self
            == PullPhase::OperationCommit || self == PullPhase::RootsAfter || self == PullPhase::Record
    }

    /// After the guard is taken off.
    pub open spec fn settled(self) -> bool {
        self == PullPhase::RootsAfter || self == PullPhase::Record
    }

    /// Which answer an early phase, or the merge, waits for, where `clean` is the number of the
    /// answer that says whether the checkout has no changes.
    pub open spec fn at(self, clean: int) -> Option<int> {
        match self {
            PullPhase::Upstream => Some(0),
            PullPhase::Clean => Some(clean),
            PullPhase::Proxy => Some(clean + 1),
            PullPhase::Url => Some(clean + 2),
            PullPhase::OriginalHead => Some(clean + 3),
            PullPhase::Fetch => Some(clean + 4),
            PullPhase::RootsBefore => Some(clean + 5),
            PullPhase::PreMerge => Some(clean + 6),
            PullPhase::Incoming => Some(clean + 7),
            PullPhase::Merge => Some(clean + 8),
            _ => None,
        }
    }

    /// How many answers a pull still waits for in this phase, at most, with `operations`
    /// post-pull operations of which `done` are done, and `records` answers on the record of the
    /// commit.
    pub open spec fn rank(self, operations: nat, done: nat, records: int) -> int {
        let operations = operations as int;
        match self {
            PullPhase::Upstream => 13 + 5 * operations + records,
            PullPhase::Clean => 12 + 5 * operations + records,
            PullPhase::Proxy => 11 + 5 * operations + records,
            PullPhase::Url => 10 + 5 * operations + records,
            PullPhase::OriginalHead => 9 + 5 * operations + records,
            PullPhase::Fetch => 8 + 5 * operations + records,
            PullPhase::RootsBefore => 7 + 5 * operations + records,
            PullPhase::PreMerge => 6 + 5 * operations + records,
            PullPhase::Incoming => 5 + 5 * operations + records,
            PullPhase::Merge => 4 + 5 * operations + records,
            PullPhase::MergedHead => 3 + 5 * operations + records,
            PullPhase::Diff => 2 + 5 * operations + records,
            PullPhase::OperationHead => 1 + 5 * (operations - done) + records,
            PullPhase::OperationRun => 5 * (operations - done) + records,
            PullPhase::OperationDiff => 5 * (operations - done) - 1 + records,
            PullPhase::OperationAdd => 5 * (operations - done) - 2 + records,
            PullPhase::OperationCommit => 5 * (operations - done) - 3 + records,
            PullPhase::RootsAfter => 1 + records,
            PullPhase::Record => 1,
            PullPhase::Over => 0,
        }
    }
}

impl PullView {
    /// Whether HEAD is put back when the pull is dropped.
    pub open spec fn rolls_back(self) -> bool {
        self.guard matches Some(guard) && guard.last_step() is Some
    }

    /// How many answers the pull still waits for, at most.
    pub open spec fn answers_left(self) -> int {
        self.phase.rank(self.sync.config.post_pull.len(), self.operation, self.sync.records())
    }

    /// Whether the pull ended well.
    pub open spec fn succeeded(self) -> bool {
        self.outcome is Some && self.outcome->0 is Ok
    }

    /// How many post-pull operations a pull under way has begun, before the guard is taken off.
    pub open spec fn operations_begun(self) -> nat {
        if self.phase == PullPhase::OperationRun || self.phase == PullPhase::OperationDiff || self.phase
            == PullPhase::OperationAdd || self.phase == PullPhase::OperationCommit {
            self.operation + 1
        } else if self.phase == PullPhase::OperationHead {
            self.operation
        } else {
            0
        }
    }

    /// How the guard, the phase and the outcome fit together.
    pub open spec fn sound(self) -> bool {
        &&& self.wf()
        &&& self.phase.early() ==> self.guard is None
        &&& !self.phase.early() && self.phase != PullPhase::Over ==> self.guard is Some
        &&& self.phase != PullPhase::Over && !self.phase.settled() ==> (self.guard matches Some(
            guard,
        ) ==> !guard.disarmed)
        &&& self.phase.settled() ==> self.guard->0.disarmed
        &&& self.phase == PullPhase::Over <==> self.outcome is Some
        &&& self.outcome matches Some(end) ==> match end {
            Ok(_) => self.guard is Some && !self.rolls_back(),
            Err(PullFault::NothingToPull) => self.rolls_back() && !self.allow_noop,
            Err(PullFault::PullFailed(fault)) => match fault {
                Fault::FetchUpstreamCommit(_) => self.guard is None,
                Fault::BranchNotAdvertised => self.guard is None,
                Fault::StartProxy(_) => self.guard is None,
                Fault::FetchThroughJosh(_) => self.rolls_back(),
                Fault::Step(_) => self.guard is None || self.rolls_back(),
                Fault::CountRoots(_) => self.guard is Some,
                Fault::RootCount(_) => self.guard is Some,
                Fault::Merge(_) => !self.rolls_back(),
                Fault::NewRootCommit => !self.rolls_back(),
                Fault::WriteRustVersion(_) => !self.rolls_back(),
                _ => false,
            },
        }
    }
}

impl PullOrder {
    /// Whether the last of `replies` holds the count of root commits after everything, and it is
    /// what it was before the merge.
    pub open spec fn recounted(self, replies: Seq<ReplyView>) -> bool {
        &&& replies.len() > self.incoming_at() + 1
        &&& replies[self.roots_at()] matches Answer::Done(before)
        &&& replies.last() matches Answer::Done(after)
        &&& self.step(replies.drop_last()).action == Some(command(count_roots(), self.sync.verbose))
        &&& root_count(before) == root_count(after)
        &&& root_count(after) is Ok
    }

    /// How the state of a pull follows from the answers that it was given.
    pub open spec fn traced(self, v: PullView, replies: Seq<ReplyView>) -> bool {
        let clean = self.clean_at();
        &&& v.sync == self.sync && v.upstream_repo == self.upstream_repo && v.allow_noop == self.allow_noop
        &&& v.phase == PullPhase::Upstream ==> self.upstream_commit is None
        &&& v.phase.at(clean) matches Some(n) ==> replies.len() == n
        &&& v.phase.late() ==> replies.len() >= clean + 8
        &&& self.step(replies).action matches Some(Deed::StartProxy { proxy, remote }) ==> {
            proxy == self.sync.proxy && remote == self.sync.config.github_url
        }
        &&& v.phase == PullPhase::Clean ==> self.step(replies).action == Some(clean_check(self.sync.verbose))
        &&& v.phase == PullPhase::OriginalHead ==> self.step(replies).action == Some(head_query(self.sync.verbose))
        &&& v.phase == PullPhase::RootsBefore || v.phase == PullPhase::RootsAfter ==> self.step(replies).action
            == Some(command(count_roots(), self.sync.verbose))
        &&& v.phase == PullPhase::Incoming ==> self.step(replies).action == Some(
            command(rev_parse("FETCH_HEAD"@), self.sync.verbose),
        )
        &&& v.phase != PullPhase::Upstream && v.phase != PullPhase::Over || v.guard is Some ==> {
            self.commit(replies) == Some(v.upstream_sha)
        }
        &&& v.phase != PullPhase::Over && !v.phase.early() || v.guard is Some || v.phase == PullPhase::Proxy
            || v.phase == PullPhase::Url || v.phase == PullPhase::OriginalHead ==> {
            replies.len() > clean && replies[clean] is Done
        }
        &&& v.guard matches Some(guard) ==> {
            replies.len() > self.head_at() && replies[self.head_at()] == Answer::Done(guard.reset_to)
                && guard.verbose == self.sync.verbose
        }
        &&& v.phase == PullPhase::PreMerge || v.phase == PullPhase::Incoming || v.phase.late() ==> {
            &&& replies.len() > self.roots_at()
            &&& replies[self.roots_at()] matches Answer::Done(printed)
            &&& root_count(printed) == Ok::<u32, Fault<Seq<char>>>(v.roots_before)
        }
        &&& v.phase.late() || v.succeeded() ==> {
            &&& replies.len() > self.incoming_at()
            &&& replies[self.incoming_at()] matches Answer::Done(incoming)
            &&& v.message == merge_text(self.sync.config, self.upstream_repo, v.upstream_sha, incoming)
        }
        &&& v.phase == PullPhase::Record ==> {
            &&& self.recounted(replies)
            &&& v.sync.last_upstream_sha_path matches Some(path)
            &&& self.step(replies).action == Some(recording(path, v.upstream_sha))
        }
        &&& v.phase != PullPhase::Record ==> !(self.step(replies).action matches Some(Deed::Record { .. }))
        &&& v.outcome matches Some(Ok(message)) ==> {
            &&& message == v.message
            &&& match self.sync.last_upstream_sha_path {
                Some(path) => {
                    &&& replies.last() is Done
                    &&& self.recounted(replies.drop_last())
                    &&& self.step(replies.drop_last()).action == Some(recording(path, v.upstream_sha))
                },
                None => self.recounted(replies),
            }
        }
        &&& v.outcome matches Some(Err(PullFault::PullFailed(fault))) ==> {
            fault is CountRoots || fault is RootCount ==> {
                v.rolls_back() <==> replies.len() == self.roots_at() + 1
            }
        }
    }
}

/// Each answer brings a pull nearer to its end.
#[verifier::rlimit(40)]
pub proof fn law_pull_goes_on(v: PullView, reply: ReplyView)
    requires
        v.wf(),
        v.takes(reply),
    ensures
        v.next(reply).0.wf(),
        v.next(reply).0.sync == v.sync,
        0 <= v.next(reply).0.answers_left() < v.answers_left(),
{
    let w = v.next(reply).0;
    assert(w.sync == v.sync);
}

/// How the guard, the phase and the outcome fit together is kept by every answer.
pub proof fn law_guard_fits_phase(v: PullView, reply: ReplyView)
    requires
        v.sound(),
        v.takes(reply),
    ensures
        v.next(reply).0.sound(),
{
}

/// The facts of `sound` and `traced` hold of every pull.
#[verifier::rlimit(60)]
proof fn lemma_pull(order: PullOrder, replies: Seq<ReplyView>)
    requires
        order.takes(replies),
    ensures
        order.after(replies).sound(),
        order.traced(order.after(replies), replies),
        order.after(replies).answers_left() + replies.len() <= order.most_steps(),
    decreases replies.len(),
{
    if replies.len() > 0 {
        let front = replies.drop_last();
        lemma_pull(order, front);
        let v = order.after(front);
        let reply = replies.last();
        law_pull_goes_on(v, reply);
        law_guard_fits_phase(v, reply);
        assert(order.traced(v.next(reply).0, replies));
    }
}

impl PullOrder {
    /// Whether dropping the pull in the state `v` puts HEAD back to where it was before anything
    /// was changed.
    pub open spec fn restores_head(self, v: PullView, replies: Seq<ReplyView>) -> bool {
        &&& replies.len() > self.head_at()
        &&& replies[self.head_at()] matches Answer::Done(head)
        &&& v.guard matches Some(guard)
        &&& guard.last_step() == Some(
            StepView::run(reset(head), self.sync.verbose).err("Reverting HEAD to "@ + head),
        )
    }
}

/// A pull comes to its end after a number of answers that depends only on how many post-pull
/// operations are configured, and it has an outcome then and not before.
pub proof fn law_pull_ends(order: PullOrder, replies: Seq<ReplyView>)
    requires
        order.takes(replies),
    ensures
        replies.len() <= order.most_steps(),
        replies.len() == order.most_steps() ==> order.after(replies).phase == PullPhase::Over,
        order.after(replies).phase == PullPhase::Over <==> order.after(replies).outcome is Some,
{
    lemma_pull(order, replies);
}

/// Which questions the answers with known numbers belong to: whether the checkout has no changes,
/// what HEAD is, how many root commits there are, and what was fetched.
pub proof fn law_pull_questions(order: PullOrder, replies: Seq<ReplyView>)
    requires
        order.takes(replies),
        order.after(replies).phase != PullPhase::Over,
    ensures
        replies.len() == order.clean_at() ==> order.step(replies).action == Some(clean_check(order.sync.verbose)),
        replies.len() == order.head_at() ==> order.step(replies).action == Some(head_query(order.sync.verbose)),
        replies.len() == order.roots_at() ==> order.step(replies).action == Some(
            command(count_roots(), order.sync.verbose),
        ),
        replies.len() == order.incoming_at() ==> order.step(replies).action == Some(
            command(rev_parse("FETCH_HEAD"@), order.sync.verbose),
        ),
{
    lemma_pull(order, replies);
}

/// The proxy that a pull starts is the one that was chosen, in front of the configured git host.
pub proof fn law_pull_starts_chosen_proxy(
    order: PullOrder,
    replies: Seq<ReplyView>,
    proxy: ProxyView,
    remote: Seq<char>,
)
    requires
        order.takes(replies),
        order.step(replies).action == Some(Deed::<Seq<char>, Seq<Seq<char>>>::StartProxy { proxy, remote }),
    ensures
        proxy == order.sync.proxy,
        remote == order.sync.config.github_url,
{
    lemma_pull(order, replies);
}

/// A pull that finds nothing to pull was not asked to allow that, and puts HEAD back to where it
/// was before anything was changed.
pub proof fn law_nothing_to_pull_restores_head(order: PullOrder, replies: Seq<ReplyView>)
    requires
        order.takes(replies),
        order.after(replies).outcome == Some(Err::<Seq<char>, PullFault>(PullFault::NothingToPull)),
    ensures
        !order.allow_noop,
        order.restores_head(order.after(replies), replies),
{
    lemma_pull(order, replies);
}

/// Where the program exits with the status for a pull that found nothing, HEAD is put back to
/// where it was before anything was changed; and it never does so when a pull without changes is
/// in order.
pub proof fn law_status_of_nothing_to_pull(order: PullOrder, replies: Seq<ReplyView>, fault: PullFault)
    requires
        order.takes(replies),
        order.after(replies).outcome == Some(Err::<Seq<char>, PullFault>(fault)),
        pull_status(fault, order.allow_noop) == 2,
    ensures
        !order.allow_noop,
        order.restores_head(order.after(replies), replies),
{
    lemma_pull(order, replies);
}

/// From the moment when HEAD is known, and until the post-pull operations are done, a pull that
/// is dropped puts HEAD back to where it was before anything was changed.
pub proof fn law_interrupted_pull_restores_head(order: PullOrder, replies: Seq<ReplyView>)
    requires
        order.takes(replies),
        !order.after(replies).phase.early(),
        !order.after(replies).phase.settled(),
        order.after(replies).phase != PullPhase::Over,
    ensures
        order.restores_head(order.after(replies), replies),
{
    lemma_pull(order, replies);
}

/// A pull that ends because a step failed puts HEAD back, or ends before it knew HEAD. This does
/// not hold of the merge, nor of the last count of root commits and of the record of the commit,
/// which come when everything is done.
pub proof fn law_failed_step_restores_head(order: PullOrder, replies: Seq<ReplyView>, fault: Fault<Seq<char>>)
    requires
        order.takes(replies),
        order.after(replies).outcome == Some(Err::<Seq<char>, PullFault>(PullFault::PullFailed(fault))),
        !(fault is Merge),
        !(fault is NewRootCommit),
        !(fault is WriteRustVersion),
        fault is CountRoots || fault is RootCount ==> replies.len() == order.roots_at() + 1,
    ensures
        order.after(replies).guard is None || order.restores_head(order.after(replies), replies),
{
    lemma_pull(order, replies);
}

/// A merge that stops is left as it is, for the user to look at.
pub proof fn law_stopped_merge_is_left(order: PullOrder, replies: Seq<ReplyView>, words: Seq<char>)
    requires
        order.takes(replies),
        order.after(replies).outcome == Some(
            Err::<Seq<char>, PullFault>(PullFault::PullFailed(Fault::Merge(words))),
        ),
    ensures
        !order.after(replies).rolls_back(),
{
    lemma_pull(order, replies);
}

/// A pull that succeeds leaves HEAD where the merge put it; its message names the commit that was
/// pulled and the filtered commit; the checkout had no changes before; and there are as many root
/// commits after it as before.
pub proof fn law_successful_pull(order: PullOrder, replies: Seq<ReplyView>, message: Seq<char>)
    requires
        order.takes(replies),
        order.after(replies).outcome == Some(Ok::<Seq<char>, PullFault>(message)),
    ensures
        !order.after(replies).rolls_back(),
        replies[order.clean_at()] is Done,
        order.commit(replies) is Some,
        replies[order.incoming_at()] is Done,
        message == merge_text(
            order.sync.config,
            order.upstream_repo,
            order.commit(replies)->0,
            replies[order.incoming_at()]->Done_0,
        ),
        replies[order.roots_at()] is Done,
        order.incoming_at() < order.recount_at(replies) < replies.len(),
        replies[order.recount_at(replies)] is Done,
        order.step(replies.take(order.recount_at(replies))).action == Some(
            command(count_roots(), order.sync.verbose),
        ),
        root_count(replies[order.recount_at(replies)]->Done_0) is Ok,
        root_count(replies[order.recount_at(replies)]->Done_0) == root_count(
            replies[order.roots_at()]->Done_0,
        ),
{
    lemma_pull(order, replies);
    let front = replies.drop_last();
    if order.sync.last_upstream_sha_path is Some {
        assert(replies.take(order.recount_at(replies)) =~= front.drop_last());
    } else {
        assert(replies.take(order.recount_at(replies)) =~= front);
    }
}

/// Where a file is kept for it, a pull that succeeds ends by making that file hold the upstream
/// commit that was pulled.
pub proof fn law_successful_pull_is_recorded(
    order: PullOrder,
    replies: Seq<ReplyView>,
    message: Seq<char>,
    path: Seq<char>,
)
    requires
        order.takes(replies),
        order.after(replies).outcome == Some(Ok::<Seq<char>, PullFault>(message)),
        order.sync.last_upstream_sha_path == Some(path),
    ensures
        order.commit(replies) is Some,
        order.step(replies.drop_last()).action == Some(recording(path, order.commit(replies)->0)),
        replies.last() is Done,
{
    lemma_pull(order, replies);
}

/// A commit is recorded only where a file is kept for it, only as the commit that is pulled, and
/// only when all else is done: the pull succeeds with the record.
pub proof fn law_only_successful_pull_is_recorded(
    order: PullOrder,
    replies: Seq<ReplyView>,
    path: Seq<char>,
    commit: Seq<char>,
    words: Seq<char>,
)
    requires
        order.takes(replies),
        order.step(replies).action == Some(recording(path, commit)),
    ensures
        order.sync.last_upstream_sha_path == Some(path),
        order.commit(replies) == Some(commit),
        order.after(replies).takes(Answer::Done(words)),
        order.after(replies).next(Answer::Done(words)).0.succeeded(),
{
    lemma_pull(order, replies);
}

/// The post-pull operations that a pull has come to are the first ones of those that are
/// configured, in their order, each once.
proof fn lemma_operations(order: PullOrder, replies: Seq<ReplyView>)
    requires
        order.takes(replies),
    ensures
        order.operations_run(replies).len() <= order.sync.operations().len(),
        order.operations_run(replies) == order.sync.operations().take(
            order.operations_run(replies).len() as int,
        ),
        order.after(replies).phase.settled() || order.after(replies).succeeded()
            ==> order.operations_run(replies).len() == order.sync.operations().len(),
        order.after(replies).phase != PullPhase::Over && !order.after(replies).phase.settled()
            ==> order.operations_run(replies).len() == order.after(replies).operations_begun(),
    decreases replies.len(),
{
    lemma_pull(order, replies);
    let all = order.sync.operations();
    if replies.len() == 0 {
        assert(order.operations_run(replies) =~= all.take(0));
    } else {
        let front = replies.drop_last();
        lemma_pull(order, front);
        lemma_operations(order, front);
        let v = order.after(front);
        let before = order.operations_run(front);
        if order.after(replies).phase == PullPhase::OperationRun {
            assert(v.phase == PullPhase::OperationHead);
            assert(before.len() == v.operation);
            assert(all[v.operation as int] == order.sync.config.post_pull[v.operation as int].cmd);
            assert(order.operations_run(replies) == before.push(all[v.operation as int]));
            assert(order.operations_run(replies) =~= all.take(v.operation as int + 1));
        } else {
            assert(order.operations_run(replies) == before);
        }
    }
}

/// The commands of the post-pull operations that a pull runs are the first ones of those that are
/// configured, in their order, each once; and they are all of them where the pull succeeds.
pub proof fn law_operations_run_in_order(order: PullOrder, replies: Seq<ReplyView>)
    requires
        order.takes(replies),
    ensures
        order.operations_run(replies).is_prefix_of(order.sync.operations()),
        order.after(replies).succeeded() ==> order.operations_run(replies) == order.sync.operations(),
{
    lemma_operations(order, replies);
    let all = order.sync.operations();
    assert(all.take(all.len() as int) =~= all);
}

/// A pull into a checkout that has changes ends at once: HEAD is not asked for, nothing is
/// fetched and nothing is put back.
pub proof fn law_unclean_checkout_is_left(order: PullOrder, replies: Seq<ReplyView>)
    requires
        order.takes(replies),
        replies.len() > order.clean_at(),
        replies[order.clean_at()] is Failed,
    ensures
        replies.len() == order.clean_at() + 1,
        order.after(replies).phase == PullPhase::Over,
        order.after(replies).guard is None,
    decreases replies.len(),
{
    lemma_pull(order, replies);
    if replies.len() > order.clean_at() + 1 {
        law_unclean_checkout_is_left(order, replies.drop_last());
    }
}

} // verus!
