//! What holds of every push, however its steps go.
use crate::error::Fault;
use crate::git::{
    branch_ref, changed_files, check_branch, fetch_ref, full_ref, ls_heads, merge_base, push_new, rev_parse,
};
use crate::josh::ProxyView;
use crate::push::{PushPhase, PushView};
use crate::step::{command, ActionView, Answer, Deed, ReplyView, StepView};
use crate::sync::{PushResult, SyncView};
use vstd::prelude::*;

verus! {

/// What a push is asked for.
pub struct PushOrder {
    /// The mirror.
    pub sync: SyncView,
    /// The user who pushes.
    pub username: Seq<char>,
    /// The branch that is to be created.
    pub branch: Seq<char>,
    /// Whether this is a CI job.
    pub inside_ci: bool,
    /// The checkout in which the upstream repository is asked, where it is another one.
    pub upstream_checkout: Option<Seq<char>>,
}

impl PushOrder {
    /// The push after `replies`, given one after the other, and what it says then.
    pub open spec fn moved(self, replies: Seq<ReplyView>) -> (PushView, StepView)
        decreases replies.len(),
    {
        if replies.len() == 0 {
            PushView::start(self.sync, self.username, self.branch, self.inside_ci, self.upstream_checkout)
        } else {
            self.moved(replies.drop_last()).0.next(replies.last())
        }
    }

    /// The push after `replies`.
    pub open spec fn after(self, replies: Seq<ReplyView>) -> PushView {
        self.moved(replies).0
    }

    /// What the push says after `replies`.
    pub open spec fn step(self, replies: Seq<ReplyView>) -> StepView {
        self.moved(replies).1
    }

    /// Whether the push takes `replies`, one after the other.
    pub open spec fn takes(self, replies: Seq<ReplyView>) -> bool
        decreases replies.len(),
    {
        replies.len() > 0 ==> {
            &&& self.takes(replies.drop_last())
            &&& self.after(replies.drop_last()).takes(replies.last())
        }
    }
}

impl PushOrder {
    /// How a push asks for the local head: through the subtree filter where one is configured.
    pub open spec fn head_question(self) -> ActionView {
        match self.sync.config.subtree_filter {
            Some(_) => command(rev_parse("FILTERED_HEAD"@), self.sync.verbose),
            None => Deed::CurrentHead { verbose: self.sync.verbose },
        }
    }

    /// How a push to `push_repo` asks whether the target branch is there: from within the upstream
    /// checkout where there is one.
    pub open spec fn target_question(self, push_repo: Seq<char>) -> ActionView {
        let line = ls_heads(self.sync.config.url_of(push_repo), branch_ref(self.branch));
        match self.upstream_checkout {
            Some(dir) => Deed::RunIn { dir, line, verbose: self.sync.verbose },
            None => command(line, self.sync.verbose),
        }
    }

    /// How often the push has asked for a push command, up to what it says after `replies`.
    pub open spec fn pushes(self, replies: Seq<ReplyView>) -> nat
        decreases replies.len(),
    {
        let before: nat = if replies.len() == 0 {
            0
        } else {
            self.pushes(replies.drop_last())
        };
        if is_push(self.step(replies).action) {
            before + 1
        } else {
            before
        }
    }
}

/// Whether git is told to push.
pub open spec fn is_push(action: Option<ActionView>) -> bool {
    match action {
        Some(Deed::Run { line, .. }) => line.len() >= 2 && line[1] == "push"@,
        Some(Deed::RunIn { line, .. }) => line.len() >= 2 && line[1] == "push"@,
        Some(Deed::Stream { line, .. }) => line.len() >= 2 && line[1] == "push"@,
        _ => false,
    }
}

/// The run of the `josh-filter` at `program` on the local head.
pub open spec fn filter_run(program: Seq<char>, filter: Seq<char>, verbose: bool) -> ActionView {
    Deed::RunFilter { program, line: seq![filter, "HEAD"@], verbose }
}

/// Whether `josh-filter` is looked for or installed.
pub open spec fn finds_filter(action: ActionView, verbose: bool) -> bool {
    action == Deed::<Seq<char>, Seq<Seq<char>>>::Find { program: "josh-filter"@ } || action == Deed::<
        Seq<char>,
        Seq<Seq<char>>,
    >::InstallFilter { verbose }
}

/// The most answers that a push waits for.
pub open spec fn most_steps() -> nat {
    19
}

impl PushPhase {
    /// How many answers a push still waits for in this phase, at most, before (or after) the
    /// push itself is done.
    pub open spec fn rank(self, pushed: bool) -> int {
        let rest: int = if pushed {
            1
        } else {
            10
        };
        match self {
            PushPhase::Clean => 19,
            PushPhase::BranchName => 18,
            PushPhase::Proxy => 17,
            PushPhase::Url => 16,
            PushPhase::Fetch => 15,
            PushPhase::FindFilter => rest + 4,
            PushPhase::InstallFilter => rest + 3,
            PushPhase::RunFilter => rest + 2,
            PushPhase::FilteredHead => rest + 1,
            PushPhase::CurrentHead => rest + 1,
            PushPhase::MergeBase => 10,
            PushPhase::Changes => 9,
            PushPhase::Existing => 8,
            PushPhase::Push => 7,
            PushPhase::FetchBack => 6,
            PushPhase::FetchedHead => 1,
            PushPhase::Over => 0,
        }
    }

    /// Before the push itself.
    pub open spec fn before_push(self) -> bool {
        self == PushPhase::Clean || self == PushPhase::BranchName || self == PushPhase::Proxy || self
            == PushPhase::Url || self == PushPhase::Fetch || self == PushPhase::MergeBase || self
            == PushPhase::Changes || self == PushPhase::Existing || self == PushPhase::Push
    }

    /// After the push itself.
    pub open spec fn after_push(self) -> bool {
        self == PushPhase::FetchBack || self == PushPhase::FetchedHead
    }
}

impl PushView {
    /// What a push asked for that waits in this state. The list of changed files and the run of
    /// `josh-filter` are left out: they are asked for with what the last answer held.
    pub open spec fn asked(self) -> Option<ActionView> {
        let verbose = self.sync.verbose;
        match self.phase {
            PushPhase::Clean => Some(Deed::EnsureClean { verbose }),
            PushPhase::BranchName => Some(Deed::Run { line: check_branch(self.branch), verbose }),
            PushPhase::Proxy => Some(
                Deed::StartProxy { proxy: self.sync.proxy, remote: self.sync.config.github_url },
            ),
            PushPhase::Url => Some(
                Deed::ProxyUrl {
                    repo: self.push_repo,
                    commit: None,
                    filter: self.sync.config.josh_filter(),
                },
            ),
            PushPhase::Fetch => Some(Deed::Run { line: fetch_ref(self.josh_url, self.base()), verbose }),
            PushPhase::FindFilter => Some(Deed::Find { program: "josh-filter"@ }),
            PushPhase::InstallFilter => Some(Deed::InstallFilter { verbose }),
            PushPhase::RunFilter => None,
            PushPhase::FilteredHead => Some(Deed::Run { line: rev_parse("FILTERED_HEAD"@), verbose }),
            PushPhase::CurrentHead => Some(Deed::CurrentHead { verbose }),
            PushPhase::MergeBase => Some(Deed::Run { line: merge_base(self.local_head), verbose }),
            PushPhase::Changes => None,
            PushPhase::Existing => Some(
                self.upstream_command(
                    ls_heads(self.sync.config.url_of(self.push_repo), branch_ref(self.branch)),
                ),
            ),
            PushPhase::Push => Some(
                Deed::Run { line: push_new(self.base(), branch_ref(self.branch), self.josh_url), verbose },
            ),
            PushPhase::FetchBack => Some(
                Deed::Run { line: fetch_ref(self.josh_url, self.branch), verbose },
            ),
            PushPhase::FetchedHead => Some(Deed::Run { line: rev_parse("FETCH_HEAD"@), verbose }),
            PushPhase::Over => None,
        }
    }
}

impl PushOrder {
    /// How the state of a push follows from the answers that it was given.
    pub open spec fn traced(self, v: PushView, replies: Seq<ReplyView>) -> bool {
        &&& v.wf()
        &&& v.sync == self.sync && v.username == self.username && v.branch == self.branch && v.inside_ci
            == self.inside_ci && v.upstream_checkout == self.upstream_checkout
        &&& v.phase == PushPhase::Over <==> v.outcome is Some
        &&& v.phase.before_push() ==> !v.pushed
        &&& v.phase.after_push() ==> v.pushed
        &&& v.phase != PushPhase::Changes && v.phase != PushPhase::RunFilter ==> self.step(replies).action
            == v.asked()
        &&& v.phase == PushPhase::RunFilter ==> {
            &&& replies.len() > 0 && replies.last() is Done
            &&& self.step(replies).action == Some(
                filter_run(replies.last()->Done_0, v.sync.config.subtree_filter->0, v.sync.verbose),
            )
            &&& self.step(replies.drop_last()).action is Some
            &&& finds_filter(self.step(replies.drop_last()).action->0, v.sync.verbose)
        }
        &&& v.phase == PushPhase::Changes ==> replies.len() > 0 && replies.last() is Done
            && self.step(replies).action == Some(
            command(changed_files(replies.last()->Done_0, v.local_head), v.sync.verbose),
        )
        &&& v.phase == PushPhase::Clean ==> replies.len() == 0
        &&& replies.len() > 0 && v.phase != PushPhase::Over ==> replies[0] is Done
        &&& v.phase == PushPhase::InstallFilter ==> !(v.sync.proxy is External) && !v.inside_ci
        &&& v.phase == PushPhase::FilteredHead ==> v.sync.config.subtree_filter is Some
        &&& v.phase == PushPhase::RunFilter ==> v.sync.config.subtree_filter is Some
        &&& v.phase == PushPhase::CurrentHead ==> v.sync.config.subtree_filter is None
        &&& v.phase == PushPhase::MergeBase || v.phase == PushPhase::FetchedHead ==> {
            &&& replies.len() > 0
            &&& replies.last() == Answer::Done(v.local_head)
            &&& self.step(replies.drop_last()).action == Some(self.head_question())
        }
        &&& v.phase != PushPhase::Clean && v.phase != PushPhase::BranchName && v.phase != PushPhase::Over ==> {
            self.sync.config.push_target(self.username) == Ok::<Seq<char>, Fault<Seq<char>>>(v.push_repo)
        }
        &&& v.phase == PushPhase::Push ==> {
            &&& replies.len() > 0
            &&& replies.last() == Answer::Done(Seq::<char>::empty())
            &&& self.step(replies.drop_last()).action == Some(self.target_question(v.push_repo))
        }
        &&& v.outcome matches Some(Ok(PushResult::NothingToPush)) ==> {
            &&& !v.pushed
            &&& replies.len() >= 2
            &&& replies.last() == Answer::Done(Seq::<char>::empty())
            &&& replies[replies.len() - 2] is Done
            &&& self.step(replies.drop_last()).action == Some(
                command(changed_files(replies[replies.len() - 2]->Done_0, v.local_head), v.sync.verbose),
            )
        }
        &&& v.outcome matches Some(Ok(PushResult::Pushed)) ==> {
            &&& v.pushed
            &&& replies.len() >= 2
            &&& replies.last() is Done
            &&& replies.last() == replies[replies.len() - 2]
            &&& self.step(replies.drop_last()).action == Some(
                command(rev_parse("FETCH_HEAD"@), v.sync.verbose),
            )
            &&& self.step(replies.drop_last().drop_last()).action == Some(self.head_question())
        }
    }
}

/// Each answer brings a push nearer to its end.
pub proof fn law_push_goes_on(v: PushView, reply: ReplyView)
    requires
        v.wf(),
        v.takes(reply),
        v.phase.before_push() ==> !v.pushed,
        v.phase.after_push() ==> v.pushed,
    ensures
        v.next(reply).0.wf(),
        v.next(reply).0.phase.before_push() ==> !v.next(reply).0.pushed,
        v.next(reply).0.phase.after_push() ==> v.next(reply).0.pushed,
        0 <= v.next(reply).0.phase.rank(v.next(reply).0.pushed) < v.phase.rank(v.pushed),
{
}

/// The facts of `traced` hold of every push.
proof fn lemma_push(order: PushOrder, replies: Seq<ReplyView>)
    requires
        order.takes(replies),
    ensures
        order.traced(order.after(replies), replies),
        order.after(replies).phase.rank(order.after(replies).pushed) + replies.len() <= most_steps(),
    decreases replies.len(),
{
    if replies.len() > 0 {
        let front = replies.drop_last();
        lemma_push(order, front);
        let v = order.after(front);
        let reply = replies.last();
        law_push_goes_on(v, reply);
        let w = order.after(replies);
        assert(replies.len() > 1 ==> replies[0] == front[0]);
        if reply is Done && reply->Done_0.len() == 0 {
            assert(reply->Done_0 =~= Seq::<char>::empty());
        }
        if v.phase == PushPhase::FetchedHead || v.phase == PushPhase::Changes {
            assert(front.last() == replies[replies.len() - 2]);
        }
        assert(order.traced(w, replies));
    }
}

/// A push comes to its end after a bounded number of answers, and it has an outcome then and not
/// before.
pub proof fn law_push_ends(order: PushOrder, replies: Seq<ReplyView>)
    requires
        order.takes(replies),
    ensures
        replies.len() <= most_steps(),
        replies.len() == most_steps() ==> order.after(replies).phase == PushPhase::Over,
        order.after(replies).phase == PushPhase::Over <==> order.after(replies).outcome is Some,
{
    lemma_push(order, replies);
}

/// The proxy that a push starts is the one that was chosen, in front of the configured git host.
pub proof fn law_push_starts_chosen_proxy(
    order: PushOrder,
    replies: Seq<ReplyView>,
    proxy: ProxyView,
    remote: Seq<char>,
)
    requires
        order.takes(replies),
        order.step(replies).action == Some(Deed::<Seq<char>, Seq<Seq<char>>>::StartProxy { proxy, remote }),
    ensures
        proxy == order.sync.proxy,
        remote == order.sync.config.github_url,
{
    lemma_push(order, replies);
}

/// A push that succeeds comes back as what was meant: the commit that was fetched back is the
/// local head.
pub proof fn law_pushed_comes_back(order: PushOrder, replies: Seq<ReplyView>)
    requires
        order.takes(replies),
        order.after(replies).outcome == Some(Ok::<PushResult, Fault<Seq<char>>>(PushResult::Pushed)),
    ensures
        order.after(replies).pushed,
        replies.len() >= 2,
        replies.last() is Done,
        replies.last() == replies[replies.len() - 2],
        order.step(replies.drop_last()).action == Some(
            command(rev_parse("FETCH_HEAD"@), order.sync.verbose),
        ),
        order.step(replies.drop_last().drop_last()).action == Some(order.head_question()),
{
    lemma_push(order, replies);
}

/// Where there is nothing to push, no file differs between the local head and the commit where it
/// left the upstream branch, and nothing was pushed.
pub proof fn law_nothing_to_push_pushes_nothing(order: PushOrder, replies: Seq<ReplyView>)
    requires
        order.takes(replies),
        order.after(replies).outcome == Some(Ok::<PushResult, Fault<Seq<char>>>(PushResult::NothingToPush)),
    ensures
        !order.after(replies).pushed,
        replies.len() >= 2,
        replies[replies.len() - 2] is Done,
        order.step(replies.drop_last()).action == Some(
            command(
                changed_files(replies[replies.len() - 2]->Done_0, order.after(replies).local_head),
                order.sync.verbose,
            ),
        ),
        replies.last() == Answer::Done(Seq::<char>::empty()),
{
    lemma_push(order, replies);
}

/// The words by which git is told what to do are told apart.
pub proof fn lemma_push_is_no_other_word()
    ensures
        "push"@ != "check-ref-format"@,
        "push"@ != "fetch"@,
        "push"@ != "rev-parse"@,
        "push"@ != "merge-base"@,
        "push"@ != "diff"@,
        "push"@ != "ls-remote"@,
{
    reveal_strlit("push");
    reveal_strlit("check-ref-format");
    reveal_strlit("fetch");
    reveal_strlit("rev-parse");
    reveal_strlit("merge-base");
    reveal_strlit("diff");
    reveal_strlit("ls-remote");
    assert("diff"@[0] == 'd');
    assert("push"@[0] == 'p');
}

/// A push only creates branches. The one command by which it pushes comes right after the remote
/// was asked for the target branch and had none of that name; and it is told to refuse where the
/// branch has appeared since.
pub proof fn law_push_only_creates(order: PushOrder, replies: Seq<ReplyView>, line: Seq<Seq<char>>, verbose: bool)
    requires
        order.takes(replies),
        order.step(replies).action == Some(command(line, verbose)),
        line.len() >= 2,
        line[1] == "push"@,
    ensures
        order.sync.config.push_target(order.username) is Ok,
        replies.len() > 0,
        replies.last() == Answer::Done(Seq::<char>::empty()),
        order.step(replies.drop_last()).action == Some(
            order.target_question(order.sync.config.push_target(order.username)->Ok_0),
        ),
        line == push_new(
            full_ref(order.sync.config.upstream_branch),
            branch_ref(order.branch),
            order.after(replies).josh_url,
        ),
{
    lemma_push(order, replies);
    lemma_push_is_no_other_word();
}

/// How often a push has asked for a push command, in each of its phases.
proof fn lemma_pushes(order: PushOrder, replies: Seq<ReplyView>)
    requires
        order.takes(replies),
    ensures
        order.pushes(replies) <= 1,
        order.after(replies).pushed ==> order.pushes(replies) == 1,
        order.after(replies).phase == PushPhase::Push ==> order.pushes(replies) == 1,
        order.after(replies).phase != PushPhase::Push && order.after(replies).phase != PushPhase::Over
            && !order.after(replies).pushed ==> order.pushes(replies) == 0,
        order.after(replies).outcome == Some(Ok::<PushResult, Fault<Seq<char>>>(PushResult::NothingToPush))
            ==> order.pushes(replies) == 0,
    decreases replies.len(),
{
    lemma_push(order, replies);
    lemma_push_is_no_other_word();
    if replies.len() > 0 {
        lemma_push(order, replies.drop_last());
        lemma_pushes(order, replies.drop_last());
    }
}

/// A push asks for at most one push command: for exactly one where it succeeds, and for none where
/// there is nothing to push.
pub proof fn law_at_most_one_push(order: PushOrder, replies: Seq<ReplyView>)
    requires
        order.takes(replies),
    ensures
        order.pushes(replies) <= 1,
        order.after(replies).outcome == Some(Ok::<PushResult, Fault<Seq<char>>>(PushResult::Pushed))
            ==> order.pushes(replies) == 1,
        order.after(replies).outcome == Some(Ok::<PushResult, Fault<Seq<char>>>(PushResult::NothingToPush))
            ==> order.pushes(replies) == 0,
{
    lemma_push(order, replies);
    lemma_pushes(order, replies);
}

/// Where there is an upstream checkout, the upstream repository is asked for the target branch from
/// within it, and nothing else is run there.
pub proof fn law_upstream_is_asked_in_its_checkout(order: PushOrder, replies: Seq<ReplyView>, dir: Seq<char>)
    requires
        order.takes(replies),
        order.upstream_checkout == Some(dir),
    ensures
        order.after(replies).phase == PushPhase::Existing <==> order.step(replies).action matches Some(
            Deed::RunIn { .. },
        ),
        order.after(replies).phase == PushPhase::Existing ==> {
            &&& order.sync.config.push_target(order.username) is Ok
            &&& order.step(replies).action == Some(
                order.target_question(order.sync.config.push_target(order.username)->Ok_0),
            )
        },
        order.step(replies).action matches Some(Deed::RunIn { dir: place, .. }) ==> place == dir,
{
    lemma_push(order, replies);
}

/// The `josh-filter` that is run is the one that was found or installed just before.
pub proof fn law_found_filter_is_run(
    order: PushOrder,
    replies: Seq<ReplyView>,
    program: Seq<char>,
    line: Seq<Seq<char>>,
    verbose: bool,
)
    requires
        order.takes(replies),
        order.step(replies).action == Some(
            Deed::<Seq<char>, Seq<Seq<char>>>::RunFilter { program, line, verbose },
        ),
    ensures
        replies.len() > 0,
        replies.last() == Answer::Done(program),
        order.step(replies.drop_last()).action is Some,
        finds_filter(order.step(replies.drop_last()).action->0, order.sync.verbose),
        order.sync.config.subtree_filter is Some,
        line == seq![order.sync.config.subtree_filter->0, "HEAD"@],
{
    lemma_push(order, replies);
}

/// A push to a branch that is there already is refused.
pub proof fn law_existing_branch_is_refused(v: PushView, existing: Seq<char>)
    requires
        v.phase == PushPhase::Existing,
        existing.len() > 0,
    ensures
        v.next(Answer::Done(existing)).0.outcome == Some(
            Err::<PushResult, Fault<Seq<char>>>(
                Fault::TargetBranchExists { repo: v.push_repo, branch: v.branch },
            ),
        ),
        v.next(Answer::Done(existing)).1.action is None,
{
}

/// `josh-filter` is installed neither in CI nor beside a proxy that somebody else runs.
pub proof fn law_filter_is_not_installed_in_ci(order: PushOrder, replies: Seq<ReplyView>)
    requires
        order.takes(replies),
        order.inside_ci || order.sync.proxy is External,
    ensures
        !(order.step(replies).action matches Some(Deed::InstallFilter { .. })),
{
    lemma_push(order, replies);
}

/// A push out of a checkout that has changes ends at once.
pub proof fn law_unclean_checkout_is_not_pushed(order: PushOrder, replies: Seq<ReplyView>)
    requires
        order.takes(replies),
        replies.len() > 0,
        replies[0] is Failed,
    ensures
        replies.len() == 1,
        order.after(replies).phase == PushPhase::Over,
        !order.after(replies).pushed,
    decreases replies.len(),
{
    lemma_push(order, replies);
    lemma_push(order, replies.drop_last());
    if replies.len() > 1 {
        law_unclean_checkout_is_not_pushed(order, replies.drop_last());
    }
}

} // verus!
