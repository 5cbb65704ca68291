//! How a synchronisation talks to the world: it asks for one thing at a time to be done, and is
//! told how that went before it asks for the next.
use crate::josh::Proxy;
use crate::text::{maybe, words};
use vstd::prelude::*;

verus! {

/// One thing to be done. `S` holds texts and `L` holds command lines.
#[derive(Debug, PartialEq, Eq)]
pub enum Deed<S, L> {
    /// Run a command and hand back what it prints.
    Run { line: L, verbose: bool },
    /// Run a command in the directory `dir`, and hand back what it prints.
    RunIn { dir: S, line: L, verbose: bool },
    /// Run a command whose output the user is shown while it runs.
    Stream { line: L, verbose: bool },
    /// Make sure that the checkout has no changes.
    EnsureClean { verbose: bool },
    /// Hand back the commit that is checked out.
    CurrentHead { verbose: bool },
    /// Make sure that the Josh proxy runs, in front of the git host `remote`.
    StartProxy { proxy: Proxy<S>, remote: S },
    /// Hand back the URL under which the running proxy serves `repo`, at `commit` where one is
    /// given, through `filter`.
    ProxyUrl { repo: S, commit: Option<S>, filter: S },
    /// Find a program on the path, and hand back where it is.
    Find { program: S },
    /// Install `josh-filter`, and hand back where it is.
    InstallFilter { verbose: bool },
    /// Run the `josh-filter` at `program` with these arguments.
    RunFilter { program: S, line: L, verbose: bool },
    /// Make the file at `path` hold `sha`, the last upstream commit that was pulled.
    Record { path: S, sha: S },
    /// Ask the user a question that is answered by yes or no.
    Ask { question: S, default: bool },
    /// Run a command that talks to the user, to its end.
    Attend { line: L },
}

/// One thing to be done.
pub type Action = Deed<String, Vec<String>>;

/// The texts of an `Action`.
pub type ActionView = Deed<Seq<char>, Seq<Seq<char>>>;

/// A command to be run.
pub open spec fn command(line: Seq<Seq<char>>, verbose: bool) -> ActionView {
    Deed::Run { line, verbose }
}

/// Making sure that the checkout has no changes.
pub open spec fn clean_check(verbose: bool) -> ActionView {
    Deed::EnsureClean { verbose }
}

/// Asking for the commit that is checked out.
pub open spec fn head_query(verbose: bool) -> ActionView {
    Deed::CurrentHead { verbose }
}

/// A command to be run before the user's eyes.
pub open spec fn streaming(line: Seq<Seq<char>>, verbose: bool) -> ActionView {
    Deed::Stream { line, verbose }
}

/// The start of a proxy in front of the git host `remote`.
pub open spec fn starting(proxy: Proxy<Seq<char>>, remote: Seq<char>) -> ActionView {
    Deed::StartProxy { proxy, remote }
}

/// Asking for the URL under which the proxy serves `repo`.
pub open spec fn asking_url(repo: Seq<char>, commit: Option<Seq<char>>, filter: Seq<char>) -> ActionView {
    Deed::ProxyUrl { repo, commit, filter }
}

/// The record of a commit.
pub open spec fn recording(path: Seq<char>, sha: Seq<char>) -> ActionView {
    Deed::Record { path, sha }
}

impl View for Deed<String, Vec<String>> {
    type V = ActionView;

    open spec fn view(&self) -> ActionView {
        match *self {
            Deed::Run { line, verbose } => Deed::Run { line: words(line@), verbose },
            Deed::RunIn { dir, line, verbose } => Deed::RunIn { dir: dir@, line: words(line@), verbose },
            Deed::Stream { line, verbose } => Deed::Stream { line: words(line@), verbose },
            Deed::EnsureClean { verbose } => Deed::EnsureClean { verbose },
            Deed::CurrentHead { verbose } => Deed::CurrentHead { verbose },
            Deed::StartProxy { proxy, remote } => Deed::StartProxy { proxy: proxy@, remote: remote@ },
            Deed::ProxyUrl { repo, commit, filter } => Deed::ProxyUrl {
                repo: repo@,
                commit: maybe(commit),
                filter: filter@,
            },
            Deed::Find { program } => Deed::Find { program: program@ },
            Deed::InstallFilter { verbose } => Deed::InstallFilter { verbose },
            Deed::RunFilter { program, line, verbose } => Deed::RunFilter {
                program: program@,
                line: words(line@),
                verbose,
            },
            Deed::Record { path, sha } => Deed::Record { path: path@, sha: sha@ },
            Deed::Ask { question, default } => Deed::Ask { question: question@, default },
            Deed::Attend { line } => Deed::Attend { line: words(line@) },
        }
    }
}

/// How one thing went. `S` holds texts.
#[derive(Debug, PartialEq, Eq)]
pub enum Answer<S> {
    /// It was done, with this result; the text is empty where there is nothing to hand back.
    /// A question was answered by yes.
    Done(S),
    /// It was not done, for this reason. A question was answered by no.
    Failed(S),
}

/// How one thing went.
pub type Reply = Answer<String>;

/// The texts of a `Reply`.
pub type ReplyView = Answer<Seq<char>>;

impl View for Answer<String> {
    type V = ReplyView;

    open spec fn view(&self) -> ReplyView {
        match *self {
            Answer::Done(s) => Answer::Done(s@),
            Answer::Failed(s) => Answer::Failed(s@),
        }
    }
}

/// What the user is told. `S` holds texts.
#[derive(Debug, PartialEq, Eq)]
pub enum Notice<S> {
    /// On the standard output.
    Stdout(S),
    /// On the standard error output.
    Stderr(S),
}

/// What the user is told.
pub type Line = Notice<String>;

/// The text of a `Line`.
pub type LineView = Notice<Seq<char>>;

impl View for Notice<String> {
    type V = LineView;

    open spec fn view(&self) -> LineView {
        match *self {
            Notice::Stdout(s) => Notice::Stdout(s@),
            Notice::Stderr(s) => Notice::Stderr(s@),
        }
    }
}

/// What the user is to be told now, and what is to be done then. Nothing is left to be done
/// where the work has come to its end.
#[derive(Debug, PartialEq, Eq)]
pub struct Step {
    pub lines: Vec<Line>,
    pub action: Option<Action>,
}

/// The texts of a `Step`.
pub struct StepView {
    pub lines: Seq<LineView>,
    pub action: Option<ActionView>,
}

impl View for Step {
    type V = StepView;

    open spec fn view(&self) -> StepView {
        StepView {
            lines: self.lines@.map_values(|line: Line| line@),
            action: match self.action {
                Some(action) => Some(action@),
                None => None,
            },
        }
    }
}

impl StepView {
    /// The end.
    pub open spec fn end() -> StepView {
        StepView { lines: Seq::empty(), action: None }
    }

    /// One thing to be done.
    pub open spec fn act(action: ActionView) -> StepView {
        StepView { lines: Seq::empty(), action: Some(action) }
    }

    /// A command to be run.
    pub open spec fn run(line: Seq<Seq<char>>, verbose: bool) -> StepView {
        StepView::act(command(line, verbose))
    }

    /// The same, after the user is told something on the standard output.
    pub open spec fn out(self, text: Seq<char>) -> StepView {
        StepView { lines: self.lines.push(Notice::Stdout(text)), ..self }
    }

    /// The same, after the user is told something on the standard error output.
    pub open spec fn err(self, text: Seq<char>) -> StepView {
        StepView { lines: self.lines.push(Notice::Stderr(text)), ..self }
    }
}

impl Step {
    /// The end.
    pub fn end() -> (step: Step)
        ensures
            step@ == StepView::end(),
    {
        let step = Step { lines: Vec::new(), action: None };
        assert(step@.lines =~= Seq::empty());
        step
    }

    /// One thing to be done.
    pub fn act(action: Action) -> (step: Step)
        ensures
            step@ == StepView::act(action@),
    {
        let step = Step { lines: Vec::new(), action: Some(action) };
        assert(step@.lines =~= Seq::empty());
        step
    }

    /// A command to be run.
    pub fn run(line: Vec<String>, verbose: bool) -> (step: Step)
        ensures
            step@ == StepView::run(words(line@), verbose),
    {
        Step::act(Deed::Run { line, verbose })
    }

    /// The same, after the user is told something on the standard output.
    pub fn out(self, text: String) -> (step: Step)
        ensures
            step@ == self@.out(text@),
    {
        let mut step = self;
        step.lines.push(Notice::Stdout(text));
        assert(step@.lines =~= self@.out(text@).lines);
        step
    }

    /// The same, after the user is told something on the standard error output.
    pub fn err(self, text: String) -> (step: Step)
        ensures
            step@ == self@.err(text@),
    {
        let mut step = self;
        step.lines.push(Notice::Stderr(text));
        assert(step@.lines =~= self@.err(text@).lines);
        step
    }
}

/// What is to be done is seen as it is: the commands, the places and the texts are those of the
/// action.
pub proof fn law_actions_are_seen(line: Vec<String>, a: String, b: String, c: Option<String>, flag: bool)
    ensures
        (Action::Run { line, verbose: flag })@ == (ActionView::Run { line: words(line@), verbose: flag }),
        (Action::RunIn { dir: a, line, verbose: flag })@ == (ActionView::RunIn {
            dir: a@,
            line: words(line@),
            verbose: flag,
        }),
        (Action::Stream { line, verbose: flag })@ == (ActionView::Stream { line: words(line@), verbose: flag }),
        (Action::EnsureClean { verbose: flag })@ == (ActionView::EnsureClean { verbose: flag }),
        (Action::CurrentHead { verbose: flag })@ == (ActionView::CurrentHead { verbose: flag }),
        (Action::ProxyUrl { repo: a, commit: c, filter: b })@ == (ActionView::ProxyUrl {
            repo: a@,
            commit: maybe(c),
            filter: b@,
        }),
        (Action::Find { program: a })@ == (ActionView::Find { program: a@ }),
        (Action::InstallFilter { verbose: flag })@ == (ActionView::InstallFilter { verbose: flag }),
        (Action::RunFilter { program: a, line, verbose: flag })@ == (ActionView::RunFilter {
            program: a@,
            line: words(line@),
            verbose: flag,
        }),
        (Action::Record { path: a, sha: b })@ == (ActionView::Record { path: a@, sha: b@ }),
        (Action::Ask { question: a, default: flag })@ == (ActionView::Ask { question: a@, default: flag }),
        (Action::Attend { line })@ == (ActionView::Attend { line: words(line@) }),
{
}

/// A proxy that is to be started, an answer and a line are seen as they are.
pub proof fn law_answers_are_seen(text: String, remote: String)
    ensures
        (Action::StartProxy { proxy: Proxy::External(text), remote })@ == (ActionView::StartProxy {
            proxy: Proxy::External(text@),
            remote: remote@,
        }),
        (Action::StartProxy { proxy: Proxy::Local(text), remote })@ == (ActionView::StartProxy {
            proxy: Proxy::Local(text@),
            remote: remote@,
        }),
        Reply::Done(text)@ == ReplyView::Done(text@),
        Reply::Failed(text)@ == ReplyView::Failed(text@),
        Line::Stdout(text)@ == LineView::Stdout(text@),
        Line::Stderr(text)@ == LineView::Stderr(text@),
{
}

} // verus!
