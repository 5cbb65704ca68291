//! What follows a synchronisation: the pull request, and the status that the program exits with.
use crate::config::{ConfigView, JoshConfig};
use crate::error::{Fault, SyncError};
use crate::git::{create_pull_request, create_pull_request_line};
use crate::step::{ActionView, Answer, Deed, LineView, Reply, ReplyView, Step, StepView};
use crate::sync::{PullFault, PushResult, RustcPullError};
use crate::text::{law_split_at_first, law_split_parts, split_first, split_once};
use vstd::prelude::*;
use vstd::utf8::encode_utf8;

verus! {

/// A byte that stands for itself in a URL: a letter, a digit, `-`, `.`, `_` or `~`.
pub open spec fn is_unreserved(b: u8) -> bool {
    ||| 0x30 <= b <= 0x39
    ||| 0x41 <= b <= 0x5a
    ||| 0x61 <= b <= 0x7a
    ||| b == 0x2d
    ||| b == 0x2e
    ||| b == 0x5f
    ||| b == 0x7e
}

/// A hexadecimal digit, in upper case.
pub open spec fn hex_digit(n: int) -> char {
    if n < 10 {
        (0x30 + n) as char
    } else {
        (0x41 + n - 10) as char
    }
}

/// `bytes` as they are written in a URL: a byte that does not stand for itself is a percent sign
/// and two hexadecimal digits.
pub open spec fn percent_encoded(bytes: Seq<u8>) -> Seq<char>
    decreases bytes.len(),
{
    if bytes.len() == 0 {
        Seq::empty()
    } else {
        let b = bytes[0];
        let first = if is_unreserved(b) {
            seq![b as char]
        } else {
            seq!['%', hex_digit(b as int / 16), hex_digit(b as int % 16)]
        };
        first + percent_encoded(bytes.skip(1))
    }
}

/// Calls `urlencoding::encode`.
///
/// Claimed of it: each byte of the text in UTF-8 that is a letter or digit of ASCII, `-`, `.`,
/// `_` or `~` is kept, and each other byte becomes a percent sign and its two hexadecimal digits
/// in upper case.
#[verifier::external_body]
fn encode(text: &str) -> (out: String)
    ensures
        out@ == percent_encoded(encode_utf8(text@)),
{
    urlencoding::encode(text).into_owned()
}

impl ConfigView {
    /// The title of the pull request after a push.
    pub open spec fn push_title(self) -> Seq<char> {
        self.repo + " subtree update"@
    }

    /// The text of the pull request after a push of `head`.
    pub open spec fn push_body(self, head: Seq<char>) -> Seq<char> {
        "Subtree update of `"@ + self.repo + "` to https://github.com/"@ + self.mirror() + "/commit/"@ + head
            + ".\n\nCreated using https://github.com/rust-lang/josh-sync."@
    }

    /// What the user is told after a push of `head` to `branch`: where to open the pull request.
    pub open spec fn push_report(
        self,
        username: Seq<char>,
        branch: Seq<char>,
        head: Seq<char>,
    ) -> Result<Seq<char>, Fault<Seq<char>>> {
        match self.push_target(username) {
            Ok(push_repo) => match split_first(push_repo, '/') {
                Some((owner, _)) => Ok(
                    "You can create the upstream PR using the following URL:\nhttps://github.com/"@
                        + self.upstream_repo + "/compare/"@ + owner + ":"@ + branch + "?quick_pull=1&title="@
                        + percent_encoded(encode_utf8(self.push_title())) + "&body="@ + percent_encoded(
                        encode_utf8(self.push_body(head)),
                    ),
                ),
                None => Err(Fault::InvalidPushRepo),
            },
            Err(fault) => Err(fault),
        }
    }
}

/// What the user is told after a push of `head` to `branch`.
pub fn push_report(config: &JoshConfig, username: &str, branch: &str, head: &str) -> (out: Result<String, SyncError>)
    ensures
        match out {
            Ok(text) => config@.push_report(username@, branch@, head@) == Ok::<Seq<char>, Fault<Seq<char>>>(text@),
            Err(fault) => config@.push_report(username@, branch@, head@) == Err::<Seq<char>, Fault<Seq<char>>>(
                fault@,
            ),
        },
{
    let mut title = config.repo.clone();
    title.append(" subtree update");
    let mut body = "Subtree update of `".to_owned();
    body.append(config.repo.as_str());
    body.append("` to https://github.com/");
    body.append(config.full_repo_name().as_str());
    body.append("/commit/");
    body.append(head);
    body.append(".\n\nCreated using https://github.com/rust-lang/josh-sync.");
    let push_repo = match config.push_repo(username) {
        Ok(push_repo) => push_repo,
        Err(fault) => return Err(fault),
    };
    match split_once(push_repo.as_str(), '/') {
        Some((owner, _)) => {
            let mut out = "You can create the upstream PR using the following URL:\nhttps://github.com/".to_owned();
            out.append(config.upstream_repo.as_str());
            out.append("/compare/");
            out.append(owner.as_str());
            out.append(":");
            out.append(branch);
            out.append("?quick_pull=1&title=");
            out.append(encode(title.as_str()).as_str());
            out.append("&body=");
            out.append(encode(body.as_str()).as_str());
            Ok(out)
        },
        None => Err(Fault::InvalidPushRepo),
    }
}

/// The title of the pull request after a pull.
pub fn pull_title(config: &JoshConfig) -> (out: String)
    ensures
        out@ == config@.upstream_repo + " pull update"@,
{
    let mut out = config.upstream_repo.clone();
    out.append(" pull update");
    out
}

/// What the user is told after a pull for which no pull request was opened.
pub fn pull_hint(config: &JoshConfig) -> (out: String)
    ensures
        out@ == "Now push the current branch to "@ + config@.repo
            + " (either a fork or the main repo) and create a PR"@,
{
    let mut out = "Now push the current branch to ".to_owned();
    out.append(config.repo.as_str());
    out.append(" (either a fork or the main repo) and create a PR");
    out
}

/// The status that the program exits with after a pull that did not succeed.
pub open spec fn pull_status(fault: PullFault, allow_noop: bool) -> int {
    match fault {
        PullFault::NothingToPull => if allow_noop {
            0
        } else {
            2
        },
        PullFault::PullFailed(_) => 1,
    }
}

/// The status that the program exits with after a pull that did not succeed.
pub fn pull_exit_status(error: &RustcPullError, allow_noop: bool) -> (status: i32)
    ensures
        status == pull_status(error@, allow_noop),
{
    match error {
        RustcPullError::NothingToPull => if allow_noop {
            0
        } else {
            2
        },
        RustcPullError::PullFailed(_) => 1,
    }
}

/// The status that the program exits with after a push that did not fail.
pub fn push_exit_status(result: PushResult) -> (status: i32)
    ensures
        status == (if result == PushResult::Pushed {
            0int
        } else {
            2int
        }),
{
    match result {
        PushResult::Pushed => 0,
        PushResult::NothingToPush => 2,
    }
}

/// What the opening of a pull request is waiting for.
#[derive(Debug, Copy, Clone, PartialEq, Eq, Structural)]
pub enum OfferPhase {
    /// The path of the GitHub tool.
    Find,
    /// The user's word.
    Ask,
    /// The GitHub tool.
    Create,
    /// Nothing: it is over.
    Over,
}

/// A pull request that may be opened.
pub struct Offer {
    repo: String,
    title: String,
    description: String,
    phase: OfferPhase,
    outcome: Option<Result<bool, SyncError>>,
}

/// Whether a pull request was opened.
pub type OfferEnd = Result<bool, Fault<Seq<char>>>;

/// The texts of an `Offer`.
pub struct OfferView {
    pub repo: Seq<char>,
    pub title: Seq<char>,
    pub description: Seq<char>,
    pub phase: OfferPhase,
    pub outcome: Option<OfferEnd>,
}

/// The texts of what the opening of a pull request ended with.
pub open spec fn offer_end_view(end: Result<bool, SyncError>) -> OfferEnd {
    match end {
        Ok(opened) => Ok(opened),
        Err(fault) => Err(fault@),
    }
}

impl View for Offer {
    type V = OfferView;

    closed spec fn view(&self) -> OfferView {
        OfferView {
            repo: self.repo@,
            title: self.title@,
            description: self.description@,
            phase: self.phase,
            outcome: match self.outcome {
                Some(end) => Some(offer_end_view(end)),
                None => None,
            },
        }
    }
}

impl OfferView {
    /// What comes first: the GitHub tool is looked for.
    pub open spec fn start(repo: Seq<char>, title: Seq<char>, description: Seq<char>) -> (OfferView, StepView) {
        (
            OfferView { repo, title, description, phase: OfferPhase::Find, outcome: None },
            StepView::act(Deed::Find { program: "gh"@ }),
        )
    }

    /// The end.
    pub open spec fn end(self, end: OfferEnd) -> (OfferView, StepView) {
        (OfferView { phase: OfferPhase::Over, outcome: Some(end), ..self }, StepView::end())
    }

    /// What comes after an answer: where the tool is there the user is asked, and where the user
    /// agrees the tool is run.
    pub open spec fn next(self, reply: ReplyView) -> (OfferView, StepView) {
        match (self.phase, reply) {
            (OfferPhase::Find, Answer::Done(_)) => (
                OfferView { phase: OfferPhase::Ask, ..self },
                StepView::act(
                    Deed::Ask {
                        question: "Do you want to create a "@ + self.repo + " pull PR using the `gh` tool?"@,
                        default: false,
                    },
                ),
            ),
            (OfferPhase::Ask, Answer::Done(_)) => (
                OfferView { phase: OfferPhase::Create, ..self },
                StepView::act(
                    Deed::Attend { line: create_pull_request(self.title, self.description, self.repo) },
                ),
            ),
            (OfferPhase::Create, Answer::Done(_)) => self.end(Ok(true)),
            (OfferPhase::Create, Answer::Failed(words)) => self.end(Err(Fault::Step(words))),
            (OfferPhase::Over, _) => (self, StepView::end()),
            (_, Answer::Failed(_)) => self.end(Ok(false)),
        }
    }
}

/// Starts the opening of a pull request in `repo`, if the user wants one, and says what comes
/// first.
pub fn maybe_create_gh_pr(repo: &str, title: &str, description: &str) -> (out: (Offer, Step))
    ensures
        (out.0@, out.1@) == OfferView::start(repo@, title@, description@),
{
    let offer = Offer {
        repo: repo.to_owned(),
        title: title.to_owned(),
        description: description.to_owned(),
        phase: OfferPhase::Find,
        outcome: None,
    };
    (offer, Step::act(Deed::Find { program: "gh".to_owned() }))
}

impl Offer {
    /// The end.
    fn end(&mut self, end: Result<bool, SyncError>) -> (step: Step)
        ensures
            (final(self)@, step@) == old(self)@.end(offer_end_view(end)),
    {
        self.phase = OfferPhase::Over;
        self.outcome = Some(end);
        Step::end()
    }

    /// Takes the answer to what the offer is waiting for, and says what comes next. An offer that
    /// is over stays as it is.
    pub fn step(&mut self, reply: Reply) -> (step: Step)
        ensures
            (final(self)@, step@) == old(self)@.next(reply@),
    {
        match (self.phase, reply) {
            (OfferPhase::Find, Answer::Done(_)) => {
                self.phase = OfferPhase::Ask;
                let mut question = "Do you want to create a ".to_owned();
                question.append(self.repo.as_str());
                question.append(" pull PR using the `gh` tool?");
                Step::act(Deed::Ask { question, default: false })
            },
            (OfferPhase::Ask, Answer::Done(_)) => {
                self.phase = OfferPhase::Create;
                let line = create_pull_request_line(
                    self.title.as_str(),
                    self.description.as_str(),
                    self.repo.as_str(),
                );
                Step::act(Deed::Attend { line })
            },
            (OfferPhase::Create, Answer::Done(_)) => self.end(Ok(true)),
            (OfferPhase::Create, Answer::Failed(words)) => self.end(Err(Fault::Step(words))),
            (OfferPhase::Over, _) => Step::end(),
            (_, Answer::Failed(_)) => self.end(Ok(false)),
        }
    }

    /// Whether a pull request was opened; nothing while that is not settled.
    pub fn outcome(&self) -> (outcome: &Option<Result<bool, SyncError>>)
        ensures
            match *outcome {
                Some(end) => self@.outcome == Some(offer_end_view(end)),
                None => self@.outcome is None,
            },
    {
        &self.outcome
    }
}

/// The GitHub tool is run only where the user has agreed.
pub proof fn law_pull_request_needs_consent(v: OfferView, reply: ReplyView)
    requires
        v.next(reply).1.action matches Some(Deed::Attend { .. }),
    ensures
        v.phase == OfferPhase::Ask,
        reply is Done,
{
}

/// What is written into a URL has only letters, digits, `-`, `.`, `_`, `~` and percent signs: it
/// cannot end the part of the URL that it is written into.
pub proof fn law_encoded_text_is_plain(bytes: Seq<u8>)
    ensures
        forall|i: int|
            0 <= i < percent_encoded(bytes).len() ==> (#[trigger] percent_encoded(bytes)[i] == '%' || (
            percent_encoded(bytes)[i] as int <= 0xff && is_unreserved(percent_encoded(bytes)[i] as u8))),
    decreases bytes.len(),
{
    if bytes.len() > 0 {
        law_encoded_text_is_plain(bytes.skip(1));
        let rest = percent_encoded(bytes.skip(1));
        let all = percent_encoded(bytes);
        let k = (all.len() - rest.len()) as int;
        assert forall|i: int| 0 <= i < all.len() implies (#[trigger] all[i] == '%' || (all[i] as int <= 0xff
            && is_unreserved(all[i] as u8))) by {
            if i >= k {
                assert(all[i] == rest[i - k]);
            }
        }
    }
}

/// After a push the user is told where to open the pull request: in the upstream repository, from the
/// branch of the owner that was pushed to, with a title and a text that name the mirror and its head.
pub proof fn law_push_is_reported(
    config: ConfigView,
    username: Seq<char>,
    branch: Seq<char>,
    head: Seq<char>,
    owner: Seq<char>,
    name: Seq<char>,
)
    requires
        config.push_target(username) == Ok::<Seq<char>, Fault<Seq<char>>>(owner + seq!['/'] + name),
        !owner.contains('/'),
    ensures
        config.push_report(username, branch, head) == Ok::<Seq<char>, Fault<Seq<char>>>(
            "You can create the upstream PR using the following URL:\nhttps://github.com/"@ + config.upstream_repo
                + "/compare/"@ + owner + ":"@ + branch + "?quick_pull=1&title="@ + percent_encoded(
                encode_utf8(config.repo + " subtree update"@),
            ) + "&body="@ + percent_encoded(
                encode_utf8(
                    "Subtree update of `"@ + config.repo + "` to https://github.com/"@ + (config.org + "/"@
                        + config.repo) + "/commit/"@ + head
                        + ".\n\nCreated using https://github.com/rust-lang/josh-sync."@,
                ),
            ),
        ),
{
    law_split_at_first(owner, name, '/');
}

/// A push cannot be reported where the repository that it went to cannot be told, or has no owner.
pub proof fn law_push_is_not_reported(config: ConfigView, username: Seq<char>, branch: Seq<char>, head: Seq<char>)
    ensures
        config.push_target(username) matches Err(fault) ==> config.push_report(username, branch, head) == Err::<
            Seq<char>,
            Fault<Seq<char>>,
        >(fault),
        config.push_target(username) matches Ok(repo) ==> (!repo.contains('/') ==> config.push_report(
            username,
            branch,
            head,
        ) == Err::<Seq<char>, Fault<Seq<char>>>(Fault::InvalidPushRepo)),
{
    if let Ok(repo) = config.push_target(username) {
        law_split_parts(repo, '/');
        if let Some((left, right)) = split_first(repo, '/') {
            assert((left + seq!['/'] + right)[left.len() as int] == '/');
        }
    }
}

/// Text goes into a URL byte by byte: a letter, a digit, `-`, `.`, `_` and `~` as they are, any other
/// byte as a percent sign and two digits.
pub proof fn law_bytes_are_encoded_one_by_one(b: u8, rest: Seq<u8>)
    ensures
        percent_encoded(Seq::empty()) == Seq::<char>::empty(),
        0x30 <= b <= 0x39 || 0x41 <= b <= 0x5a || 0x61 <= b <= 0x7a || b == 0x2d || b == 0x2e || b == 0x5f || b == 0x7e
            ==> percent_encoded(seq![b] + rest) == seq![b as char] + percent_encoded(rest),
        !(0x30 <= b <= 0x39 || 0x41 <= b <= 0x5a || 0x61 <= b <= 0x7a || b == 0x2d || b == 0x2e || b == 0x5f
            || b == 0x7e) ==> percent_encoded(seq![b] + rest) == seq![
            '%',
            "0123456789ABCDEF"@[b as int / 16],
            "0123456789ABCDEF"@[b as int % 16],
        ] + percent_encoded(rest),
{
    assert((seq![b] + rest).skip(1) =~= rest);
    reveal_strlit("0123456789ABCDEF");
}

/// The status after a pull that did not succeed: two where there was nothing to pull, unless that is
/// in order, and one where it failed.
pub proof fn law_statuses_of_pulls(fault: Fault<Seq<char>>, allow_noop: bool)
    ensures
        pull_status(PullFault::NothingToPull, false) == 2,
        pull_status(PullFault::NothingToPull, true) == 0,
        pull_status(PullFault::PullFailed(fault), allow_noop) == 1,
{
}

/// An offer of a pull request after `replies`, given one after the other, and what it says then.
pub open spec fn offered(
    repo: Seq<char>,
    title: Seq<char>,
    description: Seq<char>,
    replies: Seq<ReplyView>,
) -> (OfferView, StepView)
    decreases replies.len(),
{
    if replies.len() == 0 {
        OfferView::start(repo, title, description)
    } else {
        offered(repo, title, description, replies.drop_last()).0.next(replies.last())
    }
}

/// The course of an offer. The GitHub tool is looked for; where it is there, the user is asked, with
/// no as the default; where the user agrees, the tool opens a pull request in the repository, with the
/// title and the text.
pub proof fn law_course_of_offer(
    repo: Seq<char>,
    title: Seq<char>,
    description: Seq<char>,
    first: ReplyView,
    second: ReplyView,
    third: ReplyView,
)
    ensures
        ({
            let (v, s) = offered(repo, title, description, Seq::empty());
            v.outcome is None && s.lines == Seq::<LineView>::empty() && s.action == Some(
                ActionView::Find { program: "gh"@ },
            )
        }),
        ({
            let (v, s) = offered(repo, title, description, seq![first]);
            &&& s.lines == Seq::<LineView>::empty()
            &&& first is Failed ==> v.outcome == Some(Ok::<bool, Fault<Seq<char>>>(false)) && s.action is None
            &&& first is Done ==> v.outcome is None && s.action == Some(
                ActionView::Ask {
                    question: "Do you want to create a "@ + repo + " pull PR using the `gh` tool?"@,
                    default: false,
                },
            )
        }),
        first is Done ==> {
            let (v, s) = offered(repo, title, description, seq![first, second]);
            &&& s.lines == Seq::<LineView>::empty()
            &&& second is Failed ==> v.outcome == Some(Ok::<bool, Fault<Seq<char>>>(false)) && s.action is None
            &&& second is Done ==> v.outcome is None && s.action == Some(
                ActionView::Attend {
                    line: seq![
                        "gh"@,
                        "pr"@,
                        "create"@,
                        "--title"@,
                        title,
                        "--body"@,
                        description,
                        "--repo"@,
                        repo,
                    ],
                },
            )
        },
        first is Done && second is Done ==> {
            let (v, s) = offered(repo, title, description, seq![first, second, third]);
            &&& s.lines == Seq::<LineView>::empty() && s.action is None
            &&& v.outcome == Some(
                match third {
                    Answer::Done(_) => Ok::<bool, Fault<Seq<char>>>(true),
                    Answer::Failed(words) => Err(Fault::Step(words)),
                },
            )
        },
{
    let one = seq![first];
    let two = seq![first, second];
    let three = seq![first, second, third];
    assert(one.drop_last() =~= Seq::empty());
    assert(two.drop_last() =~= one);
    assert(three.drop_last() =~= two);
    reveal_with_fuel(offered, 4);
}

/// An offer that is over stays as it is.
pub proof fn law_offer_stays_over(v: OfferView, reply: ReplyView)
    requires
        v.phase == OfferPhase::Over,
    ensures
        v.next(reply).0 == v,
        v.next(reply).1.action is None,
{
}

/// The end of an offer is seen as it is.
pub proof fn law_end_of_offer_is_seen(opened: bool, fault: SyncError)
    ensures
        offer_end_view(Ok(opened)) == Ok::<bool, Fault<Seq<char>>>(opened),
        offer_end_view(Err(fault)) == Err::<bool, Fault<Seq<char>>>(fault@),
{
}

} // verus!
