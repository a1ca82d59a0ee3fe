//! Reading the diff from a checkout that already stands on the head of the pull request.
use crate::command::{
    git_view, CommandFailure, CommandOutputError, Reply, ReplyView, Request, RequestView,
};
use crate::pull_request::{PullRequestDetails, PullRequestView};
use crate::text::{owned_texts, same_text, trim, trimmed};
use vstd::prelude::*;

verus! {

/// The answer that the attempt on the local checkout waits for.
#[derive(Debug, Clone, Copy, PartialEq, Eq, Structural)]
pub enum LocalStep {
    /// The top directory of the checkout.
    TopLevel,
    /// The canonical forms of that directory and of the given one.
    SameDirectory,
    /// The branch that is checked out.
    Branch,
    /// The commit that is checked out.
    Head,
    /// Whether the base commit is there.
    BaseCommit,
    /// Whether the head commit is there.
    HeadCommit,
    /// The merge base of the two commits.
    MergeBase,
    /// The diff.
    Diff,
}

/// Where the attempt stands: at its beginning, or with the answer to a step.
#[derive(Debug, PartialEq, Eq)]
pub enum LocalTurn {
    Begin,
    Answer(LocalStep, Reply),
}

/// `LocalTurn` with the reply as its view.
#[verifier::ext_equal]
pub enum LocalTurnView {
    Begin,
    Answer(LocalStep, ReplyView),
}

impl View for LocalTurn {
    type V = LocalTurnView;

    open spec fn view(&self) -> LocalTurnView {
        match self {
            LocalTurn::Begin => LocalTurnView::Begin,
            LocalTurn::Answer(step, reply) => LocalTurnView::Answer(*step, reply@),
        }
    }
}

/// What the attempt does next.
#[derive(Debug, PartialEq, Eq)]
pub enum LocalOutcome {
    /// It asks for this work and waits at this step.
    Ask(LocalStep, Request),
    /// It ends with this diff.
    Diff(String),
    /// It ends: the checkout cannot give the diff.
    Unusable,
}

/// `LocalOutcome` with each text as its characters.
#[verifier::ext_equal]
pub enum LocalOutcomeView {
    Ask(LocalStep, RequestView),
    Diff(Seq<char>),
    Unusable,
}

impl View for LocalOutcome {
    type V = LocalOutcomeView;

    open spec fn view(&self) -> LocalOutcomeView {
        match self {
            LocalOutcome::Ask(step, request) => LocalOutcomeView::Ask(*step, request@),
            LocalOutcome::Diff(text) => LocalOutcomeView::Diff(text@),
            LocalOutcome::Unusable => LocalOutcomeView::Unusable,
        }
    }
}

/// The name by which `git` finds a commit, and nothing but a commit, under `sha`.
pub open spec fn commit_name(sha: Seq<char>) -> Seq<char> {
    sha + "^{commit}"@
}

/// The arguments that compare two commits: renames are found, and no program that the
/// local configuration names takes part.
pub open spec fn diff_args(from: Seq<char>, to: Seq<char>) -> Seq<Seq<char>> {
    seq!["diff"@, "--no-ext-diff"@, "--no-textconv"@, "--find-renames"@, from, to]
}

/// A `git` command in the local checkout, which reads the objects themselves and not
/// their replacements.
pub open spec fn local_command(args: Seq<Seq<char>>) -> RequestView {
    RequestView::LocalGit(seq!["--no-replace-objects"@] + args)
}

/// Whether a reply is of the kind that a step waits for.
pub open spec fn fits_local_step(step: LocalStep, reply: ReplyView) -> bool {
    match step {
        LocalStep::SameDirectory => reply is Canonical,
        _ => reply is Git,
    }
}

/// What `git` wrote, or nothing where it failed.
pub open spec fn written(reply: ReplyView) -> Seq<char> {
    match reply {
        ReplyView::Git(Ok(text)) => text,
        _ => Seq::empty(),
    }
}

/// Whether the reply to a step lets the checkout still stand for the pull request.
pub open spec fn usable(pr: PullRequestView, step: LocalStep, reply: ReplyView) -> bool {
    match step {
        LocalStep::SameDirectory => reply matches ReplyView::Canonical {
            path: Some(path),
            checkout: Some(checkout),
        } && path == checkout,
        LocalStep::Branch => reply matches ReplyView::Git(Ok(branch)) && trimmed(branch)
            == pr.head_ref_name,
        LocalStep::Head => reply matches ReplyView::Git(Ok(commit)) && trimmed(commit)
            == pr.head_sha,
        _ => reply matches ReplyView::Git(Ok(_)),
    }
}

/// The step that follows, where there is one.
pub open spec fn following(step: LocalStep) -> Option<LocalStep> {
    match step {
        LocalStep::TopLevel => Some(LocalStep::SameDirectory),
        LocalStep::SameDirectory => Some(LocalStep::Branch),
        LocalStep::Branch => Some(LocalStep::Head),
        LocalStep::Head => Some(LocalStep::BaseCommit),
        LocalStep::BaseCommit => Some(LocalStep::HeadCommit),
        LocalStep::HeadCommit => Some(LocalStep::MergeBase),
        LocalStep::MergeBase => Some(LocalStep::Diff),
        LocalStep::Diff => None,
    }
}

/// The work that a step asks for, given what the step before it brought.
pub open spec fn local_request(
    pr: PullRequestView,
    step: LocalStep,
    before: Seq<char>,
) -> RequestView {
    match step {
        LocalStep::TopLevel => local_command(seq!["rev-parse"@, "--show-toplevel"@]),
        LocalStep::SameDirectory => RequestView::Canonicalize(trimmed(before)),
        LocalStep::Branch => local_command(
            seq!["symbolic-ref"@, "--quiet"@, "--short"@, "HEAD"@],
        ),
        LocalStep::Head => local_command(seq!["rev-parse"@, "--verify"@, "HEAD^{commit}"@]),
        LocalStep::BaseCommit => local_command(
            seq!["cat-file"@, "-e"@, commit_name(pr.base_sha)],
        ),
        LocalStep::HeadCommit => local_command(
            seq!["cat-file"@, "-e"@, commit_name(pr.head_sha)],
        ),
        LocalStep::MergeBase => local_command(seq!["merge-base"@, pr.base_sha, pr.head_sha]),
        LocalStep::Diff => local_command(diff_args(trimmed(before), pr.head_sha)),
    }
}

/// What the attempt does at a turn.
pub open spec fn local_outcome(pr: PullRequestView, turn: LocalTurnView) -> LocalOutcomeView {
    match turn {
        LocalTurnView::Begin => LocalOutcomeView::Ask(
            LocalStep::TopLevel,
            local_request(pr, LocalStep::TopLevel, Seq::empty()),
        ),
        LocalTurnView::Answer(step, reply) => if !usable(pr, step, reply) {
            LocalOutcomeView::Unusable
        } else {
            match following(step) {
                Some(next) => LocalOutcomeView::Ask(
                    next,
                    local_request(pr, next, written(reply)),
                ),
                None => LocalOutcomeView::Diff(written(reply)),
            }
        },
    }
}

/// A `git` command in the local checkout.
fn local_git(args: &[&str]) -> (request: Request)
    ensures
        request@ == local_command(args.deep_view()),
{
    let mut all: Vec<String> = owned_texts(args);
    let ghost rest = all.deep_view();
    all.insert(0, "--no-replace-objects".to_string());
    assert(all.deep_view() =~= seq!["--no-replace-objects"@] + rest);
    Request::LocalGit(all)
}

/// The name by which `git` finds a commit under `sha`.
pub fn commit_text(sha: &str) -> (name: String)
    ensures
        name@ == commit_name(sha@),
        name@ == sha@ + "^{commit}"@,
{
    sha.to_string().concat("^{commit}")
}

/// Whether both canonical forms are there and are the same.
fn same_directory(path: &Option<Vec<u8>>, checkout: &Option<Vec<u8>>) -> (same: bool)
    ensures
        same == (path.deep_view() is Some && path.deep_view() == checkout.deep_view()),
{
    match (path, checkout) {
        (Some(left), Some(right)) => same_bytes(left, right),
        _ => false,
    }
}

/// Whether two byte sequences are the same.
fn same_bytes(left: &Vec<u8>, right: &Vec<u8>) -> (same: bool)
    ensures
        same == (left.deep_view() == right.deep_view()),
{
    if left.len() != right.len() {
        assert(left.deep_view().len() != right.deep_view().len());
        return false;
    }
    for at in 0..left.len()
        invariant
            left@.len() == right@.len(),
            forall|i: int| 0 <= i < at ==> left@[i] == right@[i],
    {
        if left[at] != right[at] {
            assert(left.deep_view()[at as int] != right.deep_view()[at as int]);
            return false;
        }
    }
    assert(left.deep_view() =~= right.deep_view());
    true
}

/// Tries to read the diff from the local checkout.
///
/// The attempt goes on only while the checkout is the top directory of its repository, has
/// the head branch of the pull request checked out, stands on the exact head commit, and
/// holds both commits. It ends with the changes from their merge base to the head. It never
/// ends with an error: whatever fails makes the checkout unusable.
pub fn diff_from_current_pr_branch(pr: &PullRequestDetails, turn: LocalTurn) -> (outcome:
    LocalOutcome)
    requires
        turn@ matches LocalTurnView::Answer(step, reply) ==> fits_local_step(step, reply),
    ensures
        outcome@ == local_outcome(pr@, turn@),
        turn matches LocalTurn::Answer(LocalStep::Diff, Reply::Git(Ok(text))) ==> (outcome
            matches LocalOutcome::Diff(diff) && diff@ == text@),
        turn matches LocalTurn::Answer(LocalStep::Branch, Reply::Git(Ok(text))) ==> (outcome
            is Unusable <==> trimmed(text@) != pr.head_ref_name@),
        turn matches LocalTurn::Answer(LocalStep::Head, Reply::Git(Ok(text))) ==> (outcome
            is Unusable <==> trimmed(text@) != pr.head_sha@),
{
    let (step, reply) = match turn {
        LocalTurn::Begin => {
            return LocalOutcome::Ask(
                LocalStep::TopLevel,
                local_git(&["rev-parse", "--show-toplevel"]),
            );
        },
        LocalTurn::Answer(step, reply) => (step, reply),
    };
    let text = match reply {
        Reply::Canonical { path, checkout } => {
            if !same_directory(&path, &checkout) {
                return LocalOutcome::Unusable;
            }
            return LocalOutcome::Ask(
                LocalStep::Branch,
                local_git(&["symbolic-ref", "--quiet", "--short", "HEAD"]),
            );
        },
        Reply::Git(Ok(text)) => text,
        _ => {
            return LocalOutcome::Unusable;
        },
    };
    match step {
        LocalStep::TopLevel => LocalOutcome::Ask(
            LocalStep::SameDirectory,
            Request::Canonicalize(trim(text.as_str()).to_string()),
        ),
        LocalStep::SameDirectory => LocalOutcome::Unusable,
        LocalStep::Branch => {
            if !same_text(trim(text.as_str()), pr.head_ref_name.as_str()) {
                return LocalOutcome::Unusable;
            }
            LocalOutcome::Ask(
                LocalStep::Head,
                local_git(&["rev-parse", "--verify", "HEAD^{commit}"]),
            )
        },
        LocalStep::Head => {
            if !same_text(trim(text.as_str()), pr.head_sha.as_str()) {
                return LocalOutcome::Unusable;
            }
            LocalOutcome::Ask(
                LocalStep::BaseCommit,
                local_git(&["cat-file", "-e", commit_text(pr.base_sha.as_str()).as_str()]),
            )
        },
        LocalStep::BaseCommit => LocalOutcome::Ask(
            LocalStep::HeadCommit,
            local_git(&["cat-file", "-e", commit_text(pr.head_sha.as_str()).as_str()]),
        ),
        LocalStep::HeadCommit => LocalOutcome::Ask(
            LocalStep::MergeBase,
            local_git(&["merge-base", pr.base_sha.as_str(), pr.head_sha.as_str()]),
        ),
        LocalStep::MergeBase => LocalOutcome::Ask(
            LocalStep::Diff,
            local_git(
                &[
                    "diff",
                    "--no-ext-diff",
                    "--no-textconv",
                    "--find-renames",
                    trim(text.as_str()),
                    pr.head_sha.as_str(),
                ],
            ),
        ),
        LocalStep::Diff => LocalOutcome::Diff(text),
    }
}

/// The work that finds the object store of the local checkout.
pub open spec fn common_git_dir_request() -> RequestView {
    local_command(seq!["rev-parse"@, "--path-format=absolute"@, "--git-common-dir"@])
}

/// The object store that `git` named, where it named one.
pub open spec fn common_git_dir(result: Result<Seq<char>, CommandFailure>) -> Option<Seq<char>> {
    match result {
        Ok(path) => Some(trimmed(path)),
        Err(_) => None,
    }
}

/// Asks for the object store of the local checkout, which its linked worktrees share.
pub fn ask_common_git_dir() -> (request: Request)
    ensures
        request@ == common_git_dir_request(),
{
    local_git(&["rev-parse", "--path-format=absolute", "--git-common-dir"])
}

/// Reads the path of the object store from what `git` wrote. A failure means that there is
/// none to borrow from.
pub fn local_common_git_dir(result: Result<String, CommandOutputError>) -> (path: Option<String>)
    ensures
        path.deep_view() == common_git_dir(git_view(result)),
        result matches Ok(text) ==> (path matches Some(store) && store@ == trimmed(text@)),
        result is Err ==> path is None,
{
    match result {
        Ok(text) => Some(trim(text.as_str()).to_string()),
        Err(_) => None,
    }
}

/// The attempt hands on the diff that `git` wrote, whole and untouched, whatever its length.
pub proof fn law_the_local_diff_is_whole(pr: PullRequestView, diff: Seq<char>)
    ensures
        local_outcome(pr, LocalTurnView::Answer(LocalStep::Diff, ReplyView::Git(Ok(diff))))
            == LocalOutcomeView::Diff(diff),
{
}

/// A failure at any step makes the checkout unusable.
pub proof fn law_local_failures_end_the_attempt(
    pr: PullRequestView,
    step: LocalStep,
    failure: CommandFailure,
)
    ensures
        local_outcome(pr, LocalTurnView::Answer(step, ReplyView::Git(Err(failure))))
            == LocalOutcomeView::Unusable,
{
}

/// The attempt begins at the top directory, whose path it takes from between the white space
/// that `git` wrote around it.
pub proof fn law_the_attempt_begins_at_the_top(pr: PullRequestView, top: Seq<char>)
    ensures
        local_outcome(pr, LocalTurnView::Begin) == LocalOutcomeView::Ask(
            LocalStep::TopLevel,
            RequestView::LocalGit(
                seq!["--no-replace-objects"@, "rev-parse"@, "--show-toplevel"@],
            ),
        ),
        local_outcome(pr, LocalTurnView::Answer(LocalStep::TopLevel, ReplyView::Git(Ok(top))))
            == LocalOutcomeView::Ask(
            LocalStep::SameDirectory,
            RequestView::Canonicalize(trimmed(top)),
        ),
{
}

/// The attempt goes on from there if both directories have a canonical form and it is the
/// same, and only then.
pub proof fn law_the_checkout_is_the_top(
    pr: PullRequestView,
    path: Option<Seq<u8>>,
    checkout: Option<Seq<u8>>,
)
    ensures
        local_outcome(
            pr,
            LocalTurnView::Answer(
                LocalStep::SameDirectory,
                ReplyView::Canonical { path, checkout },
            ),
        ) == if path is Some && checkout is Some && path->0 == checkout->0 {
            LocalOutcomeView::Ask(
                LocalStep::Branch,
                RequestView::LocalGit(
                    seq![
                        "--no-replace-objects"@,
                        "symbolic-ref"@,
                        "--quiet"@,
                        "--short"@,
                        "HEAD"@,
                    ],
                ),
            )
        } else {
            LocalOutcomeView::Unusable
        },
{
}

/// The attempt goes on from the branch if it has exactly the name of the head branch, and
/// from the commit if it is exactly the head commit, and only then.
pub proof fn law_the_checkout_stands_on_the_head(pr: PullRequestView, named: Seq<char>)
    ensures
        local_outcome(pr, LocalTurnView::Answer(LocalStep::Branch, ReplyView::Git(Ok(named))))
            == if trimmed(named) == pr.head_ref_name {
            LocalOutcomeView::Ask(
                LocalStep::Head,
                RequestView::LocalGit(
                    seq!["--no-replace-objects"@, "rev-parse"@, "--verify"@, "HEAD^{commit}"@],
                ),
            )
        } else {
            LocalOutcomeView::Unusable
        },
        local_outcome(pr, LocalTurnView::Answer(LocalStep::Head, ReplyView::Git(Ok(named))))
            == if trimmed(named) == pr.head_sha {
            LocalOutcomeView::Ask(
                LocalStep::BaseCommit,
                RequestView::LocalGit(
                    seq![
                        "--no-replace-objects"@,
                        "cat-file"@,
                        "-e"@,
                        pr.base_sha + "^{commit}"@,
                    ],
                ),
            )
        } else {
            LocalOutcomeView::Unusable
        },
{
}

/// Both commits must be there. Then the merge base is asked for, and the comparison is from
/// the merge base that `git` named, between white space, to the head commit.
pub proof fn law_the_local_diff_is_from_merge_base_to_head(
    pr: PullRequestView,
    written: Seq<char>,
)
    ensures
        local_outcome(
            pr,
            LocalTurnView::Answer(LocalStep::BaseCommit, ReplyView::Git(Ok(written))),
        ) == LocalOutcomeView::Ask(
            LocalStep::HeadCommit,
            RequestView::LocalGit(
                seq!["--no-replace-objects"@, "cat-file"@, "-e"@, pr.head_sha + "^{commit}"@],
            ),
        ),
        local_outcome(
            pr,
            LocalTurnView::Answer(LocalStep::HeadCommit, ReplyView::Git(Ok(written))),
        ) == LocalOutcomeView::Ask(
            LocalStep::MergeBase,
            RequestView::LocalGit(
                seq!["--no-replace-objects"@, "merge-base"@, pr.base_sha, pr.head_sha],
            ),
        ),
        local_outcome(
            pr,
            LocalTurnView::Answer(LocalStep::MergeBase, ReplyView::Git(Ok(written))),
        ) == LocalOutcomeView::Ask(
            LocalStep::Diff,
            RequestView::LocalGit(
                seq![
                    "--no-replace-objects"@,
                    "diff"@,
                    "--no-ext-diff"@,
                    "--no-textconv"@,
                    "--find-renames"@,
                    trimmed(written),
                    pr.head_sha,
                ],
            ),
        ),
{
}

/// The object store is the path that `git` wrote, between white space, and there is none
/// where `git` failed.
pub proof fn law_the_object_store(path: Seq<char>, failure: CommandFailure)
    ensures
        common_git_dir_request() == RequestView::LocalGit(
            seq![
                "--no-replace-objects"@,
                "rev-parse"@,
                "--path-format=absolute"@,
                "--git-common-dir"@,
            ],
        ),
        common_git_dir(Ok(path)) == Some(trimmed(path)),
        common_git_dir(Err(failure)) == None::<Seq<char>>,
{
}

/// The attempt takes canonical forms at one step and what `git` wrote at all others, whatever
/// they hold.
pub proof fn law_local_steps_have_their_kind_of_reply(step: LocalStep, reply: ReplyView)
    ensures
        fits_local_step(step, reply) <==> if step == LocalStep::SameDirectory {
            reply is Canonical
        } else {
            reply is Git
        },
{
}

/// The view of a turn holds the step and the reply.
pub proof fn law_local_turns_are_seen_as_they_are(turn: LocalTurn, outcome: LocalOutcome)
    ensures
        turn is Begin ==> turn@ == LocalTurnView::Begin,
        turn matches LocalTurn::Answer(step, reply) ==> turn@ == LocalTurnView::Answer(
            step,
            reply@,
        ),
        outcome matches LocalOutcome::Ask(step, request) ==> outcome@ == LocalOutcomeView::Ask(
            step,
            request@,
        ),
        outcome matches LocalOutcome::Diff(text) ==> outcome@ == LocalOutcomeView::Diff(text@),
        outcome is Unusable ==> outcome@ == LocalOutcomeView::Unusable,
{
}

} // verus!
