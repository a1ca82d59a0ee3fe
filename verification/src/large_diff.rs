//! Building the diff of a pull request that is too large for the forge to show.
use crate::command::{
    git_error, outcome_view, CommandFailure, Reply, ReplyView, Request, RequestView, TuicrError,
    TuicrErrorView,
};
use crate::local_checkout::{
    ask_common_git_dir, common_git_dir, common_git_dir_request, diff_from_current_pr_branch,
    fits_local_step, local_common_git_dir, local_outcome, LocalOutcome, LocalOutcomeView,
    LocalStep, LocalTurn, LocalTurnView,
};
use crate::pull_request::{PullRequestDetails, PullRequestView};
use crate::temporary_clone::{
    clone_args, clone_error, diff_outcome, directory_error, directory_request, fetch_args,
    DiffOutcome, DiffOutcomeView, DiffStep, DiffTurn, DiffTurnView, TemporaryClone,
};
use crate::text::trimmed;
use vstd::prelude::*;

verus! {

/// What building the diff waits for.
#[derive(Debug, PartialEq, Eq)]
pub enum Progress {
    /// An answer about the local checkout.
    Local(LocalStep),
    /// The object store of the local checkout.
    Reference,
    /// A temporary directory, for a clone that borrows from this repository.
    Directory(Option<String>),
    /// The clone.
    Cloning(TemporaryClone),
    /// The refs of the pull request in the clone.
    FetchingRefs(TemporaryClone),
    /// An answer from the clone.
    Diffing(TemporaryClone, DiffStep),
}

/// `Progress` with each text as its characters.
#[verifier::ext_equal]
pub enum ProgressView {
    Local(LocalStep),
    Reference,
    Directory(Option<Seq<char>>),
    Cloning(Seq<char>),
    FetchingRefs(Seq<char>),
    Diffing(Seq<char>, DiffStep),
}

impl View for Progress {
    type V = ProgressView;

    open spec fn view(&self) -> ProgressView {
        match self {
            Progress::Local(step) => ProgressView::Local(*step),
            Progress::Reference => ProgressView::Reference,
            Progress::Directory(reference) => ProgressView::Directory(reference.deep_view()),
            Progress::Cloning(clone) => ProgressView::Cloning(clone@),
            Progress::FetchingRefs(clone) => ProgressView::FetchingRefs(clone@),
            Progress::Diffing(clone, step) => ProgressView::Diffing(clone@, *step),
        }
    }
}

/// Where building the diff stands: at its beginning, with or without a local checkout, or
/// with the reply to what it asked for.
#[derive(Debug, PartialEq, Eq)]
pub enum Turn {
    Begin { local_checkout: bool },
    Answer(Progress, Reply),
}

/// `Turn` with each text as its characters.
#[verifier::ext_equal]
pub enum TurnView {
    Begin { local_checkout: bool },
    Answer(ProgressView, ReplyView),
}

impl View for Turn {
    type V = TurnView;

    open spec fn view(&self) -> TurnView {
        match self {
            Turn::Begin { local_checkout } => TurnView::Begin { local_checkout: *local_checkout },
            Turn::Answer(progress, reply) => TurnView::Answer(progress@, reply@),
        }
    }
}

/// What building the diff does next.
#[derive(Debug, PartialEq, Eq)]
pub enum Step {
    /// It asks for this work and waits for the reply.
    Ask(Progress, Request),
    /// It ends with the diff, or with the reason why there is none.
    Done(Result<String, TuicrError>),
}

/// `Step` with each text as its characters.
#[verifier::ext_equal]
pub enum StepView {
    Ask(ProgressView, RequestView),
    Done(Result<Seq<char>, TuicrErrorView>),
}

impl View for Step {
    type V = StepView;

    open spec fn view(&self) -> StepView {
        match self {
            Step::Ask(progress, request) => StepView::Ask(progress@, request@),
            Step::Done(outcome) => StepView::Done(outcome_view(*outcome)),
        }
    }
}

/// Whether a reply is of the kind that a progress waits for.
pub open spec fn fits(progress: ProgressView, reply: ReplyView) -> bool {
    match progress {
        ProgressView::Local(step) => fits_local_step(step, reply),
        ProgressView::Directory(_) => reply is Directory,
        ProgressView::Cloning(_) => reply is Gh,
        _ => reply is Git,
    }
}

/// What building the diff does after a turn on the local checkout.
pub open spec fn after_local(outcome: LocalOutcomeView) -> StepView {
    match outcome {
        LocalOutcomeView::Ask(step, request) => StepView::Ask(ProgressView::Local(step), request),
        LocalOutcomeView::Diff(text) => StepView::Done(Ok(text)),
        LocalOutcomeView::Unusable => StepView::Ask(
            ProgressView::Reference,
            common_git_dir_request(),
        ),
    }
}

/// What building the diff does after a turn on the diff in the clone at `path`.
pub open spec fn after_diff(path: Seq<char>, outcome: DiffOutcomeView) -> StepView {
    match outcome {
        DiffOutcomeView::Ask(step, request) => StepView::Ask(
            ProgressView::Diffing(path, step),
            request,
        ),
        DiffOutcomeView::Done(result) => StepView::Done(result),
    }
}

/// What building the diff does at a turn.
pub open spec fn large_diff_step(pr: PullRequestView, turn: TurnView) -> StepView {
    match turn {
        TurnView::Begin { local_checkout: true } => after_local(
            local_outcome(pr, LocalTurnView::Begin),
        ),
        TurnView::Begin { local_checkout: false } => StepView::Ask(
            ProgressView::Directory(None),
            directory_request(),
        ),
        TurnView::Answer(ProgressView::Local(step), reply) => after_local(
            local_outcome(pr, LocalTurnView::Answer(step, reply)),
        ),
        TurnView::Answer(ProgressView::Reference, reply) => StepView::Ask(
            ProgressView::Directory(common_git_dir(reply->Git_0)),
            directory_request(),
        ),
        TurnView::Answer(ProgressView::Directory(reference), reply) => match reply->Directory_0 {
            Ok(path) => StepView::Ask(
                ProgressView::Cloning(path),
                RequestView::Gh(clone_args(pr, path, reference)),
            ),
            Err(message) => StepView::Done(Err(directory_error(message))),
        },
        TurnView::Answer(ProgressView::Cloning(path), reply) => match reply->Gh_0 {
            Ok(_) => StepView::Ask(
                ProgressView::FetchingRefs(path),
                RequestView::CloneGit(fetch_args(pr)),
            ),
            Err(message) => StepView::Done(Err(clone_error(message))),
        },
        TurnView::Answer(ProgressView::FetchingRefs(path), reply) => match reply->Git_0 {
            Ok(_) => after_diff(path, diff_outcome(pr, DiffTurnView::Begin)),
            Err(failure) => StepView::Done(Err(git_error(failure))),
        },
        TurnView::Answer(ProgressView::Diffing(path, step), reply) => after_diff(
            path,
            diff_outcome(pr, DiffTurnView::Answer(step, reply->Git_0)),
        ),
    }
}

/// Carries a turn on the local checkout into the whole.
fn continue_local(outcome: LocalOutcome) -> (step: Step)
    ensures
        step@ == after_local(outcome@),
{
    match outcome {
        LocalOutcome::Ask(step, request) => Step::Ask(Progress::Local(step), request),
        LocalOutcome::Diff(text) => Step::Done(Ok(text)),
        LocalOutcome::Unusable => Step::Ask(Progress::Reference, ask_common_git_dir()),
    }
}

/// Carries a turn on the diff in the clone into the whole.
fn continue_diff(clone: TemporaryClone, outcome: DiffOutcome) -> (step: Step)
    ensures
        step@ == after_diff(clone@, outcome@),
{
    match outcome {
        DiffOutcome::Ask(step, request) => Step::Ask(Progress::Diffing(clone, step), request),
        DiffOutcome::Done(result) => Step::Done(result),
    }
}

/// Builds the diff of a pull request, whatever its size, without changing the checkout.
///
/// A checkout that stands on the exact head of the pull request gives the diff itself. In
/// all other cases it comes from a temporary bare clone, which borrows the objects of the
/// checkout where there are any before it fetches the refs of the forge.
pub fn fetch_large_diff(pr: &PullRequestDetails, turn: Turn) -> (step: Step)
    requires
        turn@ matches TurnView::Answer(progress, reply) ==> fits(progress, reply),
    ensures
        step@ == large_diff_step(pr@, turn@),
        turn matches Turn::Answer(Progress::Local(LocalStep::Diff), Reply::Git(Ok(text))) ==> (
        step matches Step::Done(Ok(diff)) && diff@ == text@),
        turn matches Turn::Answer(Progress::Diffing(_, DiffStep::Diff), Reply::Git(Ok(text)))
            ==> (step matches Step::Done(Ok(diff)) && diff@ == text@),
{
    match turn {
        Turn::Begin { local_checkout } => {
            if local_checkout {
                continue_local(diff_from_current_pr_branch(pr, LocalTurn::Begin))
            } else {
                Step::Ask(Progress::Directory(None), TemporaryClone::ask_directory())
            }
        },
        Turn::Answer(Progress::Local(step), reply) => continue_local(
            diff_from_current_pr_branch(pr, LocalTurn::Answer(step, reply)),
        ),
        Turn::Answer(Progress::Reference, Reply::Git(result)) => Step::Ask(
            Progress::Directory(local_common_git_dir(result)),
            TemporaryClone::ask_directory(),
        ),
        Turn::Answer(Progress::Directory(reference), Reply::Directory(made)) => {
            match TemporaryClone::new(made) {
                Ok(clone) => {
                    let reference_repo = match &reference {
                        Some(path) => Some(path.as_str()),
                        None => None,
                    };
                    let request = clone.clone_from_github(pr, reference_repo);
                    Step::Ask(Progress::Cloning(clone), request)
                },
                Err(error) => Step::Done(Err(error)),
            }
        },
        Turn::Answer(Progress::Cloning(clone), Reply::Gh(result)) => {
            match result {
                Ok(_) => {
                    let request = clone.fetch_pr_refs(pr);
                    Step::Ask(Progress::FetchingRefs(clone), request)
                },
                Err(message) => Step::Done(
                    Err(TemporaryClone::clone_failed(message.as_str())),
                ),
            }
        },
        Turn::Answer(Progress::FetchingRefs(clone), Reply::Git(result)) => {
            match TemporaryClone::git(result) {
                Ok(_) => {
                    let outcome = clone.diff(pr, DiffTurn::Begin);
                    continue_diff(clone, outcome)
                },
                Err(error) => Step::Done(Err(error)),
            }
        },
        Turn::Answer(Progress::Diffing(clone, step), Reply::Git(result)) => {
            let outcome = clone.diff(pr, DiffTurn::Answer(step, result));
            continue_diff(clone, outcome)
        },
        Turn::Answer(_, _) => vstd::pervasive::unreached(),
    }
}

/// Without a local checkout the diff comes from a clone that borrows from nowhere, with one
/// it is tried there first.
pub proof fn law_where_building_begins(pr: PullRequestView)
    ensures
        large_diff_step(pr, TurnView::Begin { local_checkout: false }) == StepView::Ask(
            ProgressView::Directory(None),
            RequestView::TemporaryDirectory("tuicr-pr-"@),
        ),
        large_diff_step(pr, TurnView::Begin { local_checkout: true }) == StepView::Ask(
            ProgressView::Local(LocalStep::TopLevel),
            RequestView::LocalGit(
                seq!["--no-replace-objects"@, "rev-parse"@, "--show-toplevel"@],
            ),
        ),
{
}

/// What the attempt on the checkout comes to is what building the diff does: the diff ends
/// it, a question is put, and a checkout that is of no use is asked for its object store.
pub proof fn law_the_attempt_decides(
    pr: PullRequestView,
    step: LocalStep,
    reply: ReplyView,
    diff: Seq<char>,
    next: LocalStep,
    request: RequestView,
)
    ensures
        local_outcome(pr, LocalTurnView::Answer(step, reply)) == LocalOutcomeView::Diff(diff)
            ==> large_diff_step(pr, TurnView::Answer(ProgressView::Local(step), reply))
            == StepView::Done(Ok(diff)),
        local_outcome(pr, LocalTurnView::Answer(step, reply)) == LocalOutcomeView::Ask(
            next,
            request,
        ) ==> large_diff_step(pr, TurnView::Answer(ProgressView::Local(step), reply))
            == StepView::Ask(ProgressView::Local(next), request),
        local_outcome(pr, LocalTurnView::Answer(step, reply)) == LocalOutcomeView::Unusable
            ==> large_diff_step(pr, TurnView::Answer(ProgressView::Local(step), reply))
            == StepView::Ask(
            ProgressView::Reference,
            RequestView::LocalGit(
                seq![
                    "--no-replace-objects"@,
                    "rev-parse"@,
                    "--path-format=absolute"@,
                    "--git-common-dir"@,
                ],
            ),
        ),
{
}

/// The diff that `git` wrote is the outcome, whole and untouched, whatever its length, from
/// the checkout and from the clone.
pub proof fn law_the_diff_is_whole(pr: PullRequestView, path: Seq<char>, diff: Seq<char>)
    ensures
        large_diff_step(
            pr,
            TurnView::Answer(ProgressView::Local(LocalStep::Diff), ReplyView::Git(Ok(diff))),
        ) == StepView::Done(Ok(diff)),
        large_diff_step(
            pr,
            TurnView::Answer(
                ProgressView::Diffing(path, DiffStep::Diff),
                ReplyView::Git(Ok(diff)),
            ),
        ) == StepView::Done(Ok(diff)),
{
}

/// The way to the clone: the object store is borrowed from where `git` named it, the clone is
/// made in the directory that was given, the refs are fetched into it, and then it is read
/// from. Each failure there is the error.
pub proof fn law_the_way_to_the_clone(
    pr: PullRequestView,
    store: Seq<char>,
    path: Seq<char>,
    reference: Option<Seq<char>>,
    written: Seq<char>,
    message: Seq<char>,
    failure: CommandFailure,
)
    ensures
        large_diff_step(pr, TurnView::Answer(ProgressView::Reference, ReplyView::Git(Ok(store))))
            == StepView::Ask(
            ProgressView::Directory(Some(trimmed(store))),
            RequestView::TemporaryDirectory("tuicr-pr-"@),
        ),
        large_diff_step(
            pr,
            TurnView::Answer(ProgressView::Reference, ReplyView::Git(Err(failure))),
        ) == StepView::Ask(
            ProgressView::Directory(None),
            RequestView::TemporaryDirectory("tuicr-pr-"@),
        ),
        large_diff_step(
            pr,
            TurnView::Answer(ProgressView::Directory(reference), ReplyView::Directory(Ok(path))),
        ) == StepView::Ask(
            ProgressView::Cloning(path),
            RequestView::Gh(clone_args(pr, path, reference)),
        ),
        large_diff_step(
            pr,
            TurnView::Answer(
                ProgressView::Directory(reference),
                ReplyView::Directory(Err(message)),
            ),
        ) == StepView::Done(Err(TuicrErrorView::Io(message))),
        large_diff_step(
            pr,
            TurnView::Answer(ProgressView::Cloning(path), ReplyView::Gh(Ok(written))),
        ) == StepView::Ask(
            ProgressView::FetchingRefs(path),
            RequestView::CloneGit(fetch_args(pr)),
        ),
        large_diff_step(
            pr,
            TurnView::Answer(ProgressView::Cloning(path), ReplyView::Gh(Err(message))),
        ) == StepView::Done(
            Err(
                TuicrErrorView::Forge(
                    "Could not clone pull request repository: "@ + message,
                ),
            ),
        ),
        large_diff_step(
            pr,
            TurnView::Answer(ProgressView::FetchingRefs(path), ReplyView::Git(Ok(written))),
        ) == StepView::Ask(
            ProgressView::Diffing(path, DiffStep::BaseCommit),
            RequestView::CloneGit(seq!["cat-file"@, "-e"@, pr.base_sha + "^{commit}"@]),
        ),
        large_diff_step(
            pr,
            TurnView::Answer(ProgressView::FetchingRefs(path), ReplyView::Git(Err(failure))),
        ) == StepView::Done(Err(git_error(failure))),
{
}

/// What reading the diff from the clone comes to is what building the diff does, in the same
/// clone.
pub proof fn law_the_clone_decides(
    pr: PullRequestView,
    path: Seq<char>,
    step: DiffStep,
    result: Result<Seq<char>, CommandFailure>,
    outcome: Result<Seq<char>, TuicrErrorView>,
    next: DiffStep,
    request: RequestView,
)
    ensures
        diff_outcome(pr, DiffTurnView::Answer(step, result)) == DiffOutcomeView::Done(outcome)
            ==> large_diff_step(
            pr,
            TurnView::Answer(ProgressView::Diffing(path, step), ReplyView::Git(result)),
        ) == StepView::Done(outcome),
        diff_outcome(pr, DiffTurnView::Answer(step, result)) == DiffOutcomeView::Ask(
            next,
            request,
        ) ==> large_diff_step(
            pr,
            TurnView::Answer(ProgressView::Diffing(path, step), ReplyView::Git(result)),
        ) == StepView::Ask(ProgressView::Diffing(path, next), request),
{
}

/// Each progress takes the replies of one kind, whatever they hold.
pub proof fn law_progress_has_its_kind_of_reply(
    reply: ReplyView,
    path: Seq<char>,
    reference: Option<Seq<char>>,
    step: DiffStep,
)
    ensures
        fits(ProgressView::Local(LocalStep::SameDirectory), reply) <==> reply is Canonical,
        forall|local: LocalStep|
            local != LocalStep::SameDirectory ==> (#[trigger] fits(
                ProgressView::Local(local),
                reply,
            ) <==> reply is Git),
        fits(ProgressView::Reference, reply) <==> reply is Git,
        fits(ProgressView::Directory(reference), reply) <==> reply is Directory,
        fits(ProgressView::Cloning(path), reply) <==> reply is Gh,
        fits(ProgressView::FetchingRefs(path), reply) <==> reply is Git,
        fits(ProgressView::Diffing(path, step), reply) <==> reply is Git,
{
}

/// The view of a turn holds what is waited for and the reply, and the view of a step what is
/// asked for or the outcome.
pub proof fn law_turns_are_seen_as_they_are(turn: Turn, progress: Progress, step: Step)
    ensures
        turn matches Turn::Begin { local_checkout } ==> turn@ == (TurnView::Begin {
            local_checkout,
        }),
        turn matches Turn::Answer(waiting, reply) ==> turn@ == TurnView::Answer(
            waiting@,
            reply@,
        ),
        progress matches Progress::Local(local) ==> progress@ == ProgressView::Local(local),
        progress is Reference ==> progress@ == ProgressView::Reference,
        progress matches Progress::Directory(Some(reference)) ==> progress@
            == ProgressView::Directory(Some(reference@)),
        progress matches Progress::Directory(None) ==> progress@ == ProgressView::Directory(None),
        progress matches Progress::Cloning(clone) ==> progress@ == ProgressView::Cloning(clone@),
        progress matches Progress::FetchingRefs(clone) ==> progress@
            == ProgressView::FetchingRefs(clone@),
        progress matches Progress::Diffing(clone, diff) ==> progress@ == ProgressView::Diffing(
            clone@,
            diff,
        ),
        step matches Step::Ask(waiting, request) ==> step@ == StepView::Ask(waiting@, request@),
        step matches Step::Done(Ok(text)) ==> step@ == StepView::Done(Ok(text@)),
        step matches Step::Done(Err(error)) ==> step@ == StepView::Done(Err(error@)),
{
}

} // verus!
