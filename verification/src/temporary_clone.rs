//! Reading the diff from a clone of its own, apart from the user's checkout.
use crate::command::{
    git_error, git_view, map_git_error, outcome_view, texts_view, CommandFailure,
    CommandOutputError, Request, RequestView, TuicrError, TuicrErrorView,
};
use crate::local_checkout::{commit_name, commit_text, diff_args};
use crate::pull_request::{PullRequestDetails, PullRequestView};
use crate::text::{
    decimal, decimal_text, law_decimal_is_unambiguous, lemma_same_behind, lemma_same_between,
    owned_texts, trim, trimmed,
};
use vstd::prelude::*;

verus! {

/// A bare clone in a temporary directory.
#[derive(Debug, PartialEq, Eq)]
pub struct TemporaryClone {
    path: String,
}

impl View for TemporaryClone {
    type V = Seq<char>;

    closed spec fn view(&self) -> Seq<char> {
        self.path@
    }
}

/// The answer that reading the diff from the clone waits for.
#[derive(Debug, Clone, Copy, PartialEq, Eq, Structural)]
pub enum DiffStep {
    /// Whether the base commit is there.
    BaseCommit,
    /// Whether the head commit is there.
    HeadCommit,
    /// The merge base of the two commits.
    MergeBase,
    /// The diff.
    Diff,
}

/// Where reading the diff stands: at its beginning, or with the answer to a step.
#[derive(Debug, PartialEq, Eq)]
pub enum DiffTurn {
    Begin,
    Answer(DiffStep, Result<String, CommandOutputError>),
}

/// `DiffTurn` with the answer as its view.
#[verifier::ext_equal]
pub enum DiffTurnView {
    Begin,
    Answer(DiffStep, Result<Seq<char>, CommandFailure>),
}

impl View for DiffTurn {
    type V = DiffTurnView;

    open spec fn view(&self) -> DiffTurnView {
        match self {
            DiffTurn::Begin => DiffTurnView::Begin,
            DiffTurn::Answer(step, result) => DiffTurnView::Answer(*step, git_view(*result)),
        }
    }
}

/// What reading the diff does next.
#[derive(Debug, PartialEq, Eq)]
pub enum DiffOutcome {
    /// It asks for this work and waits at this step.
    Ask(DiffStep, Request),
    /// It ends with the diff, or with the reason why there is none.
    Done(Result<String, TuicrError>),
}

/// `DiffOutcome` with each text as its characters.
#[verifier::ext_equal]
pub enum DiffOutcomeView {
    Ask(DiffStep, RequestView),
    Done(Result<Seq<char>, TuicrErrorView>),
}

impl View for DiffOutcome {
    type V = DiffOutcomeView;

    open spec fn view(&self) -> DiffOutcomeView {
        match self {
            DiffOutcome::Ask(step, request) => DiffOutcomeView::Ask(*step, request@),
            DiffOutcome::Done(outcome) => DiffOutcomeView::Done(outcome_view(*outcome)),
        }
    }
}

/// The work that makes the directory of a clone.
pub open spec fn directory_request() -> RequestView {
    RequestView::TemporaryDirectory("tuicr-pr-"@)
}

/// The error where the directory of a clone could not be made.
pub open spec fn directory_error(message: Seq<char>) -> TuicrErrorView {
    TuicrErrorView::Io(message)
}

/// The arguments that clone the repository of a pull request into `path`: bare, without
/// file contents and tags, the base branch alone, and with objects borrowed from
/// `reference` where there is one.
pub open spec fn clone_args(
    pr: PullRequestView,
    path: Seq<char>,
    reference: Option<Seq<char>>,
) -> Seq<Seq<char>> {
    let args = seq![
        "repo"@,
        "clone"@,
        pr.repository,
        path,
        "--"@,
        "--bare"@,
        "--filter=blob:none"@,
        "--no-tags"@,
        "--single-branch"@,
        "--branch="@ + pr.base_ref_name,
    ];
    match reference {
        Some(repository) => args.push("--reference-if-able="@ + repository),
        None => args,
    }
}

/// The error where the clone failed.
pub open spec fn clone_error(message: Seq<char>) -> TuicrErrorView {
    TuicrErrorView::Forge("Could not clone pull request repository: "@ + message)
}

/// The arguments that fetch the base branch and the head of a pull request. The head comes
/// from the ref that the forge keeps for the pull request.
pub open spec fn fetch_args(pr: PullRequestView) -> Seq<Seq<char>> {
    seq![
        "fetch"@,
        "--quiet"@,
        "--no-tags"@,
        "origin"@,
        "+refs/heads/"@ + pr.base_ref_name + ":refs/tuicr/base"@,
        "+refs/pull/"@ + decimal(pr.number) + "/head:refs/tuicr/head"@,
    ]
}

/// The step that follows, where there is one.
pub open spec fn following(step: DiffStep) -> Option<DiffStep> {
    match step {
        DiffStep::BaseCommit => Some(DiffStep::HeadCommit),
        DiffStep::HeadCommit => Some(DiffStep::MergeBase),
        DiffStep::MergeBase => Some(DiffStep::Diff),
        DiffStep::Diff => None,
    }
}

/// The work that a step asks for, given what the step before it brought.
pub open spec fn diff_request(
    pr: PullRequestView,
    step: DiffStep,
    before: Seq<char>,
) -> RequestView {
    RequestView::CloneGit(
        match step {
            DiffStep::BaseCommit => seq!["cat-file"@, "-e"@, commit_name(pr.base_sha)],
            DiffStep::HeadCommit => seq!["cat-file"@, "-e"@, commit_name(pr.head_sha)],
            DiffStep::MergeBase => seq!["merge-base"@, pr.base_sha, pr.head_sha],
            DiffStep::Diff => diff_args(trimmed(before), pr.head_sha),
        },
    )
}

/// What reading the diff does at a turn.
pub open spec fn diff_outcome(pr: PullRequestView, turn: DiffTurnView) -> DiffOutcomeView {
    match turn {
        DiffTurnView::Begin => DiffOutcomeView::Ask(
            DiffStep::BaseCommit,
            diff_request(pr, DiffStep::BaseCommit, Seq::empty()),
        ),
        DiffTurnView::Answer(_, Err(failure)) => DiffOutcomeView::Done(Err(git_error(failure))),
        DiffTurnView::Answer(step, Ok(text)) => match following(step) {
            Some(next) => DiffOutcomeView::Ask(next, diff_request(pr, next, text)),
            None => DiffOutcomeView::Done(Ok(text)),
        },
    }
}

/// Whether an argument is of the family of options that borrow objects.
pub open spec fn is_reference(arg: Seq<char>) -> bool {
    "--reference"@.is_prefix_of(arg)
}

/// Borrowing adds one argument, at the end, and changes no other. Without it no argument is
/// of the family `--reference`, unless the repository or the directory is itself a text of
/// that form.
pub proof fn law_borrowing_adds_one_option(
    pr: PullRequestView,
    path: Seq<char>,
    repository: Seq<char>,
)
    ensures
        clone_args(pr, path, Some(repository)) == clone_args(pr, path, None).push(
            "--reference-if-able="@ + repository,
        ),
        is_reference("--reference-if-able="@ + repository),
        forall|i: int|
            0 <= i < clone_args(pr, path, None).len() && i != 2 && i != 3 ==> !is_reference(
                #[trigger] clone_args(pr, path, None)[i],
            ),
        !is_reference(pr.repository) && !is_reference(path) ==> forall|i: int|
            0 <= i < clone_args(pr, path, None).len() ==> !is_reference(
                #[trigger] clone_args(pr, path, None)[i],
            ),
{
    reveal_strlit("--reference");
    reveal_strlit("--reference-if-able=");
    reveal_strlit("repo");
    reveal_strlit("clone");
    reveal_strlit("--");
    reveal_strlit("--bare");
    reveal_strlit("--filter=blob:none");
    reveal_strlit("--no-tags");
    reveal_strlit("--single-branch");
    reveal_strlit("--branch=");
    let option = "--reference-if-able="@ + repository;
    assert("--reference"@ =~= option.subrange(0, "--reference"@.len() as int));
    let args = clone_args(pr, path, None);
    assert forall|i: int| 0 <= i < args.len() && i != 2 && i != 3 implies !is_reference(
        #[trigger] args[i],
    ) by {
        if is_reference(args[i]) {
            assert("--reference"@[2] == args[i][2]);
        }
    }
}

/// The options that `git` gets for a clone stand behind a `--`. The clone is bare and takes
/// the base branch alone. Only the last argument is of the family `--reference`, and only to
/// borrow from the repository that was given, unless the repository of the pull request or
/// the directory is itself a text of that form.
pub proof fn law_clone_options(pr: PullRequestView, path: Seq<char>, reference: Option<Seq<char>>)
    ensures
        clone_args(pr, path, reference)[4] == "--"@,
        clone_args(pr, path, reference).skip(5).contains("--bare"@),
        clone_args(pr, path, reference).skip(5).contains("--single-branch"@),
        clone_args(pr, path, reference).skip(5).contains("--branch="@ + pr.base_ref_name),
        reference matches Some(repository) ==> clone_args(pr, path, reference).skip(5).contains(
            "--reference-if-able="@ + repository,
        ),
        forall|i: int|
            0 <= i < clone_args(pr, path, reference).len() && i != 2 && i != 3 && is_reference(
                #[trigger] clone_args(pr, path, reference)[i],
            ) ==> reference is Some && i == 10 && clone_args(pr, path, reference)[i]
                == "--reference-if-able="@ + reference->0,
        !is_reference(pr.repository) && !is_reference(path) ==> forall|i: int|
            0 <= i < clone_args(pr, path, reference).len() && is_reference(
                #[trigger] clone_args(pr, path, reference)[i],
            ) ==> reference is Some && i == 10 && clone_args(pr, path, reference)[i]
                == "--reference-if-able="@ + reference->0,
{
    let options = clone_args(pr, path, reference).skip(5);
    assert(options[0] == "--bare"@);
    assert(options[3] == "--single-branch"@);
    assert(options[4] == "--branch="@ + pr.base_ref_name);
    if let Some(repository) = reference {
        assert(options[5] == "--reference-if-able="@ + repository);
    }
    let args = clone_args(pr, path, reference);
    let plain = clone_args(pr, path, None);
    law_borrowing_adds_one_option(pr, path, reference.unwrap_or(Seq::empty()));
    assert forall|i: int| 0 <= i < plain.len() implies #[trigger] args[i] == plain[i] by {}
}

/// Reading the diff depends on the two commits, and on nothing else of the pull request.
pub proof fn law_the_diff_needs_the_commits_alone(
    pr: PullRequestView,
    other: PullRequestView,
    turn: DiffTurnView,
)
    requires
        pr.base_sha == other.base_sha,
        pr.head_sha == other.head_sha,
    ensures
        diff_outcome(pr, turn) == diff_outcome(other, turn),
{
}

impl TemporaryClone {
    /// Asks for the directory of a clone.
    pub fn ask_directory() -> (request: Request)
        ensures
            request@ == directory_request(),
    {
        Request::TemporaryDirectory("tuicr-pr-".to_string())
    }

    /// A clone in the directory that was made.
    pub fn new(made: Result<String, String>) -> (clone: Result<TemporaryClone, TuicrError>)
        ensures
            match clone {
                Ok(clone) => texts_view(made) == Ok::<Seq<char>, Seq<char>>(clone@),
                Err(error) => texts_view(made) matches Err(message) && error@ == directory_error(
                    message,
                ),
            },
    {
        match made {
            Ok(path) => Ok(TemporaryClone { path }),
            Err(message) => Err(TuicrError::Io(message)),
        }
    }

    /// The directory of the clone.
    pub fn path(&self) -> (path: &str)
        ensures
            path@ == self@,
    {
        self.path.as_str()
    }

    /// Asks `gh` to fill the clone.
    pub fn clone_from_github(
        &self,
        pr: &PullRequestDetails,
        reference_repo: Option<&str>,
    ) -> (request: Request)
        ensures
            request@ == RequestView::Gh(clone_args(pr@, self@, reference_repo.deep_view())),
            request matches Request::Gh(args) && args@.len() >= 10 && args@[2]@
                == pr.repository@ && args@[3]@ == self@ && args@[9]@ == "--branch="@
                + pr.base_ref_name@,
    {
        let branch = "--branch=".to_string().concat(pr.base_ref_name.as_str());
        let mut args: Vec<String> = owned_texts(
            &[
                "repo",
                "clone",
                pr.repository.as_str(),
                self.path.as_str(),
                "--",
                "--bare",
                "--filter=blob:none",
                "--no-tags",
                "--single-branch",
                branch.as_str(),
            ],
        );
        let ghost plain = args.deep_view();
        assert(plain =~= clone_args(pr@, self@, None));
        if let Some(repository) = reference_repo {
            args.push("--reference-if-able=".to_string().concat(repository));
            assert(args.deep_view() =~= plain.push("--reference-if-able="@ + repository@));
        }
        Request::Gh(args)
    }

    /// The error where `gh` could not fill the clone, given why.
    pub fn clone_failed(message: &str) -> (error: TuicrError)
        ensures
            error@ == clone_error(message@),
            error matches TuicrError::Forge(shown) && shown@
                == "Could not clone pull request repository: "@ + message@,
    {
        TuicrError::Forge("Could not clone pull request repository: ".to_string().concat(message))
    }

    /// Asks `git` to fetch the base branch and the head of the pull request.
    ///
    /// The forge shows the heads of pull requests from forks under `refs/pull`, so no branch
    /// of a similar name, in either repository, is trusted.
    pub fn fetch_pr_refs(&self, pr: &PullRequestDetails) -> (request: Request)
        ensures
            request@ == RequestView::CloneGit(fetch_args(pr@)),
            request matches Request::CloneGit(args) && args@.len() == 6 && args@[4]@
                == "+refs/heads/"@ + pr.base_ref_name@ + ":refs/tuicr/base"@ && args@[5]@
                == "+refs/pull/"@ + decimal(pr.number as nat) + "/head:refs/tuicr/head"@,
    {
        let base_ref = "+refs/heads/".to_string().concat(pr.base_ref_name.as_str()).concat(
            ":refs/tuicr/base",
        );
        let head_ref = "+refs/pull/".to_string().concat(decimal_text(pr.number).as_str()).concat(
            "/head:refs/tuicr/head",
        );
        let args: Vec<String> = owned_texts(
            &["fetch", "--quiet", "--no-tags", "origin", base_ref.as_str(), head_ref.as_str()],
        );
        assert(args.deep_view() =~= fetch_args(pr@));
        assert(args@[4]@ == args.deep_view()[4] && args@[5]@ == args.deep_view()[5]);
        Request::CloneGit(args)
    }

    /// What a `git` command in the clone brought, with a failure turned into an error.
    pub fn git(result: Result<String, CommandOutputError>) -> (outcome: Result<String, TuicrError>)
        ensures
            outcome_view(outcome) == match git_view(result) {
                Ok(text) => Ok::<Seq<char>, TuicrErrorView>(text),
                Err(failure) => Err(git_error(failure)),
            },
    {
        match result {
            Ok(text) => Ok(text),
            Err(error) => Err(map_git_error(error)),
        }
    }

    /// Reads the diff from the clone.
    ///
    /// The forge shows the changes from the merge base to the head. External diff programs
    /// and text conversion are off, so that the local configuration neither changes the
    /// output nor runs a program on the files of an untrusted pull request.
    pub fn diff(&self, pr: &PullRequestDetails, turn: DiffTurn) -> (outcome: DiffOutcome)
        ensures
            outcome@ == diff_outcome(pr@, turn@),
            turn matches DiffTurn::Answer(DiffStep::Diff, Ok(text)) ==> (outcome
                matches DiffOutcome::Done(Ok(diff)) && diff@ == text@),
    {
        let (step, result) = match turn {
            DiffTurn::Begin => {
                return DiffOutcome::Ask(
                    DiffStep::BaseCommit,
                    Request::CloneGit(
                        owned_texts(
                            &["cat-file", "-e", commit_text(pr.base_sha.as_str()).as_str()],
                        ),
                    ),
                );
            },
            DiffTurn::Answer(step, result) => (step, result),
        };
        let text = match Self::git(result) {
            Ok(text) => text,
            Err(error) => {
                return DiffOutcome::Done(Err(error));
            },
        };
        match step {
            DiffStep::BaseCommit => DiffOutcome::Ask(
                DiffStep::HeadCommit,
                Request::CloneGit(
                    owned_texts(
                        &["cat-file", "-e", commit_text(pr.head_sha.as_str()).as_str()],
                    ),
                ),
            ),
            DiffStep::HeadCommit => DiffOutcome::Ask(
                DiffStep::MergeBase,
                Request::CloneGit(
                    owned_texts(&["merge-base", pr.base_sha.as_str(), pr.head_sha.as_str()]),
                ),
            ),
            DiffStep::MergeBase => DiffOutcome::Ask(
                DiffStep::Diff,
                Request::CloneGit(
                    owned_texts(
                        &[
                            "diff",
                            "--no-ext-diff",
                            "--no-textconv",
                            "--find-renames",
                            trim(text.as_str()),
                            pr.head_sha.as_str(),
                        ],
                    ),
                ),
            ),
            DiffStep::Diff => DiffOutcome::Done(Ok(text)),
        }
    }
}

/// The clone is of the repository of the pull request, into the directory that was given,
/// and of its base branch: each stands in its place, whole, in a command of ten arguments,
/// or eleven where a repository is borrowed from.
pub proof fn law_the_clone_is_of_the_pull_request(
    pr: PullRequestView,
    path: Seq<char>,
    reference: Option<Seq<char>>,
)
    ensures
        clone_args(pr, path, reference).len() == if reference is Some {
            11int
        } else {
            10int
        },
        clone_args(pr, path, reference)[0] == "repo"@,
        clone_args(pr, path, reference)[1] == "clone"@,
        clone_args(pr, path, reference)[2] == pr.repository,
        clone_args(pr, path, reference)[3] == path,
        clone_args(pr, path, reference)[4] == "--"@,
        clone_args(pr, path, reference)[5] == "--bare"@,
        clone_args(pr, path, reference)[6] == "--filter=blob:none"@,
        clone_args(pr, path, reference)[7] == "--no-tags"@,
        clone_args(pr, path, reference)[8] == "--single-branch"@,
        clone_args(pr, path, reference)[9] == "--branch="@ + pr.base_ref_name,
        reference matches Some(repository) ==> clone_args(pr, path, reference)[10]
            == "--reference-if-able="@ + repository,
{
}

/// Equal clone commands are for the same repository, directory, base branch and repository
/// to borrow from.
pub proof fn law_clone_commands_are_unambiguous(
    pr: PullRequestView,
    path: Seq<char>,
    reference: Option<Seq<char>>,
    other: PullRequestView,
    other_path: Seq<char>,
    other_reference: Option<Seq<char>>,
)
    requires
        clone_args(pr, path, reference) == clone_args(other, other_path, other_reference),
    ensures
        pr.repository == other.repository,
        pr.base_ref_name == other.base_ref_name,
        path == other_path,
        reference == other_reference,
{
    law_the_clone_is_of_the_pull_request(pr, path, reference);
    law_the_clone_is_of_the_pull_request(other, other_path, other_reference);
    lemma_same_behind("--branch="@, pr.base_ref_name, other.base_ref_name);
    if reference is Some {
        lemma_same_behind("--reference-if-able="@, reference->0, other_reference->0);
    }
}

/// What is fetched is the base branch by its name and the head by the number of the pull
/// request, each whole and each into a ref of its own.
pub proof fn law_the_fetch_is_of_the_pull_request(pr: PullRequestView)
    ensures
        fetch_args(pr).len() == 6,
        fetch_args(pr)[0] == "fetch"@,
        fetch_args(pr)[1] == "--quiet"@,
        fetch_args(pr)[2] == "--no-tags"@,
        fetch_args(pr)[3] == "origin"@,
        fetch_args(pr)[4] == "+refs/heads/"@ + pr.base_ref_name + ":refs/tuicr/base"@,
        fetch_args(pr)[5] == "+refs/pull/"@ + decimal(pr.number) + "/head:refs/tuicr/head"@,
{
}

/// Equal fetch commands are for the same number and the same base branch.
pub proof fn law_fetch_commands_are_unambiguous(pr: PullRequestView, other: PullRequestView)
    requires
        fetch_args(pr) == fetch_args(other),
    ensures
        pr.number == other.number,
        pr.base_ref_name == other.base_ref_name,
{
    law_the_fetch_is_of_the_pull_request(pr);
    law_the_fetch_is_of_the_pull_request(other);
    lemma_same_between(
        "+refs/heads/"@,
        pr.base_ref_name,
        other.base_ref_name,
        ":refs/tuicr/base"@,
    );
    lemma_same_between(
        "+refs/pull/"@,
        decimal(pr.number),
        decimal(other.number),
        "/head:refs/tuicr/head"@,
    );
    law_decimal_is_unambiguous(pr.number, other.number);
}

/// Reading the diff from the clone hands on what `git` wrote, whole and untouched, whatever
/// its length.
pub proof fn law_the_diff_in_the_clone_is_whole(pr: PullRequestView, diff: Seq<char>)
    ensures
        diff_outcome(pr, DiffTurnView::Answer(DiffStep::Diff, Ok(diff))) == DiffOutcomeView::Done(
            Ok(diff),
        ),
{
}

/// Both commits must be in the clone. Then the merge base is asked for, and the comparison is
/// from the merge base that `git` named, between white space, to the head commit. A failure
/// at any step is the error.
pub proof fn law_the_diff_in_the_clone_is_from_merge_base_to_head(
    pr: PullRequestView,
    written: Seq<char>,
    step: DiffStep,
    failure: CommandFailure,
)
    ensures
        diff_outcome(pr, DiffTurnView::Begin) == DiffOutcomeView::Ask(
            DiffStep::BaseCommit,
            RequestView::CloneGit(seq!["cat-file"@, "-e"@, pr.base_sha + "^{commit}"@]),
        ),
        diff_outcome(pr, DiffTurnView::Answer(DiffStep::BaseCommit, Ok(written)))
            == DiffOutcomeView::Ask(
            DiffStep::HeadCommit,
            RequestView::CloneGit(seq!["cat-file"@, "-e"@, pr.head_sha + "^{commit}"@]),
        ),
        diff_outcome(pr, DiffTurnView::Answer(DiffStep::HeadCommit, Ok(written)))
            == DiffOutcomeView::Ask(
            DiffStep::MergeBase,
            RequestView::CloneGit(seq!["merge-base"@, pr.base_sha, pr.head_sha]),
        ),
        diff_outcome(pr, DiffTurnView::Answer(DiffStep::MergeBase, Ok(written)))
            == DiffOutcomeView::Ask(
            DiffStep::Diff,
            RequestView::CloneGit(
                seq![
                    "diff"@,
                    "--no-ext-diff"@,
                    "--no-textconv"@,
                    "--find-renames"@,
                    trimmed(written),
                    pr.head_sha,
                ],
            ),
        ),
        diff_outcome(pr, DiffTurnView::Answer(step, Err(failure))) == DiffOutcomeView::Done(
            Err(git_error(failure)),
        ),
{
}

/// The directory has a name of its own kind. Where it cannot be made the error is the message,
/// and where the clone fails the error says so and then the message, whole.
pub proof fn law_clone_troubles(message: Seq<char>)
    ensures
        directory_request() == RequestView::TemporaryDirectory("tuicr-pr-"@),
        directory_error(message) == TuicrErrorView::Io(message),
        clone_error(message) == TuicrErrorView::Forge(
            "Could not clone pull request repository: "@ + message,
        ),
{
}

/// The view of a turn holds the step and what came back.
pub proof fn law_diff_turns_are_seen_as_they_are(turn: DiffTurn, outcome: DiffOutcome)
    ensures
        turn is Begin ==> turn@ == DiffTurnView::Begin,
        turn matches DiffTurn::Answer(step, Ok(text)) ==> turn@ == DiffTurnView::Answer(
            step,
            Ok(text@),
        ),
        turn matches DiffTurn::Answer(step, Err(error)) ==> turn@ == DiffTurnView::Answer(
            step,
            Err(CommandFailure { status: error.status, stderr: error.stderr@ }),
        ),
        outcome matches DiffOutcome::Ask(step, request) ==> outcome@ == DiffOutcomeView::Ask(
            step,
            request@,
        ),
        outcome matches DiffOutcome::Done(Ok(text)) ==> outcome@ == DiffOutcomeView::Done(
            Ok(text@),
        ),
        outcome matches DiffOutcome::Done(Err(error)) ==> outcome@ == DiffOutcomeView::Done(
            Err(error@),
        ),
{
}

} // verus!
