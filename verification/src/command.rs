//! The outside work that building a diff asks for, and what comes back from it.
use crate::text::{signed_decimal, signed_decimal_text};
use vstd::prelude::*;

verus! {

/// A command that could not be started or that failed.
#[derive(Debug, PartialEq, Eq)]
pub struct CommandOutputError {
    /// The exit status, where the command ran and gave one.
    pub status: Option<i32>,
    /// What the command wrote to its error stream.
    pub stderr: String,
}

/// `CommandOutputError` with its text as characters.
#[verifier::ext_equal]
pub struct CommandFailure {
    pub status: Option<i32>,
    pub stderr: Seq<char>,
}

impl View for CommandOutputError {
    type V = CommandFailure;

    open spec fn view(&self) -> CommandFailure {
        CommandFailure { status: self.status, stderr: self.stderr@ }
    }
}

/// Why a diff could not be built.
#[derive(Debug, PartialEq, Eq)]
pub enum TuicrError {
    /// The file system refused an operation.
    Io(String),
    /// The forge, or `git` on its behalf, failed.
    Forge(String),
}

/// `TuicrError` with its text as characters.
#[verifier::ext_equal]
pub enum TuicrErrorView {
    Io(Seq<char>),
    Forge(Seq<char>),
}

impl View for TuicrError {
    type V = TuicrErrorView;

    open spec fn view(&self) -> TuicrErrorView {
        match self {
            TuicrError::Io(message) => TuicrErrorView::Io(message@),
            TuicrError::Forge(message) => TuicrErrorView::Forge(message@),
        }
    }
}

/// The text that a result holds, or the view of its error.
pub open spec fn outcome_view(outcome: Result<String, TuicrError>) -> Result<
    Seq<char>,
    TuicrErrorView,
> {
    match outcome {
        Ok(text) => Ok(text@),
        Err(error) => Err(error@),
    }
}

/// A piece of work for the program around the library.
#[derive(Debug, PartialEq, Eq)]
pub enum Request {
    /// Run `git` with these arguments in the local checkout.
    LocalGit(Vec<String>),
    /// Resolve this path, and the path of the local checkout, to their canonical forms.
    Canonicalize(String),
    /// Make a temporary directory whose name starts with this prefix.
    TemporaryDirectory(String),
    /// Run `gh` with these arguments.
    Gh(Vec<String>),
    /// Run `git` with these arguments in the temporary directory.
    CloneGit(Vec<String>),
}

/// `Request` with each text as its characters.
#[verifier::ext_equal]
pub enum RequestView {
    LocalGit(Seq<Seq<char>>),
    Canonicalize(Seq<char>),
    TemporaryDirectory(Seq<char>),
    Gh(Seq<Seq<char>>),
    CloneGit(Seq<Seq<char>>),
}

impl View for Request {
    type V = RequestView;

    open spec fn view(&self) -> RequestView {
        match self {
            Request::LocalGit(args) => RequestView::LocalGit(args.deep_view()),
            Request::Canonicalize(path) => RequestView::Canonicalize(path@),
            Request::TemporaryDirectory(prefix) => RequestView::TemporaryDirectory(prefix@),
            Request::Gh(args) => RequestView::Gh(args.deep_view()),
            Request::CloneGit(args) => RequestView::CloneGit(args.deep_view()),
        }
    }
}

/// What came back from a piece of work.
#[derive(Debug, PartialEq, Eq)]
pub enum Reply {
    /// What `git` wrote, or how it failed.
    Git(Result<String, CommandOutputError>),
    /// The canonical forms of the path and of the local checkout, as bytes, where they exist.
    Canonical { path: Option<Vec<u8>>, checkout: Option<Vec<u8>> },
    /// The path of the new directory, or why there is none.
    Directory(Result<String, String>),
    /// What `gh` wrote, or why it failed.
    Gh(Result<String, String>),
}

/// `Reply` with each text as its characters.
#[verifier::ext_equal]
pub enum ReplyView {
    Git(Result<Seq<char>, CommandFailure>),
    Canonical { path: Option<Seq<u8>>, checkout: Option<Seq<u8>> },
    Directory(Result<Seq<char>, Seq<char>>),
    Gh(Result<Seq<char>, Seq<char>>),
}

/// The characters of what `git` wrote, or the view of its failure.
pub open spec fn git_view(result: Result<String, CommandOutputError>) -> Result<
    Seq<char>,
    CommandFailure,
> {
    match result {
        Ok(text) => Ok(text@),
        Err(error) => Err(error@),
    }
}

/// The characters of either side of a result.
pub open spec fn texts_view(result: Result<String, String>) -> Result<Seq<char>, Seq<char>> {
    match result {
        Ok(text) => Ok(text@),
        Err(message) => Err(message@),
    }
}

impl View for Reply {
    type V = ReplyView;

    open spec fn view(&self) -> ReplyView {
        match self {
            Reply::Git(result) => ReplyView::Git(git_view(*result)),
            Reply::Canonical { path, checkout } => ReplyView::Canonical {
                path: path.deep_view(),
                checkout: checkout.deep_view(),
            },
            Reply::Directory(result) => ReplyView::Directory(texts_view(*result)),
            Reply::Gh(result) => ReplyView::Gh(texts_view(*result)),
        }
    }
}

/// Whether a reply is of the kind that a request asks for.
pub open spec fn answers(reply: ReplyView, request: RequestView) -> bool {
    match request {
        RequestView::LocalGit(_) | RequestView::CloneGit(_) => reply is Git,
        RequestView::Canonicalize(_) => reply is Canonical,
        RequestView::TemporaryDirectory(_) => reply is Directory,
        RequestView::Gh(_) => reply is Gh,
    }
}

/// How a failed `git` command is described: by what it wrote to its error stream, else by
/// its exit status, else by the bare fact.
pub open spec fn failure_detail(failure: CommandFailure) -> Seq<char> {
    if failure.stderr.len() > 0 {
        failure.stderr
    } else {
        match failure.status {
            Some(status) => "git exited with status "@ + signed_decimal(status as int),
            None => "git command failed"@,
        }
    }
}

/// The error that a failed `git` command in the temporary clone leads to.
pub open spec fn git_error(failure: CommandFailure) -> TuicrErrorView {
    TuicrErrorView::Forge(
        "Could not build pull request diff from temporary clone: "@ + failure_detail(failure),
    )
}

/// Turns a failed `git` command in the temporary clone into an error.
pub fn map_git_error(error: CommandOutputError) -> (mapped: TuicrError)
    ensures
        mapped@ == git_error(error@),
        error.stderr@.len() > 0 ==> (mapped matches TuicrError::Forge(message) && message@
            == "Could not build pull request diff from temporary clone: "@ + error.stderr@),
{
    let detail = if error.stderr.as_str().is_empty() {
        match error.status {
            Some(status) => "git exited with status ".to_string().concat(
                signed_decimal_text(status).as_str(),
            ),
            None => "git command failed".to_string(),
        }
    } else {
        error.stderr
    };
    TuicrError::Forge(
        "Could not build pull request diff from temporary clone: ".to_string().concat(
            detail.as_str(),
        ),
    )
}

/// The view of a request tells its kind and holds its texts.
pub proof fn law_requests_are_seen_as_they_are(request: Request)
    ensures
        request matches Request::LocalGit(args) ==> request@ == RequestView::LocalGit(
            args.deep_view(),
        ),
        request matches Request::Canonicalize(path) ==> request@ == RequestView::Canonicalize(
            path@,
        ),
        request matches Request::TemporaryDirectory(prefix) ==> request@
            == RequestView::TemporaryDirectory(prefix@),
        request matches Request::Gh(args) ==> request@ == RequestView::Gh(args.deep_view()),
        request matches Request::CloneGit(args) ==> request@ == RequestView::CloneGit(
            args.deep_view(),
        ),
{
}

/// The view of a reply tells its kind and holds what came back, whole.
pub proof fn law_replies_are_seen_as_they_are(reply: Reply)
    ensures
        reply matches Reply::Git(Ok(text)) ==> reply@ == ReplyView::Git(Ok(text@)),
        reply matches Reply::Git(Err(error)) ==> reply@ == ReplyView::Git(
            Err(CommandFailure { status: error.status, stderr: error.stderr@ }),
        ),
        reply matches Reply::Canonical { path, checkout } ==> reply@ == (ReplyView::Canonical {
            path: path.deep_view(),
            checkout: checkout.deep_view(),
        }),
        reply matches Reply::Directory(Ok(path)) ==> reply@ == ReplyView::Directory(Ok(path@)),
        reply matches Reply::Directory(Err(message)) ==> reply@ == ReplyView::Directory(
            Err(message@),
        ),
        reply matches Reply::Gh(Ok(text)) ==> reply@ == ReplyView::Gh(Ok(text@)),
        reply matches Reply::Gh(Err(message)) ==> reply@ == ReplyView::Gh(Err(message@)),
{
}

/// The view of an outcome is the diff, whole, or the error with its kind and message.
pub proof fn law_outcomes_are_seen_as_they_are(outcome: Result<String, TuicrError>)
    ensures
        outcome matches Ok(text) ==> outcome_view(outcome) == Ok::<Seq<char>, TuicrErrorView>(
            text@,
        ),
        outcome matches Err(TuicrError::Io(message)) ==> outcome_view(outcome) == Err::<
            Seq<char>,
            TuicrErrorView,
        >(TuicrErrorView::Io(message@)),
        outcome matches Err(TuicrError::Forge(message)) ==> outcome_view(outcome) == Err::<
            Seq<char>,
            TuicrErrorView,
        >(TuicrErrorView::Forge(message@)),
{
}

/// The error of a `git` command says where it failed and then the most that is known: what
/// the command wrote, whole; else its exit status, whole; else that it failed.
pub proof fn law_git_errors_tell_the_most_that_is_known(failure: CommandFailure)
    ensures
        failure.stderr.len() > 0 ==> git_error(failure) == TuicrErrorView::Forge(
            "Could not build pull request diff from temporary clone: "@ + failure.stderr,
        ),
        failure.stderr.len() == 0 ==> (failure.status matches Some(status) ==> git_error(failure)
            == TuicrErrorView::Forge(
            "Could not build pull request diff from temporary clone: "@
                + "git exited with status "@ + signed_decimal(status as int),
        )),
        failure.stderr.len() == 0 && failure.status is None ==> git_error(failure)
            == TuicrErrorView::Forge(
            "Could not build pull request diff from temporary clone: "@ + "git command failed"@,
        ),
{
    if let Some(status) = failure.status {
        let front = "Could not build pull request diff from temporary clone: "@;
        let middle = "git exited with status "@;
        let shown = signed_decimal(status as int);
        assert(front + (middle + shown) =~= front + middle + shown);
    }
}

/// Each request is answered by the replies of one kind, whatever they hold.
pub proof fn law_requests_have_their_kind_of_reply(reply: ReplyView, args: Seq<Seq<char>>)
    ensures
        answers(reply, RequestView::LocalGit(args)) <==> reply is Git,
        answers(reply, RequestView::CloneGit(args)) <==> reply is Git,
        answers(reply, RequestView::Gh(args)) <==> reply is Gh,
        forall|path: Seq<char>|
            #[trigger] answers(reply, RequestView::Canonicalize(path)) <==> reply is Canonical,
        forall|prefix: Seq<char>|
            #[trigger] answers(reply, RequestView::TemporaryDirectory(prefix)) <==> reply
                is Directory,
{
}

} // verus!
