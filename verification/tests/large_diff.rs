//! Runs the library against a forge and checkouts that live in memory.
use tuicr::command::{map_git_error, CommandOutputError, Reply, Request, TuicrError};
use tuicr::large_diff::{fetch_large_diff, Progress, Step, Turn};
use tuicr::local_checkout::{
    diff_from_current_pr_branch, local_common_git_dir, LocalOutcome, LocalStep, LocalTurn,
};
use tuicr::pull_request::PullRequestDetails;
use tuicr::temporary_clone::{DiffStep, DiffTurn, TemporaryClone};

const MERGE_BASE: &str = "1111111111111111111111111111111111111111";
const ADVANCED_BASE: &str = "2222222222222222222222222222222222222222";
const HEAD: &str = "3333333333333333333333333333333333333333";
const LOCAL_HEAD: &str = "4444444444444444444444444444444444444444";
const CLONE_PATH: &str = "/tmp/tuicr-pr-abc123";

/// A pull request with so many files, over a base branch that may have advanced.
struct Fixture {
    file_count: usize,
    base_advanced: bool,
}

impl Fixture {
    fn new(file_count: usize) -> Self {
        Fixture { file_count, base_advanced: false }
    }

    fn advance_base(&mut self) {
        self.base_advanced = true;
    }

    fn base_sha(&self) -> &'static str {
        if self.base_advanced {
            ADVANCED_BASE
        } else {
            MERGE_BASE
        }
    }

    fn details(&self) -> PullRequestDetails {
        PullRequestDetails {
            repository: "agavra/tuicr".to_string(),
            number: 125,
            base_ref_name: "main".to_string(),
            head_ref_name: "large-pr".to_string(),
            base_sha: self.base_sha().to_string(),
            head_sha: HEAD.to_string(),
        }
    }

    /// The patch between two commits, or to the working files where `to` is missing.
    fn patch(&self, from: &str, to: Option<&str>) -> String {
        let mut patch = String::new();
        if from == ADVANCED_BASE {
            patch.push_str("diff --git a/base-only.txt b/base-only.txt\n-base advanced\n");
        }
        if from != HEAD {
            for index in 0..self.file_count {
                patch.push_str(&format!(
                    "diff --git a/src/file-{index:03}.rs b/src/file-{index:03}.rs\n+pub const VALUE: usize = {index};\n"
                ));
            }
        }
        if to == Some(LOCAL_HEAD) {
            patch.push_str("diff --git a/local-only.txt b/local-only.txt\n+new local commit\n");
        }
        if to.is_none() {
            patch.push_str("diff --git a/README.md b/README.md\n+staged checkout\n");
            patch.push_str("diff --git a/untracked.txt b/untracked.txt\n+untracked\n");
        }
        patch
    }
}

/// A local checkout.
struct Checkout {
    root: String,
    top_level: String,
    git_dir: String,
    branch: Option<&'static str>,
    head: &'static str,
    has_base: bool,
    head_replaced_by_base: bool,
    external_diff: bool,
}

impl Checkout {
    fn on_main() -> Self {
        Checkout {
            root: "/work/repo".to_string(),
            top_level: "/work/repo".to_string(),
            git_dir: "/work/repo/.git".to_string(),
            branch: Some("main"),
            head: MERGE_BASE,
            has_base: true,
            head_replaced_by_base: false,
            external_diff: false,
        }
    }

    fn on_pr_head() -> Self {
        let mut checkout = Checkout::on_main();
        checkout.branch = Some("large-pr");
        checkout.head = HEAD;
        checkout
    }
}

/// Resolves the one symbolic link that there is; nothing lies under `/gone`.
fn canonical(path: &str) -> Option<Vec<u8>> {
    if path.starts_with("/gone") {
        None
    } else if path == "/link" {
        Some(b"/work/repo".to_vec())
    } else {
        Some(path.as_bytes().to_vec())
    }
}

fn failed(status: i32, stderr: &str) -> CommandOutputError {
    CommandOutputError { status: Some(status), stderr: stderr.to_string() }
}

/// What a run has done beside its outcome.
struct Run {
    outcome: Result<String, TuicrError>,
    requests: Vec<Request>,
    diff_command_ran: bool,
}

impl Run {
    fn clone_args(&self) -> Option<Vec<String>> {
        for request in &self.requests {
            if let Request::Gh(args) = request {
                if args.first().map(String::as_str) == Some("repo")
                    && args.get(1).map(String::as_str) == Some("clone")
                {
                    return Some(args.clone());
                }
            }
        }
        None
    }

    fn used_temporary_clone(&self) -> bool {
        self.clone_args().is_some()
    }

    fn patch(&self) -> String {
        match &self.outcome {
            Ok(patch) => patch.clone(),
            Err(error) => panic!("no patch: {error:?}"),
        }
    }
}

/// `git` over the objects of the fixture.
fn git(
    fixture: &Fixture,
    checkout: Option<&Checkout>,
    args: &[String],
    diff_command_ran: &mut bool,
) -> Result<String, CommandOutputError> {
    let mut args: Vec<&str> = args.iter().map(String::as_str).collect();
    let mut replacing = checkout.map_or(false, |checkout| checkout.head_replaced_by_base);
    if args[0] == "--no-replace-objects" {
        replacing = false;
        args.remove(0);
    }
    let seen = |sha: &str| -> String {
        if replacing && sha == HEAD {
            MERGE_BASE.to_string()
        } else {
            sha.to_string()
        }
    };
    match (args[0], checkout) {
        ("rev-parse", Some(checkout)) => match &args[1..] {
            ["--show-toplevel"] => Ok(format!("{}\n", checkout.top_level)),
            ["--verify", "HEAD^{commit}"] => Ok(format!("{}\n", seen(checkout.head))),
            ["--path-format=absolute", "--git-common-dir"] => {
                Ok(format!("{}\n", checkout.git_dir))
            }
            _ => Err(failed(128, "fatal: bad revision")),
        },
        ("symbolic-ref", Some(checkout)) => {
            assert_eq!(&args[1..], ["--quiet", "--short", "HEAD"]);
            match checkout.branch {
                Some(branch) => Ok(format!("{branch}\n")),
                None => Err(failed(1, "")),
            }
        }
        ("fetch", None) => {
            assert_eq!(
                &args[1..],
                [
                    "--quiet",
                    "--no-tags",
                    "origin",
                    "+refs/heads/main:refs/tuicr/base",
                    "+refs/pull/125/head:refs/tuicr/head",
                ]
            );
            Ok(String::new())
        }
        ("cat-file", _) => {
            assert_eq!(args[1], "-e");
            let name = args[2].strip_suffix("^{commit}").unwrap();
            let has_base = checkout.map_or(true, |checkout| checkout.has_base);
            if name == HEAD || (has_base && name == fixture.base_sha()) {
                Ok(String::new())
            } else {
                Err(failed(128, "fatal: Not a valid object name"))
            }
        }
        ("merge-base", _) => {
            assert_eq!(&args[1..], [fixture.base_sha(), HEAD]);
            Ok(format!("{MERGE_BASE}\n"))
        }
        ("diff", checkout) => {
            let (options, names): (Vec<&str>, Vec<&str>) =
                args[1..].iter().partition(|arg| arg.starts_with("--"));
            assert!(options.contains(&"--find-renames"));
            if checkout.map_or(false, |checkout| checkout.external_diff)
                && !(options.contains(&"--no-ext-diff") && options.contains(&"--no-textconv"))
            {
                *diff_command_ran = true;
                return Err(failed(1, "external diff died"));
            }
            let from = seen(names[0]);
            let to = names.get(1).map(|name| seen(name));
            if to.as_deref() == Some(MERGE_BASE) {
                return Ok(String::new());
            }
            Ok(fixture.patch(&from, to.as_deref()))
        }
        _ => Err(failed(1, "unexpected command")),
    }
}

fn run(fixture: &Fixture, checkout: Option<&Checkout>) -> Run {
    run_pull_request(fixture, &fixture.details(), checkout)
}

fn run_pull_request(
    fixture: &Fixture,
    pr: &PullRequestDetails,
    checkout: Option<&Checkout>,
) -> Run {
    let mut requests = Vec::new();
    let mut diff_command_ran = false;
    let mut turn = Turn::Begin { local_checkout: checkout.is_some() };
    loop {
        let (progress, request) = match fetch_large_diff(pr, turn) {
            Step::Ask(progress, request) => (progress, request),
            Step::Done(outcome) => return Run { outcome, requests, diff_command_ran },
        };
        let reply = match &request {
            Request::LocalGit(args) => {
                assert!(checkout.is_some());
                Reply::Git(git(fixture, checkout, args, &mut diff_command_ran))
            }
            Request::Canonicalize(path) => Reply::Canonical {
                path: canonical(path),
                checkout: canonical(&checkout.unwrap().root),
            },
            Request::TemporaryDirectory(prefix) => {
                assert_eq!(prefix, "tuicr-pr-");
                Reply::Directory(Ok(CLONE_PATH.to_string()))
            }
            Request::Gh(args) => {
                assert_eq!(args[3], CLONE_PATH);
                Reply::Gh(Ok(String::new()))
            }
            Request::CloneGit(args) => {
                Reply::Git(git(fixture, None, args, &mut diff_command_ran))
            }
        };
        requests.push(request);
        turn = Turn::Answer(progress, reply);
    }
}

#[test]
fn opens_prs_over_300_files_from_an_isolated_partial_clone() {
    let fixture = Fixture::new(301);

    let run = run(&fixture, None);

    let patch = run.patch();
    let files: Vec<&str> = patch
        .lines()
        .filter_map(|line| line.strip_prefix("diff --git a/"))
        .map(|line| line.split(' ').next().unwrap())
        .collect();
    assert_eq!(files.len(), 301);
    assert_eq!(*files.last().unwrap(), "src/file-300.rs");
    assert!(run.used_temporary_clone());
}

#[test]
fn diffs_from_merge_base_when_the_base_branch_has_advanced() {
    let mut fixture = Fixture::new(1);
    fixture.advance_base();

    let patch = run(&fixture, None).patch();

    assert!(patch.contains("src/file-000.rs"));
    assert!(!patch.contains("base-only.txt"));
}

#[test]
fn uses_the_current_checkout_when_branch_and_head_match_the_pr() {
    let fixture = Fixture::new(1);
    let checkout = Checkout::on_pr_head();

    let run = run(&fixture, Some(&checkout));

    assert!(run.patch().contains("src/file-000.rs"));
    assert!(!run.used_temporary_clone());
}

#[test]
fn local_diff_uses_merge_base_when_the_base_branch_has_advanced() {
    let mut fixture = Fixture::new(1);
    fixture.advance_base();
    let checkout = Checkout::on_pr_head();

    let run = run(&fixture, Some(&checkout));

    assert!(run.patch().contains("src/file-000.rs"));
    assert!(!run.patch().contains("base-only.txt"));
    assert!(!run.used_temporary_clone());
}

#[test]
fn rejects_a_matching_branch_when_head_has_advanced_locally() {
    let fixture = Fixture::new(1);
    let mut checkout = Checkout::on_pr_head();
    checkout.head = LOCAL_HEAD;

    let run = run(&fixture, Some(&checkout));

    assert!(run.patch().contains("src/file-000.rs"));
    assert!(!run.patch().contains("local-only.txt"));
    assert!(run.used_temporary_clone());
}

#[test]
fn dirty_files_do_not_enter_the_local_pr_diff() {
    let fixture = Fixture::new(1);
    let checkout = Checkout::on_pr_head();

    let run = run(&fixture, Some(&checkout));

    assert!(!run.patch().contains("staged checkout"));
    assert!(!run.patch().contains("untracked.txt"));
    assert!(!run.used_temporary_clone());
}

#[test]
fn local_diff_ignores_replace_objects() {
    let fixture = Fixture::new(1);
    let mut checkout = Checkout::on_pr_head();
    checkout.head_replaced_by_base = true;

    let run = run(&fixture, Some(&checkout));

    assert!(run.patch().contains("src/file-000.rs"));
    assert!(!run.used_temporary_clone());
}

#[test]
fn local_diff_does_not_run_external_diff_or_textconv_commands() {
    let fixture = Fixture::new(1);
    let mut checkout = Checkout::on_pr_head();
    checkout.external_diff = true;

    let run = run(&fixture, Some(&checkout));

    assert!(run.patch().contains("src/file-000.rs"));
    assert!(!run.diff_command_ran);
    assert!(!run.used_temporary_clone());
}

#[test]
fn detached_head_uses_the_isolated_fallback() {
    let fixture = Fixture::new(1);
    let mut checkout = Checkout::on_pr_head();
    checkout.branch = None;

    let run = run(&fixture, Some(&checkout));

    assert!(run.outcome.is_ok());
    assert!(run.used_temporary_clone());
}

#[test]
fn shallow_checkout_without_the_base_uses_the_isolated_fallback() {
    let fixture = Fixture::new(1);
    let mut shallow = Checkout::on_pr_head();
    shallow.has_base = false;

    let run = run(&fixture, Some(&shallow));

    assert!(run.outcome.is_ok());
    assert!(run.used_temporary_clone());
}

#[test]
fn exact_pr_branch_in_a_linked_worktree_uses_local_objects() {
    let fixture = Fixture::new(1);
    let mut worktree = Checkout::on_pr_head();
    worktree.root = "/work/linked/checkout".to_string();
    worktree.top_level = "/work/linked/checkout".to_string();

    let run = run(&fixture, Some(&worktree));

    assert!(run.patch().contains("src/file-000.rs"));
    assert!(!run.used_temporary_clone());
    assert_eq!(
        local_common_git_dir(Ok(format!("{}\n", worktree.git_dir))).unwrap(),
        "/work/repo/.git"
    );
}

#[test]
fn temporary_clone_borrows_objects_from_a_matching_checkout() {
    let fixture = Fixture::new(1);
    let checkout = Checkout::on_main();

    let run = run(&fixture, Some(&checkout));

    assert!(run.outcome.is_ok());
    let reference_arg = format!("--reference-if-able={}", checkout.git_dir);
    let clone_args = run.clone_args().unwrap();
    assert!(clone_args.contains(&reference_arg));
    assert!(clone_args.contains(&"--single-branch".to_string()));
    assert!(clone_args.contains(&"--branch=main".to_string()));
}

#[test]
fn temporary_clone_without_a_checkout_has_no_local_reference() {
    let fixture = Fixture::new(1);

    let run = run(&fixture, None);

    assert!(run.outcome.is_ok());
    assert!(run
        .clone_args()
        .unwrap()
        .iter()
        .all(|arg| !arg.starts_with("--reference")));
}

fn texts(list: &[&str]) -> Vec<String> {
    list.iter().map(|text| text.to_string()).collect()
}

#[test]
fn the_local_route_asks_its_questions_in_order() {
    let fixture = Fixture::new(1);
    let base_commit = format!("{MERGE_BASE}^{{commit}}");
    let head_commit = format!("{HEAD}^{{commit}}");

    let run = run(&fixture, Some(&Checkout::on_pr_head()));

    let flag = "--no-replace-objects";
    assert_eq!(
        run.requests,
        vec![
            Request::LocalGit(texts(&[flag, "rev-parse", "--show-toplevel"])),
            Request::Canonicalize("/work/repo".to_string()),
            Request::LocalGit(texts(&[flag, "symbolic-ref", "--quiet", "--short", "HEAD"])),
            Request::LocalGit(texts(&[flag, "rev-parse", "--verify", "HEAD^{commit}"])),
            Request::LocalGit(texts(&[flag, "cat-file", "-e", &base_commit])),
            Request::LocalGit(texts(&[flag, "cat-file", "-e", &head_commit])),
            Request::LocalGit(texts(&[flag, "merge-base", MERGE_BASE, HEAD])),
            Request::LocalGit(texts(&[
                flag,
                "diff",
                "--no-ext-diff",
                "--no-textconv",
                "--find-renames",
                MERGE_BASE,
                HEAD,
            ])),
        ]
    );
}

#[test]
fn the_route_through_the_clone_asks_its_questions_in_order() {
    let fixture = Fixture::new(1);
    let base_commit = format!("{MERGE_BASE}^{{commit}}");
    let head_commit = format!("{HEAD}^{{commit}}");

    let run = run(&fixture, None);

    assert_eq!(
        run.requests,
        vec![
            Request::TemporaryDirectory("tuicr-pr-".to_string()),
            Request::Gh(texts(&[
                "repo",
                "clone",
                "agavra/tuicr",
                CLONE_PATH,
                "--",
                "--bare",
                "--filter=blob:none",
                "--no-tags",
                "--single-branch",
                "--branch=main",
            ])),
            Request::CloneGit(texts(&[
                "fetch",
                "--quiet",
                "--no-tags",
                "origin",
                "+refs/heads/main:refs/tuicr/base",
                "+refs/pull/125/head:refs/tuicr/head",
            ])),
            Request::CloneGit(texts(&["cat-file", "-e", &base_commit])),
            Request::CloneGit(texts(&["cat-file", "-e", &head_commit])),
            Request::CloneGit(texts(&["merge-base", MERGE_BASE, HEAD])),
            Request::CloneGit(texts(&[
                "diff",
                "--no-ext-diff",
                "--no-textconv",
                "--find-renames",
                MERGE_BASE,
                HEAD,
            ])),
        ]
    );
}

#[test]
fn a_directory_inside_the_checkout_uses_the_fallback() {
    let fixture = Fixture::new(1);
    let mut checkout = Checkout::on_pr_head();
    checkout.root = "/work/repo/src".to_string();
    assert!(run(&fixture, Some(&checkout)).used_temporary_clone());
}

#[test]
fn a_link_to_the_checkout_is_the_checkout() {
    let fixture = Fixture::new(1);
    let mut checkout = Checkout::on_pr_head();
    checkout.root = "/link".to_string();
    assert!(!run(&fixture, Some(&checkout)).used_temporary_clone());
}

#[test]
fn directories_that_do_not_resolve_use_the_fallback() {
    let fixture = Fixture::new(1);
    let mut checkout = Checkout::on_pr_head();
    checkout.root = "/gone".to_string();
    checkout.top_level = "/gone".to_string();
    assert!(run(&fixture, Some(&checkout)).used_temporary_clone());
}

#[test]
fn another_branch_on_the_head_commit_uses_the_fallback() {
    let fixture = Fixture::new(1);
    let mut checkout = Checkout::on_pr_head();
    checkout.branch = Some("large-pr-2");
    assert!(run(&fixture, Some(&checkout)).used_temporary_clone());
}

#[test]
fn the_name_of_the_head_branch_has_no_part_in_the_clone() {
    let fixture = Fixture::new(1);
    let mut pr = fixture.details();
    pr.head_ref_name = "renamed".to_string();
    assert_eq!(
        run(&fixture, None).requests,
        run_pull_request(&fixture, &pr, None).requests
    );
}

#[test]
fn the_longest_run_ends_after_sixteen_replies() {
    let pr = Fixture::new(1).details();
    let mut turn = Turn::Begin { local_checkout: true };
    let mut replies = 0;
    loop {
        let (progress, request) = match fetch_large_diff(&pr, turn) {
            Step::Ask(progress, request) => (progress, request),
            Step::Done(outcome) => {
                assert_eq!(outcome, Ok("the diff\n".to_string()));
                break;
            }
        };
        replies += 1;
        let reply = match (&progress, &request) {
            (Progress::Local(LocalStep::Branch), _) => Reply::Git(Ok(" large-pr\n".to_string())),
            (Progress::Local(LocalStep::Head), _) => Reply::Git(Ok(format!("{HEAD}\r\n"))),
            (Progress::Local(LocalStep::Diff), _) => Reply::Git(Err(failed(128, "broken pack"))),
            (_, Request::LocalGit(_)) => Reply::Git(Ok("/work/repo\n".to_string())),
            (_, Request::Canonicalize(_)) => {
                Reply::Canonical { path: Some(vec![47]), checkout: Some(vec![47]) }
            }
            (_, Request::TemporaryDirectory(_)) => Reply::Directory(Ok("/tmp/d".to_string())),
            (_, Request::Gh(_)) => Reply::Gh(Ok("cloned".to_string())),
            (_, Request::CloneGit(_)) => Reply::Git(Ok("the diff\n".to_string())),
        };
        turn = Turn::Answer(progress, reply);
    }
    assert_eq!(replies, 16);
}

/// Replies with success until the request number `at`, which fails.
fn fail_at(at: usize, failure: Reply) -> TuicrError {
    let pr = Fixture::new(1).details();
    let mut failure = Some(failure);
    let mut turn = Turn::Begin { local_checkout: false };
    let mut asked = 0;
    loop {
        let (progress, request) = match fetch_large_diff(&pr, turn) {
            Step::Ask(progress, request) => (progress, request),
            Step::Done(outcome) => {
                assert_eq!(asked, at + 1);
                return outcome.unwrap_err();
            }
        };
        let reply = if asked == at {
            failure.take().unwrap()
        } else {
            match request {
                Request::TemporaryDirectory(_) => Reply::Directory(Ok("/tmp/d".to_string())),
                Request::Gh(_) => Reply::Gh(Ok(String::new())),
                _ => Reply::Git(Ok(String::new())),
            }
        };
        asked += 1;
        turn = Turn::Answer(progress, reply);
    }
}

#[test]
fn a_directory_that_cannot_be_made_is_an_io_error() {
    assert_eq!(
        fail_at(0, Reply::Directory(Err("no space left".to_string()))),
        TuicrError::Io("no space left".to_string())
    );
}

#[test]
fn a_clone_that_fails_is_a_forge_error() {
    assert_eq!(
        fail_at(1, Reply::Gh(Err("gh is not logged in".to_string()))),
        TuicrError::Forge(
            "Could not clone pull request repository: gh is not logged in".to_string()
        )
    );
}

#[test]
fn every_git_failure_in_the_clone_is_a_forge_error() {
    for at in 2..7 {
        assert_eq!(
            fail_at(at, Reply::Git(Err(failed(128, "fatal: no route")))),
            TuicrError::Forge(
                "Could not build pull request diff from temporary clone: fatal: no route"
                    .to_string()
            )
        );
    }
}

#[test]
fn git_errors_tell_the_most_that_is_known() {
    let front = "Could not build pull request diff from temporary clone: ";
    assert_eq!(
        map_git_error(failed(1, "fatal: bad object\n")),
        TuicrError::Forge(format!("{front}fatal: bad object\n"))
    );
    assert_eq!(
        map_git_error(failed(128, "")),
        TuicrError::Forge(format!("{front}git exited with status 128"))
    );
    assert_eq!(
        map_git_error(failed(-9, "")),
        TuicrError::Forge(format!("{front}git exited with status -9"))
    );
    assert_eq!(
        map_git_error(CommandOutputError { status: None, stderr: String::new() }),
        TuicrError::Forge(format!("{front}git command failed"))
    );
}

#[test]
fn the_object_store_is_trimmed_and_may_be_missing() {
    assert_eq!(
        local_common_git_dir(Ok(" /a b/.git\n".to_string())),
        Some("/a b/.git".to_string())
    );
    assert_eq!(local_common_git_dir(Ok("\n".to_string())), Some(String::new()));
    assert_eq!(local_common_git_dir(Err(failed(128, "fatal"))), None);
}

#[test]
fn a_checkout_without_an_object_store_leaves_the_reference_out() {
    let pr = Fixture::new(1).details();
    let reply = Reply::Git(Err(failed(128, "")));
    let step = fetch_large_diff(&pr, Turn::Answer(Progress::Reference, reply));
    assert_eq!(
        step,
        Step::Ask(
            Progress::Directory(None),
            Request::TemporaryDirectory("tuicr-pr-".to_string())
        )
    );
}

#[test]
fn the_local_diff_is_handed_on_untouched() {
    let pr = Fixture::new(1).details();
    let diff = Reply::Git(Ok("  diff --git a b\n\n".to_string()));
    assert_eq!(
        diff_from_current_pr_branch(&pr, LocalTurn::Answer(LocalStep::Diff, diff)),
        LocalOutcome::Diff("  diff --git a b\n\n".to_string())
    );
}

#[test]
fn the_merge_base_is_trimmed_before_it_is_compared_with() {
    let pr = Fixture::new(1).details();
    let base = Reply::Git(Ok("abc\n".to_string()));
    match diff_from_current_pr_branch(&pr, LocalTurn::Answer(LocalStep::MergeBase, base)) {
        LocalOutcome::Ask(LocalStep::Diff, Request::LocalGit(args)) => {
            assert_eq!(&args[args.len() - 2..], ["abc", HEAD]);
        }
        other => panic!("{other:?}"),
    }
}

#[test]
fn a_clone_knows_its_directory() {
    let clone = TemporaryClone::new(Ok(CLONE_PATH.to_string())).unwrap();
    assert_eq!(clone.path(), CLONE_PATH);
    assert_eq!(
        TemporaryClone::new(Err("denied".to_string())),
        Err(TuicrError::Io("denied".to_string()))
    );
}

#[test]
fn clone_options_stand_behind_the_separator() {
    let clone = TemporaryClone::new(Ok(CLONE_PATH.to_string())).unwrap();
    let mut pr = Fixture::new(1).details();
    pr.base_ref_name = "release/1.x".to_string();
    match clone.clone_from_github(&pr, Some("/work/repo/.git")) {
        Request::Gh(args) => {
            assert_eq!(args[4], "--");
            assert_eq!(args[9], "--branch=release/1.x");
            assert_eq!(args[10], "--reference-if-able=/work/repo/.git");
            assert_eq!(args.len(), 11);
        }
        other => panic!("{other:?}"),
    }
}

#[test]
fn borrowing_adds_one_argument_at_the_end() {
    let clone = TemporaryClone::new(Ok(CLONE_PATH.to_string())).unwrap();
    let pr = Fixture::new(1).details();
    let (mut plain, borrowing) = match (
        clone.clone_from_github(&pr, None),
        clone.clone_from_github(&pr, Some("/work/repo/.git")),
    ) {
        (Request::Gh(plain), Request::Gh(borrowing)) => (plain, borrowing),
        other => panic!("{other:?}"),
    };
    assert!(plain.iter().all(|arg| !arg.starts_with("--reference")));
    plain.push("--reference-if-able=/work/repo/.git".to_string());
    assert_eq!(plain, borrowing);
}

#[test]
fn replacements_and_configured_programs_change_nothing() {
    let fixture = Fixture::new(1);
    let plain = run(&fixture, Some(&Checkout::on_pr_head()));
    let mut checkout = Checkout::on_pr_head();
    checkout.head_replaced_by_base = true;
    checkout.external_diff = true;
    let other = run(&fixture, Some(&checkout));
    assert_eq!(plain.requests, other.requests);
    assert_eq!(plain.outcome, other.outcome);
}

#[test]
fn the_diff_in_the_clone_needs_the_commits_alone() {
    let clone = TemporaryClone::new(Ok(CLONE_PATH.to_string())).unwrap();
    let pr = Fixture::new(1).details();
    let mut other = Fixture::new(1).details();
    other.number = 7;
    other.repository = "somebody/else".to_string();
    other.base_ref_name = "release".to_string();
    other.head_ref_name = "renamed".to_string();
    for step in
        [DiffStep::BaseCommit, DiffStep::HeadCommit, DiffStep::MergeBase, DiffStep::Diff]
    {
        assert_eq!(
            clone.diff(&pr, DiffTurn::Answer(step, Ok("abc\n".to_string()))),
            clone.diff(&other, DiffTurn::Answer(step, Ok("abc\n".to_string())))
        );
    }
}
