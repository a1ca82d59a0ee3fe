//! The exact commands that building a diff rests on, and that it rests on nothing else.
use crate::command::{answers, ReplyView, RequestView};
use crate::large_diff::{fits, large_diff_step, ProgressView, StepView, TurnView};
use crate::local_checkout::{
    commit_name, common_git_dir, common_git_dir_request, diff_args, local_command,
    local_outcome, written, LocalOutcomeView, LocalStep, LocalTurnView,
};
use crate::pull_request::PullRequestView;
use crate::run::{advance, reached};
use crate::temporary_clone::{
    clone_args, diff_outcome, directory_request, fetch_args, DiffOutcomeView, DiffStep,
    DiffTurnView,
};
use crate::text::trimmed;
use vstd::prelude::*;

verus! {

/// The question for the top directory of the checkout.
pub open spec fn top_level_command() -> RequestView {
    local_command(seq!["rev-parse"@, "--show-toplevel"@])
}

/// The question for the merge base of the two commits, as arguments.
pub open spec fn merge_base_args(pr: PullRequestView) -> Seq<Seq<char>> {
    seq!["merge-base"@, pr.base_sha, pr.head_sha]
}

/// Whether a request is one of the commands of the attempt on the checkout that depend on the
/// pull request alone. Each of them looks past the replacements of objects and names nothing
/// but the checkout, what is checked out in it, and the two commits.
pub open spec fn is_checkout_command(pr: PullRequestView, request: RequestView) -> bool {
    ||| request == top_level_command()
    ||| request == local_command(seq!["symbolic-ref"@, "--quiet"@, "--short"@, "HEAD"@])
    ||| request == local_command(seq!["rev-parse"@, "--verify"@, "HEAD^{commit}"@])
    ||| request == local_command(seq!["cat-file"@, "-e"@, commit_name(pr.base_sha)])
    ||| request == local_command(seq!["cat-file"@, "-e"@, commit_name(pr.head_sha)])
    ||| request == local_command(merge_base_args(pr))
}

/// Whether a request is one of the commands that read the diff from the clone and depend on
/// the pull request alone.
pub open spec fn is_diff_command(pr: PullRequestView, request: RequestView) -> bool {
    ||| request == RequestView::CloneGit(seq!["cat-file"@, "-e"@, commit_name(pr.base_sha)])
    ||| request == RequestView::CloneGit(seq!["cat-file"@, "-e"@, commit_name(pr.head_sha)])
    ||| request == RequestView::CloneGit(merge_base_args(pr))
}

/// The outside of the library: the reply to the last of the requests made so far, which may
/// depend on all of them.
pub type World = spec_fn(Seq<RequestView>) -> ReplyView;

/// Whether a world gives each request a reply of its kind.
pub open spec fn answers_in_kind(world: World) -> bool {
    forall|asked: Seq<RequestView>|
        asked.len() > 0 ==> answers(#[trigger] world(asked), asked.last())
}

/// Whether `question` is the last of the requests made so far.
pub open spec fn just_asked(asked: Seq<RequestView>, question: RequestView) -> bool {
    asked.len() > 0 && asked.last() == question
}

/// The arguments of the comparison that follows the question for the merge base: from the
/// trimmed answer to it, to the head, with renames found and with external diff programs and
/// text conversion off.
pub open spec fn comparison_args(
    pr: PullRequestView,
    world: World,
    asked: Seq<RequestView>,
) -> Seq<Seq<char>> {
    diff_args(trimmed(written(world(asked))), pr.head_sha)
}

/// Whether `request` is one that is put to the local checkout for this pull request in this
/// world, after the requests in `asked`.
pub open spec fn put_to_checkout(
    pr: PullRequestView,
    world: World,
    asked: Seq<RequestView>,
    request: RequestView,
) -> bool {
    ||| is_checkout_command(pr, request)
    ||| just_asked(asked, top_level_command()) && request == RequestView::Canonicalize(
        trimmed(written(world(asked))),
    )
    ||| just_asked(asked, local_command(merge_base_args(pr))) && request == local_command(
        comparison_args(pr, world, asked),
    )
}

/// Whether `request` is one that reads the diff from the clone for this pull request in this
/// world, after the requests in `asked`.
pub open spec fn put_to_clone(
    pr: PullRequestView,
    world: World,
    asked: Seq<RequestView>,
    request: RequestView,
) -> bool {
    ||| is_diff_command(pr, request)
    ||| just_asked(asked, RequestView::CloneGit(merge_base_args(pr))) && request
        == RequestView::CloneGit(comparison_args(pr, world, asked))
}

/// The object store that the clone borrows from: the answer to the question for it, where
/// that was asked last.
pub open spec fn borrowed(world: World, asked: Seq<RequestView>) -> Option<Seq<char>> {
    if just_asked(asked, common_git_dir_request()) {
        common_git_dir(world(asked)->Git_0)
    } else {
        None
    }
}

/// Whether `request` is one that building the diff makes for this pull request in this
/// world, after the requests in `asked`.
pub open spec fn put_at_all(
    pr: PullRequestView,
    world: World,
    asked: Seq<RequestView>,
    request: RequestView,
) -> bool {
    ||| put_to_checkout(pr, world, asked, request)
    ||| request == common_git_dir_request()
    ||| request == directory_request()
    ||| just_asked(asked, directory_request()) && request == RequestView::Gh(
        clone_args(
            pr,
            world(asked)->Directory_0->Ok_0,
            borrowed(world, asked.drop_last()),
        ),
    )
    ||| request == RequestView::CloneGit(fetch_args(pr))
    ||| put_to_clone(pr, world, asked, request)
}

/// A class of requests: whether one belongs to it may depend on those made before.
pub type Class = spec_fn(Seq<RequestView>, RequestView) -> bool;

/// Whether every request belongs to the class, given those before it.
pub open spec fn all_in(asked: Seq<RequestView>, class: Class) -> bool {
    forall|i: int| 0 <= i < asked.len() ==> #[trigger] class(asked.take(i), asked[i])
}

/// Whether two worlds answer alike as long as nothing but the class is asked for.
pub open spec fn answer_alike(one: World, other: World, class: Class) -> bool {
    forall|asked: Seq<RequestView>| #[trigger] all_in(asked, class) ==> one(asked) == other(asked)
}

proof fn lemma_one_more(asked: Seq<RequestView>, request: RequestView, class: Class)
    requires
        all_in(asked, class),
        class(asked, request),
    ensures
        all_in(asked.push(request), class),
{
    let longer = asked.push(request);
    assert forall|i: int| 0 <= i < longer.len() implies #[trigger] class(
        longer.take(i),
        longer[i],
    ) by {
        if i < asked.len() {
            assert(longer.take(i) =~= asked.take(i));
            assert(class(asked.take(i), asked[i]));
        } else {
            assert(longer.take(i) =~= asked);
        }
    }
}

/// Every `git` command in the checkout looks past the replacements of objects. It is one of
/// a fixed list, or the comparison from the merge base that `git` just named to the head.
/// Every comparison, there and in the clone, keeps out external diff programs and text
/// conversion.
pub proof fn law_requests_are_isolated(pr: PullRequestView, turn: TurnView)
    requires
        turn matches TurnView::Answer(progress, reply) ==> fits(progress, reply),
    ensures
        large_diff_step(pr, turn) matches StepView::Ask(_, RequestView::LocalGit(args)) ==> {
            &&& args[0] == "--no-replace-objects"@
            &&& is_checkout_command(pr, RequestView::LocalGit(args)) || RequestView::LocalGit(args)
                == common_git_dir_request() || (turn matches TurnView::Answer(
                ProgressView::Local(LocalStep::MergeBase),
                reply,
            ) && args.skip(1) == diff_args(trimmed(written(reply)), pr.head_sha))
            &&& args[1] == "diff"@ ==> args[2] == "--no-ext-diff"@ && args[3] == "--no-textconv"@
        },
        large_diff_step(pr, turn) matches StepView::Ask(_, RequestView::CloneGit(args)) ==> {
            &&& args == fetch_args(pr) || is_diff_command(pr, RequestView::CloneGit(args)) || (
            turn matches TurnView::Answer(ProgressView::Diffing(_, DiffStep::MergeBase), reply)
                && args == diff_args(trimmed(written(reply)), pr.head_sha))
            &&& args[0] == "diff"@ ==> args[1] == "--no-ext-diff"@ && args[2] == "--no-textconv"@
        },
{
    reveal_strlit("rev-parse");
    reveal_strlit("symbolic-ref");
    reveal_strlit("cat-file");
    reveal_strlit("merge-base");
    reveal_strlit("fetch");
    reveal_strlit("diff");
    assert("rev-parse"@.len() == 9 && "symbolic-ref"@.len() == 12 && "cat-file"@.len() == 8);
    assert("merge-base"@.len() == 10 && "fetch"@.len() == 5 && "diff"@.len() == 4);
    if let TurnView::Answer(ProgressView::Local(LocalStep::MergeBase), reply) = turn {
        let compared = diff_args(trimmed(written(reply)), pr.head_sha);
        assert((seq!["--no-replace-objects"@] + compared).skip(1) =~= compared);
    }
}

/// What has passed between the attempt on the local checkout and a world.
#[verifier::ext_equal]
pub struct LocalExchange {
    pub outcome: LocalOutcomeView,
    pub asked: Seq<RequestView>,
}

/// The attempt on the local checkout in a world, up to `count` replies.
pub open spec fn local_exchange(pr: PullRequestView, world: World, count: nat) -> LocalExchange
    decreases count,
{
    if count == 0 {
        LocalExchange { outcome: local_outcome(pr, LocalTurnView::Begin), asked: Seq::empty() }
    } else {
        let before = local_exchange(pr, world, (count - 1) as nat);
        match before.outcome {
            LocalOutcomeView::Ask(step, request) => {
                let asked = before.asked.push(request);
                LocalExchange {
                    outcome: local_outcome(pr, LocalTurnView::Answer(step, world(asked))),
                    asked,
                }
            },
            _ => before,
        }
    }
}

proof fn lemma_local_requests(pr: PullRequestView, world: World, count: nat)
    ensures
        local_exchange(pr, world, count).outcome matches LocalOutcomeView::Ask(step, request)
            ==> {
            &&& put_to_checkout(pr, world, local_exchange(pr, world, count).asked, request)
            &&& step == LocalStep::TopLevel ==> request == top_level_command()
            &&& step == LocalStep::MergeBase ==> request == local_command(merge_base_args(pr))
        },
    decreases count,
{
    if count > 0 {
        lemma_local_requests(pr, world, (count - 1) as nat);
    }
}

/// The attempt on the local checkout rests on its exact commands and on nothing else: two
/// worlds that answer alike to those, whatever else differs between them, lead to the same
/// requests and the same outcome. So neither uncommitted files, nor replacements of objects,
/// nor the diff programs and text conversions of the configuration play a part, as long as
/// these commands do not show them.
pub proof fn law_the_local_diff_rests_on_its_commands(
    pr: PullRequestView,
    one: World,
    other: World,
    count: nat,
)
    requires
        answer_alike(
            one,
            other,
            |asked: Seq<RequestView>, request: RequestView|
                put_to_checkout(pr, one, asked, request),
        ),
    ensures
        local_exchange(pr, one, count) == local_exchange(pr, other, count),
        all_in(
            local_exchange(pr, one, count).asked,
            |asked: Seq<RequestView>, request: RequestView|
                put_to_checkout(pr, one, asked, request),
        ),
    decreases count,
{
    let class = |asked: Seq<RequestView>, request: RequestView|
        put_to_checkout(pr, one, asked, request);
    if count > 0 {
        law_the_local_diff_rests_on_its_commands(pr, one, other, (count - 1) as nat);
        lemma_local_requests(pr, one, (count - 1) as nat);
        let before = local_exchange(pr, one, (count - 1) as nat);
        if let LocalOutcomeView::Ask(_, request) = before.outcome {
            lemma_one_more(before.asked, request, class);
        }
    }
}

/// What has passed between reading the diff from a clone and a world.
#[verifier::ext_equal]
pub struct DiffExchange {
    pub outcome: DiffOutcomeView,
    pub asked: Seq<RequestView>,
}

/// Reading the diff from a clone in a world, up to `count` replies.
pub open spec fn diff_exchange(pr: PullRequestView, world: World, count: nat) -> DiffExchange
    decreases count,
{
    if count == 0 {
        DiffExchange { outcome: diff_outcome(pr, DiffTurnView::Begin), asked: Seq::empty() }
    } else {
        let before = diff_exchange(pr, world, (count - 1) as nat);
        match before.outcome {
            DiffOutcomeView::Ask(step, request) => {
                let asked = before.asked.push(request);
                DiffExchange {
                    outcome: diff_outcome(pr, DiffTurnView::Answer(step, world(asked)->Git_0)),
                    asked,
                }
            },
            DiffOutcomeView::Done(_) => before,
        }
    }
}

proof fn lemma_diff_requests(pr: PullRequestView, world: World, count: nat)
    requires
        answers_in_kind(world),
    ensures
        diff_exchange(pr, world, count).outcome matches DiffOutcomeView::Ask(step, request) ==> {
            &&& put_to_clone(pr, world, diff_exchange(pr, world, count).asked, request)
            &&& step == DiffStep::MergeBase ==> request == RequestView::CloneGit(
                merge_base_args(pr),
            )
        },
    decreases count,
{
    if count > 0 {
        lemma_diff_requests(pr, world, (count - 1) as nat);
    }
}

/// Reading the diff from the clone rests on its exact commands and on the two commits, and on
/// nothing else: for pull requests between the same commits, two worlds that answer alike to
/// those commands, whatever else differs between them, lead to the same requests and the same
/// outcome. So the diff programs and text conversions of the configuration play no part, as
/// long as these commands do not show them.
pub proof fn law_the_diff_in_the_clone_rests_on_its_commands(
    pr: PullRequestView,
    other_pr: PullRequestView,
    one: World,
    other: World,
    count: nat,
)
    requires
        pr.base_sha == other_pr.base_sha,
        pr.head_sha == other_pr.head_sha,
        answers_in_kind(one),
        answer_alike(
            one,
            other,
            |asked: Seq<RequestView>, request: RequestView| put_to_clone(pr, one, asked, request),
        ),
    ensures
        diff_exchange(pr, one, count) == diff_exchange(other_pr, other, count),
        all_in(
            diff_exchange(pr, one, count).asked,
            |asked: Seq<RequestView>, request: RequestView| put_to_clone(pr, one, asked, request),
        ),
    decreases count,
{
    let class = |asked: Seq<RequestView>, request: RequestView|
        put_to_clone(pr, one, asked, request);
    if count > 0 {
        law_the_diff_in_the_clone_rests_on_its_commands(
            pr,
            other_pr,
            one,
            other,
            (count - 1) as nat,
        );
        lemma_diff_requests(pr, one, (count - 1) as nat);
        let before = diff_exchange(pr, one, (count - 1) as nat);
        if let DiffOutcomeView::Ask(_, request) = before.outcome {
            lemma_one_more(before.asked, request, class);
        }
    }
}

/// What has passed between the library and a world.
#[verifier::ext_equal]
pub struct Exchange {
    pub step: StepView,
    pub asked: Seq<RequestView>,
    pub replies: Seq<ReplyView>,
}

/// Building the diff in a world, up to `count` replies.
pub open spec fn exchange(
    pr: PullRequestView,
    local_checkout: bool,
    world: World,
    count: nat,
) -> Exchange
    decreases count,
{
    if count == 0 {
        Exchange {
            step: large_diff_step(pr, TurnView::Begin { local_checkout }),
            asked: Seq::empty(),
            replies: Seq::empty(),
        }
    } else {
        let before = exchange(pr, local_checkout, world, (count - 1) as nat);
        match before.step {
            StepView::Ask(_, request) => {
                let asked = before.asked.push(request);
                let reply = world(asked);
                Exchange {
                    step: advance(pr, before.step, reply),
                    asked,
                    replies: before.replies.push(reply),
                }
            },
            StepView::Done(_) => before,
        }
    }
}

/// Building the diff in a world is a run on the replies of that world.
pub proof fn law_an_exchange_is_a_run(
    pr: PullRequestView,
    local_checkout: bool,
    world: World,
    count: nat,
)
    ensures
        exchange(pr, local_checkout, world, count).step == reached(
            pr,
            local_checkout,
            exchange(pr, local_checkout, world, count).replies,
        ),
    decreases count,
{
    if count > 0 {
        law_an_exchange_is_a_run(pr, local_checkout, world, (count - 1) as nat);
        let before = exchange(pr, local_checkout, world, (count - 1) as nat);
        let after = exchange(pr, local_checkout, world, count);
        if before.step is Ask {
            assert(after.replies.drop_last() =~= before.replies);
        }
    }
}

proof fn lemma_all_requests(
    pr: PullRequestView,
    local_checkout: bool,
    world: World,
    count: nat,
)
    requires
        answers_in_kind(world),
    ensures
        exchange(pr, local_checkout, world, count).step matches StepView::Ask(progress, request)
            ==> {
            let asked = exchange(pr, local_checkout, world, count).asked;
            &&& put_at_all(pr, world, asked, request)
            &&& match progress {
                ProgressView::Local(LocalStep::TopLevel) => request == top_level_command(),
                ProgressView::Local(LocalStep::MergeBase) => request == local_command(
                    merge_base_args(pr),
                ),
                ProgressView::Local(LocalStep::SameDirectory) => request is Canonicalize,
                ProgressView::Local(_) => request is LocalGit,
                ProgressView::Reference => request == common_git_dir_request(),
                ProgressView::Directory(reference) => request == directory_request() && reference
                    == borrowed(world, asked),
                ProgressView::Cloning(_) => request is Gh,
                ProgressView::Diffing(_, DiffStep::MergeBase) => request
                    == RequestView::CloneGit(merge_base_args(pr)),
                _ => request is CloneGit,
            }
        },
    decreases count,
{
    if count > 0 {
        lemma_all_requests(pr, local_checkout, world, (count - 1) as nat);
        let before = exchange(pr, local_checkout, world, (count - 1) as nat);
        if let StepView::Ask(_, request) = before.step {
            assert(before.asked.push(request).drop_last() =~= before.asked);
        }
    }
}

/// Building the diff rests on its exact requests and on nothing else: two worlds that answer
/// alike to those, whatever else differs between them, lead to the same requests and the same
/// outcome.
pub proof fn law_the_whole_rests_on_its_requests(
    pr: PullRequestView,
    local_checkout: bool,
    one: World,
    other: World,
    count: nat,
)
    requires
        answers_in_kind(one),
        answer_alike(
            one,
            other,
            |asked: Seq<RequestView>, request: RequestView| put_at_all(pr, one, asked, request),
        ),
    ensures
        exchange(pr, local_checkout, one, count) == exchange(pr, local_checkout, other, count),
        all_in(
            exchange(pr, local_checkout, one, count).asked,
            |asked: Seq<RequestView>, request: RequestView| put_at_all(pr, one, asked, request),
        ),
    decreases count,
{
    let class = |asked: Seq<RequestView>, request: RequestView|
        put_at_all(pr, one, asked, request);
    if count > 0 {
        law_the_whole_rests_on_its_requests(pr, local_checkout, one, other, (count - 1) as nat);
        lemma_all_requests(pr, local_checkout, one, (count - 1) as nat);
        let before = exchange(pr, local_checkout, one, (count - 1) as nat);
        if let StepView::Ask(_, request) = before.step {
            lemma_one_more(before.asked, request, class);
        }
    }
}

} // verus!
