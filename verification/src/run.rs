//! Whole runs of building a diff: what holds of every sequence of replies.
use crate::command::{answers, git_error, CommandFailure, ReplyView, RequestView, TuicrErrorView};
use crate::large_diff::{fits, large_diff_step, ProgressView, StepView, TurnView};
use crate::local_checkout::{
    common_git_dir, common_git_dir_request, diff_args, local_command, local_request, usable,
    written, LocalStep,
};
use crate::pull_request::PullRequestView;
use crate::temporary_clone::{
    clone_args, clone_error, diff_request, directory_error, directory_request, fetch_args,
    DiffStep,
};
use crate::text::trimmed;
use vstd::prelude::*;

verus! {

/// The step that a reply leads to.
pub open spec fn advance(pr: PullRequestView, step: StepView, reply: ReplyView) -> StepView {
    match step {
        StepView::Ask(progress, _) => large_diff_step(pr, TurnView::Answer(progress, reply)),
        StepView::Done(_) => step,
    }
}

/// The step that replies lead to, one after the other.
pub open spec fn run(pr: PullRequestView, step: StepView, replies: Seq<ReplyView>) -> StepView
    decreases replies.len(),
{
    if replies.len() == 0 {
        step
    } else {
        advance(pr, run(pr, step, replies.drop_last()), replies.last())
    }
}

/// The step that replies lead to from the beginning.
pub open spec fn reached(
    pr: PullRequestView,
    local_checkout: bool,
    replies: Seq<ReplyView>,
) -> StepView {
    run(pr, large_diff_step(pr, TurnView::Begin { local_checkout }), replies)
}

/// The steps on the local checkout, in their order.
pub open spec fn local_step(at: int) -> LocalStep {
    if at == 0 {
        LocalStep::TopLevel
    } else if at == 1 {
        LocalStep::SameDirectory
    } else if at == 2 {
        LocalStep::Branch
    } else if at == 3 {
        LocalStep::Head
    } else if at == 4 {
        LocalStep::BaseCommit
    } else if at == 5 {
        LocalStep::HeadCommit
    } else if at == 6 {
        LocalStep::MergeBase
    } else {
        LocalStep::Diff
    }
}

/// How many steps there are on the local checkout.
pub open spec fn local_steps() -> int {
    8
}

/// Whether the first `count` replies let the checkout stand for the pull request.
pub open spec fn usable_until(pr: PullRequestView, replies: Seq<ReplyView>, count: int) -> bool {
    forall|i: int| 0 <= i < count ==> usable(pr, local_step(i), #[trigger] replies[i])
}

/// How many replies, at most, a step is away from the end.
pub open spec fn distance(step: StepView) -> nat {
    match step {
        StepView::Done(_) => 0,
        StepView::Ask(ProgressView::Diffing(_, DiffStep::Diff), _) => 1,
        StepView::Ask(ProgressView::Diffing(_, DiffStep::MergeBase), _) => 2,
        StepView::Ask(ProgressView::Diffing(_, DiffStep::HeadCommit), _) => 3,
        StepView::Ask(ProgressView::Diffing(_, DiffStep::BaseCommit), _) => 4,
        StepView::Ask(ProgressView::FetchingRefs(_), _) => 5,
        StepView::Ask(ProgressView::Cloning(_), _) => 6,
        StepView::Ask(ProgressView::Directory(_), _) => 7,
        StepView::Ask(ProgressView::Reference, _) => 8,
        StepView::Ask(ProgressView::Local(LocalStep::Diff), _) => 9,
        StepView::Ask(ProgressView::Local(LocalStep::MergeBase), _) => 10,
        StepView::Ask(ProgressView::Local(LocalStep::HeadCommit), _) => 11,
        StepView::Ask(ProgressView::Local(LocalStep::BaseCommit), _) => 12,
        StepView::Ask(ProgressView::Local(LocalStep::Head), _) => 13,
        StepView::Ask(ProgressView::Local(LocalStep::Branch), _) => 14,
        StepView::Ask(ProgressView::Local(LocalStep::SameDirectory), _) => 15,
        StepView::Ask(ProgressView::Local(LocalStep::TopLevel), _) => 16,
    }
}

/// Every reply brings the end nearer.
pub proof fn law_replies_bring_the_end_nearer(
    pr: PullRequestView,
    step: StepView,
    reply: ReplyView,
)
    requires
        step is Ask,
    ensures
        distance(advance(pr, step, reply)) < distance(step),
{
}

/// Building a diff ends, with a diff or an error, after sixteen replies at most, and after
/// seven at most where there is no local checkout.
pub proof fn law_every_run_ends(
    pr: PullRequestView,
    local_checkout: bool,
    replies: Seq<ReplyView>,
)
    requires
        replies.len() >= if local_checkout {
            16int
        } else {
            7int
        },
    ensures
        reached(pr, local_checkout, replies) is Done,
{
    lemma_distance_left(
        pr,
        large_diff_step(pr, TurnView::Begin { local_checkout }),
        replies,
    );
}

proof fn lemma_distance_left(pr: PullRequestView, step: StepView, replies: Seq<ReplyView>)
    ensures
        run(pr, step, replies) is Done || distance(run(pr, step, replies)) + replies.len()
            <= distance(step),
    decreases replies.len(),
{
    if replies.len() > 0 {
        lemma_distance_left(pr, step, replies.drop_last());
        let before = run(pr, step, replies.drop_last());
        if before is Ask {
            law_replies_bring_the_end_nearer(pr, before, replies.last());
        }
    }
}

/// The front of usable replies is usable.
proof fn lemma_prefix_usable(
    pr: PullRequestView,
    replies: Seq<ReplyView>,
    front: Seq<ReplyView>,
    count: int,
)
    requires
        front.is_prefix_of(replies),
        count <= front.len(),
        usable_until(pr, replies, count),
    ensures
        usable_until(pr, front, count),
{
    assert forall|i: int| 0 <= i < count implies usable(
        pr,
        local_step(i),
        #[trigger] front[i],
    ) by {
        assert(front[i] == replies[i]);
    }
}

/// While the replies let the checkout stand for the pull request, the run stays on it.
proof fn lemma_on_the_checkout(pr: PullRequestView, replies: Seq<ReplyView>)
    requires
        replies.len() <= local_steps(),
        usable_until(pr, replies, replies.len() as int),
    ensures
        reached(pr, true, replies) == if replies.len() < local_steps() {
            StepView::Ask(
                ProgressView::Local(local_step(replies.len() as int)),
                local_request(
                    pr,
                    local_step(replies.len() as int),
                    if replies.len() == 0 {
                        Seq::empty()
                    } else {
                        written(replies.last())
                    },
                ),
            )
        } else {
            StepView::Done(Ok(written(replies.last())))
        },
    decreases replies.len(),
{
    if replies.len() > 0 {
        let before = replies.drop_last();
        lemma_prefix_usable(pr, replies, before, before.len() as int);
        lemma_on_the_checkout(pr, before);
        assert(usable(pr, local_step(replies.len() - 1), replies[replies.len() - 1]));
    }
}

/// A checkout that is the top of its repository, has the head branch checked out, stands on
/// the exact head commit and holds both commits gives the diff itself: what `git` wrote for
/// the changes from the merge base to the head, untouched. Nothing but the checkout is asked
/// on the way there, so no clone is made.
pub proof fn law_exact_head_gives_the_diff(pr: PullRequestView, replies: Seq<ReplyView>)
    requires
        replies.len() == local_steps(),
        usable_until(pr, replies, local_steps()),
    ensures
        reached(pr, true, replies) == StepView::Done(Ok(written(replies[7]))),
        reached(pr, true, replies.take(7)) == StepView::Ask(
            ProgressView::Local(LocalStep::Diff),
            local_command(diff_args(trimmed(written(replies[6])), pr.head_sha)),
        ),
        forall|i: int|
            0 <= i < local_steps() ==> (#[trigger] reached(
                pr,
                true,
                replies.take(i),
            ) matches StepView::Ask(progress, _) && progress is Local),
{
    lemma_on_the_checkout(pr, replies);
    assert forall|i: int| 0 <= i < local_steps() implies (#[trigger] reached(
        pr,
        true,
        replies.take(i),
    ) matches StepView::Ask(progress, _) && progress is Local) by {
        lemma_prefix_usable(pr, replies, replies.take(i), i);
        lemma_on_the_checkout(pr, replies.take(i));
    }
    lemma_prefix_usable(pr, replies, replies.take(7), 7);
    lemma_on_the_checkout(pr, replies.take(7));
}

/// In all other cases the checkout only lends its objects: the first reply that does not
/// fit the pull request, whatever it is, leads to the question for the object store.
pub proof fn law_any_other_checkout_falls_back(
    pr: PullRequestView,
    replies: Seq<ReplyView>,
    at: int,
)
    requires
        0 <= at < local_steps(),
        replies.len() == at + 1,
        usable_until(pr, replies, at),
        !usable(pr, local_step(at), replies[at]),
    ensures
        reached(pr, true, replies) == StepView::Ask(
            ProgressView::Reference,
            common_git_dir_request(),
        ),
{
    let before = replies.drop_last();
    lemma_prefix_usable(pr, replies, before, before.len() as int);
    lemma_on_the_checkout(pr, before);
}

/// No trouble with the local checkout is an error of the whole.
pub proof fn law_local_trouble_is_no_error(
    pr: PullRequestView,
    progress: ProgressView,
    request: RequestView,
    reply: ReplyView,
)
    requires
        progress is Local || progress is Reference,
    ensures
        !(advance(pr, StepView::Ask(progress, request), reply) matches StepView::Done(Err(_))),
{
}

proof fn lemma_run_in_two_parts(
    pr: PullRequestView,
    step: StepView,
    first: Seq<ReplyView>,
    second: Seq<ReplyView>,
)
    ensures
        run(pr, step, first + second) == run(pr, run(pr, step, first), second),
    decreases second.len(),
{
    if second.len() == 0 {
        assert(first + second =~= first);
    } else {
        lemma_run_in_two_parts(pr, step, first, second.drop_last());
        assert((first + second).drop_last() =~= first + second.drop_last());
    }
}

proof fn lemma_done_stays(
    pr: PullRequestView,
    outcome: Result<Seq<char>, TuicrErrorView>,
    replies: Seq<ReplyView>,
)
    ensures
        run(pr, StepView::Done(outcome), replies) == StepView::Done(outcome),
    decreases replies.len(),
{
    if replies.len() > 0 {
        lemma_done_stays(pr, outcome, replies.drop_last());
    }
}

/// A run that ends while it has asked about nothing but the local checkout ends with a
/// diff, and only where every check on the checkout held.
pub proof fn law_no_clone_means_the_exact_head(pr: PullRequestView, replies: Seq<ReplyView>)
    requires
        reached(pr, true, replies) is Done,
        forall|i: int|
            0 <= i <= replies.len() ==> (#[trigger] reached(
                pr,
                true,
                replies.take(i),
            ) matches StepView::Ask(progress, _) ==> progress is Local),
    ensures
        replies.len() >= local_steps(),
        usable_until(pr, replies, local_steps()),
        reached(pr, true, replies) == StepView::Done(Ok(written(replies[7]))),
{
    let count = if replies.len() < local_steps() {
        replies.len() as int
    } else {
        local_steps()
    };
    lemma_all_usable(pr, replies, count);
    let first = replies.take(count);
    lemma_prefix_usable(pr, replies, first, first.len() as int);
    lemma_on_the_checkout(pr, first);
    assert(first + replies.skip(count) =~= replies);
    lemma_run_in_two_parts(
        pr,
        large_diff_step(pr, TurnView::Begin { local_checkout: true }),
        first,
        replies.skip(count),
    );
    if replies.len() < local_steps() {
        assert(first =~= replies);
    } else {
        lemma_done_stays(pr, Ok(written(replies[7])), replies.skip(count));
    }
}

/// A run that stays on the checkout has seen no reply that did not fit.
proof fn lemma_all_usable(pr: PullRequestView, replies: Seq<ReplyView>, count: int)
    requires
        0 <= count <= replies.len(),
        count <= local_steps(),
        forall|i: int|
            0 <= i <= replies.len() ==> (#[trigger] reached(
                pr,
                true,
                replies.take(i),
            ) matches StepView::Ask(progress, _) ==> progress is Local),
    ensures
        usable_until(pr, replies, count),
    decreases count,
{
    if count > 0 {
        lemma_all_usable(pr, replies, count - 1);
        if !usable(pr, local_step(count - 1), replies[count - 1]) {
            let seen = replies.take(count);
            lemma_prefix_usable(pr, replies, seen, count - 1);
            law_any_other_checkout_falls_back(pr, seen, count - 1);
            assert(reached(pr, true, replies.take(count)) is Ask);
        }
    }
}

/// Whether the reply number `at` to the route through the clone is a success.
pub open spec fn succeeds(at: int, reply: ReplyView) -> bool {
    if at == 0 {
        reply matches ReplyView::Directory(Ok(_))
    } else if at == 1 {
        reply matches ReplyView::Gh(Ok(_))
    } else {
        reply matches ReplyView::Git(Ok(_))
    }
}

/// The error that the reply number `at` to the route through the clone leads to.
pub open spec fn failure(at: int, reply: ReplyView) -> TuicrErrorView {
    if at == 0 {
        directory_error(reply->Directory_0->Err_0)
    } else if at == 1 {
        clone_error(reply->Gh_0->Err_0)
    } else {
        git_error(reply->Git_0->Err_0)
    }
}

/// Whether the first `count` replies to the route through the clone are successes.
pub open spec fn successful_until(replies: Seq<ReplyView>, count: int) -> bool {
    forall|i: int| 0 <= i < count ==> succeeds(i, #[trigger] replies[i])
}

/// How many replies the route through the clone takes.
pub open spec fn clone_steps() -> int {
    7
}

/// The beginning of the route through the clone.
pub open spec fn clone_begins(reference: Option<Seq<char>>) -> StepView {
    StepView::Ask(ProgressView::Directory(reference), directory_request())
}

/// What the route through the clone asks for after successful replies.
pub open spec fn clone_asks(
    pr: PullRequestView,
    reference: Option<Seq<char>>,
    replies: Seq<ReplyView>,
) -> RequestView {
    if replies.len() == 0 {
        directory_request()
    } else if replies.len() == 1 {
        RequestView::Gh(clone_args(pr, replies[0]->Directory_0->Ok_0, reference))
    } else if replies.len() == 2 {
        RequestView::CloneGit(fetch_args(pr))
    } else if replies.len() == 3 {
        diff_request(pr, DiffStep::BaseCommit, Seq::empty())
    } else if replies.len() == 4 {
        diff_request(pr, DiffStep::HeadCommit, Seq::empty())
    } else if replies.len() == 5 {
        diff_request(pr, DiffStep::MergeBase, Seq::empty())
    } else {
        RequestView::CloneGit(diff_args(trimmed(written(replies[5])), pr.head_sha))
    }
}

/// The front of successful replies is successful.
proof fn lemma_prefix_successful(replies: Seq<ReplyView>, front: Seq<ReplyView>)
    requires
        front.is_prefix_of(replies),
        successful_until(replies, front.len() as int),
    ensures
        successful_until(front, front.len() as int),
{
    assert forall|i: int| 0 <= i < front.len() implies succeeds(i, #[trigger] front[i]) by {
        assert(front[i] == replies[i]);
    }
}

proof fn lemma_through_the_clone(
    pr: PullRequestView,
    reference: Option<Seq<char>>,
    replies: Seq<ReplyView>,
)
    requires
        replies.len() <= clone_steps(),
        successful_until(replies, replies.len() as int),
    ensures
        match run(pr, clone_begins(reference), replies) {
            StepView::Ask(progress, request) => {
                &&& replies.len() < clone_steps()
                &&& request == clone_asks(pr, reference, replies)
                &&& progress == if replies.len() == 0 {
                    ProgressView::Directory(reference)
                } else {
                    let path = replies[0]->Directory_0->Ok_0;
                    if replies.len() == 1 {
                        ProgressView::Cloning(path)
                    } else if replies.len() == 2 {
                        ProgressView::FetchingRefs(path)
                    } else if replies.len() == 3 {
                        ProgressView::Diffing(path, DiffStep::BaseCommit)
                    } else if replies.len() == 4 {
                        ProgressView::Diffing(path, DiffStep::HeadCommit)
                    } else if replies.len() == 5 {
                        ProgressView::Diffing(path, DiffStep::MergeBase)
                    } else {
                        ProgressView::Diffing(path, DiffStep::Diff)
                    }
                }
            },
            StepView::Done(outcome) => replies.len() == clone_steps() && outcome == Ok::<
                Seq<char>,
                TuicrErrorView,
            >(written(replies[6])),
        },
    decreases replies.len(),
{
    if replies.len() > 0 {
        let before = replies.drop_last();
        lemma_prefix_successful(replies, before);
        lemma_through_the_clone(pr, reference, before);
        assert(succeeds(replies.len() - 1, replies[replies.len() - 1]));
        assert(before.len() > 0 ==> before[0] == replies[0]);
    }
}

/// The route through the clone asks for a directory, the clone, the refs, the two commits,
/// their merge base and the changes from there to the head. Where each of them succeeds it
/// ends with what `git` wrote for the last, untouched.
pub proof fn law_the_clone_gives_the_diff(
    pr: PullRequestView,
    reference: Option<Seq<char>>,
    replies: Seq<ReplyView>,
)
    requires
        replies.len() <= clone_steps(),
        successful_until(replies, replies.len() as int),
    ensures
        replies.len() < clone_steps() ==> (run(
            pr,
            clone_begins(reference),
            replies,
        ) matches StepView::Ask(_, request) && request == clone_asks(pr, reference, replies)),
        replies.len() == clone_steps() ==> run(pr, clone_begins(reference), replies)
            == StepView::Done(Ok(written(replies[6]))),
{
    lemma_through_the_clone(pr, reference, replies);
}

/// The first failure on the route through the clone ends it with the error that belongs to
/// what failed.
pub proof fn law_the_first_failure_is_the_error(
    pr: PullRequestView,
    reference: Option<Seq<char>>,
    replies: Seq<ReplyView>,
    at: int,
)
    requires
        0 <= at < clone_steps(),
        replies.len() == at + 1,
        successful_until(replies, at),
        !succeeds(at, replies[at]),
        answers(replies[at], clone_asks(pr, reference, replies.take(at))),
    ensures
        run(pr, clone_begins(reference), replies) == StepView::Done(
            Err(failure(at, replies[at])),
        ),
{
    let before = replies.drop_last();
    assert(before =~= replies.take(at));
    lemma_prefix_successful(replies, before);
    lemma_through_the_clone(pr, reference, before);
}

/// A checkout that cannot give the diff does not stand in its way: the run goes on to the
/// clone, with the object store of the checkout to borrow from where `git` names one, and
/// ends with the diff where the clone succeeds.
pub proof fn law_the_fallback_gives_the_diff(
    pr: PullRequestView,
    local: Seq<ReplyView>,
    store: Result<Seq<char>, CommandFailure>,
    replies: Seq<ReplyView>,
)
    requires
        0 < local.len() <= local_steps(),
        usable_until(pr, local, local.len() - 1),
        !usable(pr, local_step(local.len() - 1), local.last()),
        replies.len() == clone_steps(),
        successful_until(replies, clone_steps()),
    ensures
        reached(pr, true, local.push(ReplyView::Git(store))) == clone_begins(
            common_git_dir(store),
        ),
        reached(pr, true, local.push(ReplyView::Git(store)) + replies) == StepView::Done(
            Ok(written(replies[6])),
        ),
{
    law_any_other_checkout_falls_back(pr, local, local.len() - 1);
    let first = local.push(ReplyView::Git(store));
    assert(first.drop_last() =~= local);
    lemma_run_in_two_parts(
        pr,
        large_diff_step(pr, TurnView::Begin { local_checkout: true }),
        first,
        replies,
    );
    law_the_clone_gives_the_diff(pr, common_git_dir(store), replies);
}

/// Without a local checkout nothing is asked of one, and the clone borrows from nowhere.
pub proof fn law_no_checkout_no_local_work(pr: PullRequestView, replies: Seq<ReplyView>)
    ensures
        reached(pr, false, Seq::empty()) == clone_begins(None),
        reached(pr, false, replies) matches StepView::Ask(progress, request) ==> {
            &&& !(request is LocalGit)
            &&& !(request is Canonicalize)
            &&& request matches RequestView::Gh(args) ==> progress matches ProgressView::Cloning(
                path,
            ) && args == clone_args(pr, path, None)
        },
{
    lemma_never_local(pr, replies);
}

proof fn lemma_never_local(pr: PullRequestView, replies: Seq<ReplyView>)
    ensures
        reached(pr, false, replies) matches StepView::Ask(progress, request) ==> {
            &&& !(progress is Local)
            &&& !(progress is Reference)
            &&& progress matches ProgressView::Directory(reference) ==> reference is None
            &&& !(request is LocalGit)
            &&& !(request is Canonicalize)
            &&& request matches RequestView::Gh(args) ==> progress matches ProgressView::Cloning(
                path,
            ) && args == clone_args(pr, path, None)
        },
    decreases replies.len(),
{
    if replies.len() > 0 {
        lemma_never_local(pr, replies.drop_last());
    }
}

/// On the route through the clone, and on the way there, the name of the head branch plays
/// no part: no branch is trusted for its name.
pub proof fn law_the_clone_trusts_no_branch_name(
    pr: PullRequestView,
    renamed: PullRequestView,
    progress: ProgressView,
    reply: ReplyView,
)
    requires
        renamed == (PullRequestView { head_ref_name: renamed.head_ref_name, ..pr }),
        !(progress is Local),
    ensures
        large_diff_step(pr, TurnView::Answer(progress, reply)) == large_diff_step(
            renamed,
            TurnView::Answer(progress, reply),
        ),
{
}

/// Both routes ask `git` for the same: the command in the checkout is the one in the clone,
/// except that it looks past replacements of objects.
pub proof fn law_both_routes_ask_for_the_same(pr: PullRequestView, before: Seq<char>)
    ensures
        local_request(pr, LocalStep::BaseCommit, before) == local_command(
            diff_request(pr, DiffStep::BaseCommit, before)->CloneGit_0,
        ),
        local_request(pr, LocalStep::HeadCommit, before) == local_command(
            diff_request(pr, DiffStep::HeadCommit, before)->CloneGit_0,
        ),
        local_request(pr, LocalStep::MergeBase, before) == local_command(
            diff_request(pr, DiffStep::MergeBase, before)->CloneGit_0,
        ),
        local_request(pr, LocalStep::Diff, before) == local_command(
            diff_request(pr, DiffStep::Diff, before)->CloneGit_0,
        ),
{
}

/// What a step waits for is what it asked for: the replies that answer the request are
/// those that the next turn takes.
pub proof fn law_requests_tell_the_replies(pr: PullRequestView, turn: TurnView, reply: ReplyView)
    ensures
        large_diff_step(pr, turn) matches StepView::Ask(progress, request) ==> (answers(
            reply,
            request,
        ) <==> fits(progress, reply)),
{
}

/// Where the checkout stands on the exact head, the run ends with the very text that `git`
/// wrote as the diff, and where the clone succeeds, likewise: nothing of it is lost or added,
/// whatever its length.
pub proof fn law_both_routes_end_with_the_whole_diff(
    pr: PullRequestView,
    local: Seq<ReplyView>,
    reference: Option<Seq<char>>,
    cloned: Seq<ReplyView>,
    diff: Seq<char>,
)
    ensures
        local.len() == 8 && usable_until(pr, local, 8) && local[7] == ReplyView::Git(Ok(diff))
            ==> reached(pr, true, local) == StepView::Done(Ok(diff)),
        cloned.len() == 7 && successful_until(cloned, 7) && cloned[6] == ReplyView::Git(Ok(diff))
            ==> run(pr, clone_begins(reference), cloned) == StepView::Done(Ok(diff)),
{
    if local.len() == 8 && usable_until(pr, local, 8) {
        law_exact_head_gives_the_diff(pr, local);
    }
    if cloned.len() == 7 && successful_until(cloned, 7) {
        law_the_clone_gives_the_diff(pr, reference, cloned);
    }
}

/// A checkout whose commands all succeed stands for the pull request where the top directory
/// and the checkout have the same canonical form and the branch and the commit have the exact
/// names of the head branch and the head commit, and nowhere else.
pub proof fn law_what_a_usable_checkout_replies(
    pr: PullRequestView,
    top: Seq<char>,
    path: Option<Seq<u8>>,
    checkout: Option<Seq<u8>>,
    branch: Seq<char>,
    head: Seq<char>,
    base_commit: Seq<char>,
    head_commit: Seq<char>,
    merge_base: Seq<char>,
    diff: Seq<char>,
)
    ensures
        usable_until(
            pr,
            seq![
                ReplyView::Git(Ok(top)),
                ReplyView::Canonical { path, checkout },
                ReplyView::Git(Ok(branch)),
                ReplyView::Git(Ok(head)),
                ReplyView::Git(Ok(base_commit)),
                ReplyView::Git(Ok(head_commit)),
                ReplyView::Git(Ok(merge_base)),
                ReplyView::Git(Ok(diff)),
            ],
            8,
        ) <==> {
            &&& path is Some
            &&& path == checkout
            &&& trimmed(branch) == pr.head_ref_name
            &&& trimmed(head) == pr.head_sha
        },
{
    let replies = seq![
        ReplyView::Git(Ok(top)),
        ReplyView::Canonical { path, checkout },
        ReplyView::Git(Ok(branch)),
        ReplyView::Git(Ok(head)),
        ReplyView::Git(Ok(base_commit)),
        ReplyView::Git(Ok(head_commit)),
        ReplyView::Git(Ok(merge_base)),
        ReplyView::Git(Ok(diff)),
    ];
    if usable_until(pr, replies, 8) {
        assert(usable(pr, local_step(1), replies[1]));
        assert(usable(pr, local_step(2), replies[2]));
        assert(usable(pr, local_step(3), replies[3]));
    }
}

} // verus!
