//! What is known of a pull request before its diff is read.
use vstd::prelude::*;

verus! {

/// The details of a pull request that its diff depends on.
#[derive(Debug, PartialEq, Eq)]
pub struct PullRequestDetails {
    /// The repository, in the form that `gh` takes as an argument.
    pub repository: String,
    /// The number of the pull request.
    pub number: u64,
    /// The branch that the pull request is to be merged into.
    pub base_ref_name: String,
    /// The branch that holds the changes.
    pub head_ref_name: String,
    /// The commit at the tip of the base branch.
    pub base_sha: String,
    /// The commit at the tip of the head branch.
    pub head_sha: String,
}

/// `PullRequestDetails` with each text as its characters.
#[verifier::ext_equal]
pub struct PullRequestView {
    pub repository: Seq<char>,
    pub number: nat,
    pub base_ref_name: Seq<char>,
    pub head_ref_name: Seq<char>,
    pub base_sha: Seq<char>,
    pub head_sha: Seq<char>,
}

impl View for PullRequestDetails {
    type V = PullRequestView;

    open spec fn view(&self) -> PullRequestView {
        PullRequestView {
            repository: self.repository@,
            number: self.number as nat,
            base_ref_name: self.base_ref_name@,
            head_ref_name: self.head_ref_name@,
            base_sha: self.base_sha@,
            head_sha: self.head_sha@,
        }
    }
}

/// The view of the details is made of the details themselves, each in its place.
pub proof fn law_details_are_seen_as_they_are(pr: PullRequestDetails)
    ensures
        pr@.repository == pr.repository@,
        pr@.number == pr.number,
        pr@.base_ref_name == pr.base_ref_name@,
        pr@.head_ref_name == pr.head_ref_name@,
        pr@.base_sha == pr.base_sha@,
        pr@.head_sha == pr.head_sha@,
{
}

} // verus!
