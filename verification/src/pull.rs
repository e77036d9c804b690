//! PullEngine: the fast-forward-only synchronization protocol, as a state
//! machine over the steps a repository driver performs.
//!
//! The engine never touches the repository itself: it names the next step
//! to perform — locate `origin`, fetch, read HEAD, resolve the tracking
//! ref, analyze the merge, check out, move the ref, clean up — and the
//! caller reports each step's outcome as an event. A detached HEAD and a
//! non-fast-forwardable analysis end the pull successfully without any
//! mutating step; every transport or repository failure ends it with the
//! error of the step that failed.

use vstd::prelude::*;

use crate::bytes::append_bytes;
use crate::bytes::{B_LOW_E, B_LOW_F, B_LOW_G, B_LOW_I, B_LOW_M, B_LOW_N, B_LOW_O, B_LOW_R,
    B_LOW_S, B_LOW_T, B_SLASH};

verus! {


/// The merge strategy of a pull. Fast-forward-only is the one strategy
/// this engine supports: any divergence is reported, never auto-merged.
#[derive(Debug, PartialEq, Eq, Structural)]
pub enum MergeOption {
    FastForwardOnly,
}

/// The outcome of analyzing the remote commit against local HEAD.
#[derive(Debug, PartialEq, Eq, Structural)]
pub enum MergeDecision {
    UpToDate,
    FastForwardable,
    Diverged,
    NoBranch,
}

/// A pull failure, named after the step that failed.
#[derive(Debug, PartialEq, Eq, Structural)]
pub enum PullError {
    ErrNoOrigin,
    ErrFetchFailed,
    ErrNoHead,
    ErrNoTrackingRef,
    ErrAnalysisFailed,
    ErrCheckoutFailed,
    ErrRefUpdateFailed,
    ErrCleanupFailed,
}

/// How a successful pull ended: the fast-forward went through, or the
/// engine stopped deliberately without touching the repository.
#[derive(Debug, PartialEq, Eq, Structural)]
pub enum PullNotice {
    Completed,
    DetachedHead,
    ManualMergeRequired,
}

/// What reading HEAD found: a checked-out branch, or a detached HEAD.
pub enum HeadStatus {
    Detached,
    OnBranch(Vec<u8>),
}

/// The next step the caller is to perform, or a terminal outcome.
pub enum PullStep {
    /// Look up the remote named `origin`.
    FindOrigin,
    /// Fetch from origin with its default configured refspecs.
    Fetch,
    /// Read the repository's HEAD.
    ReadHead,
    /// Resolve the named tracking ref to a commit id.
    ResolveTrackingRef(Vec<u8>),
    /// Analyze the fetched remote commit against local HEAD.
    AnalyzeMerge,
    /// Check out the tree of the remote commit.
    CheckoutTree,
    /// Move the local branch ref to the remote commit id.
    UpdateRef,
    /// Clear any in-progress merge state markers.
    Cleanup,
    /// The pull ended successfully.
    Done(PullNotice),
    /// The pull failed.
    Failed(PullError),
}

/// What the caller reports back after performing a step.
pub enum PullEvent {
    OriginFound(bool),
    FetchDone(bool),
    Head(HeadStatus),
    /// Reading HEAD itself failed.
    HeadUnreadable,
    TrackingRefFound(bool),
    Merge(MergeDecision),
    /// The annotated-commit lookup or the merge analysis failed.
    AnalysisFailed,
    CheckoutDone(bool),
    RefUpdated(bool),
    CleanupDone(bool),
}

/// The mathematical model of a head status.
pub enum HeadModel {
    Detached,
    OnBranch(Seq<u8>),
}

/// The mathematical model of a pull step.
pub enum StepModel {
    FindOrigin,
    Fetch,
    ReadHead,
    ResolveTrackingRef(Seq<u8>),
    AnalyzeMerge,
    CheckoutTree,
    UpdateRef,
    Cleanup,
    Done(PullNotice),
    Failed(PullError),
}

/// The mathematical model of a pull event.
pub enum EventModel {
    OriginFound(bool),
    FetchDone(bool),
    Head(HeadModel),
    HeadUnreadable,
    TrackingRefFound(bool),
    Merge(MergeDecision),
    AnalysisFailed,
    CheckoutDone(bool),
    RefUpdated(bool),
    CleanupDone(bool),
}

impl View for HeadStatus {
    type V = HeadModel;

    open spec fn view(&self) -> HeadModel {
        match self {
            HeadStatus::Detached => HeadModel::Detached,
            HeadStatus::OnBranch(name) => HeadModel::OnBranch(name@),
        }
    }
}

impl View for PullStep {
    type V = StepModel;

    open spec fn view(&self) -> StepModel {
        match self {
            PullStep::FindOrigin => StepModel::FindOrigin,
            PullStep::Fetch => StepModel::Fetch,
            PullStep::ReadHead => StepModel::ReadHead,
            PullStep::ResolveTrackingRef(name) => StepModel::ResolveTrackingRef(name@),
            PullStep::AnalyzeMerge => StepModel::AnalyzeMerge,
            PullStep::CheckoutTree => StepModel::CheckoutTree,
            PullStep::UpdateRef => StepModel::UpdateRef,
            PullStep::Cleanup => StepModel::Cleanup,
            PullStep::Done(notice) => StepModel::Done(*notice),
            PullStep::Failed(err) => StepModel::Failed(*err),
        }
    }
}

impl View for PullEvent {
    type V = EventModel;

    open spec fn view(&self) -> EventModel {
        match self {
            PullEvent::OriginFound(ok) => EventModel::OriginFound(*ok),
            PullEvent::FetchDone(ok) => EventModel::FetchDone(*ok),
            PullEvent::Head(h) => EventModel::Head(h@),
            PullEvent::HeadUnreadable => EventModel::HeadUnreadable,
            PullEvent::TrackingRefFound(ok) => EventModel::TrackingRefFound(*ok),
            PullEvent::Merge(d) => EventModel::Merge(*d),
            PullEvent::AnalysisFailed => EventModel::AnalysisFailed,
            PullEvent::CheckoutDone(ok) => EventModel::CheckoutDone(*ok),
            PullEvent::RefUpdated(ok) => EventModel::RefUpdated(*ok),
            PullEvent::CleanupDone(ok) => EventModel::CleanupDone(*ok),
        }
    }
}

/// The bytes of `refs/remotes/origin/`.
pub open spec fn tracking_ref_prefix() -> Seq<u8> {
    seq![
        B_LOW_R, B_LOW_E, B_LOW_F, B_LOW_S, B_SLASH, B_LOW_R, B_LOW_E, B_LOW_M, B_LOW_O, B_LOW_T,
        B_LOW_E, B_LOW_S, B_SLASH, B_LOW_O, B_LOW_R, B_LOW_I, B_LOW_G, B_LOW_I, B_LOW_N, B_SLASH,
    ]
}

/// The tracking ref mirroring a branch on origin:
/// `refs/remotes/origin/<branch>`.
pub fn tracking_ref_name(branch: &[u8]) -> (r: Vec<u8>)
    ensures
        r@ == tracking_ref_prefix() + branch@,
{
    let prefix: [u8; 20] = [
        B_LOW_R, B_LOW_E, B_LOW_F, B_LOW_S, B_SLASH, B_LOW_R, B_LOW_E, B_LOW_M, B_LOW_O, B_LOW_T,
        B_LOW_E, B_LOW_S, B_SLASH, B_LOW_O, B_LOW_R, B_LOW_I, B_LOW_G, B_LOW_I, B_LOW_N, B_SLASH,
    ];
    let mut out: Vec<u8> = Vec::new();
    append_bytes(&mut out, &prefix);
    append_bytes(&mut out, branch);
    proof {
        assert(out@ =~= tracking_ref_prefix() + branch@);
    }
    out
}

/// The transition of the pull protocol: from the current step and the
/// reported event to the next step. A terminal step absorbs every event,
/// and an event that does not answer the current step leaves it unchanged.
pub open spec fn pull_next(s: StepModel, e: EventModel) -> StepModel {
    match (s, e) {
        (StepModel::FindOrigin, EventModel::OriginFound(ok)) => if ok {
            StepModel::Fetch
        } else {
            StepModel::Failed(PullError::ErrNoOrigin)
        },
        (StepModel::Fetch, EventModel::FetchDone(ok)) => if ok {
            StepModel::ReadHead
        } else {
            StepModel::Failed(PullError::ErrFetchFailed)
        },
        (StepModel::ReadHead, EventModel::Head(HeadModel::Detached)) => StepModel::Done(
            PullNotice::DetachedHead,
        ),
        (StepModel::ReadHead, EventModel::Head(HeadModel::OnBranch(name))) =>
            StepModel::ResolveTrackingRef(tracking_ref_prefix() + name),
        (StepModel::ReadHead, EventModel::HeadUnreadable) => StepModel::Failed(
            PullError::ErrNoHead,
        ),
        (StepModel::ResolveTrackingRef(_), EventModel::TrackingRefFound(ok)) => if ok {
            StepModel::AnalyzeMerge
        } else {
            StepModel::Failed(PullError::ErrNoTrackingRef)
        },
        (StepModel::AnalyzeMerge, EventModel::Merge(d)) => if d
            == MergeDecision::FastForwardable {
            StepModel::CheckoutTree
        } else {
            StepModel::Done(PullNotice::ManualMergeRequired)
        },
        (StepModel::AnalyzeMerge, EventModel::AnalysisFailed) => StepModel::Failed(
            PullError::ErrAnalysisFailed,
        ),
        (StepModel::CheckoutTree, EventModel::CheckoutDone(ok)) => if ok {
            StepModel::UpdateRef
        } else {
            StepModel::Failed(PullError::ErrCheckoutFailed)
        },
        (StepModel::UpdateRef, EventModel::RefUpdated(ok)) => if ok {
            StepModel::Cleanup
        } else {
            StepModel::Failed(PullError::ErrRefUpdateFailed)
        },
        (StepModel::Cleanup, EventModel::CleanupDone(ok)) => if ok {
            StepModel::Done(PullNotice::Completed)
        } else {
            StepModel::Failed(PullError::ErrCleanupFailed)
        },
        (other, _) => other,
    }
}

/// The first step of a pull. Every strategy begins by locating `origin`;
/// the analysis step of the machine then applies the strategy's rule
/// (fast-forward-only being the one strategy there is).
pub fn initial_pull_step(merge_option: MergeOption) -> (r: PullStep)
    ensures
        r@ == StepModel::FindOrigin,
{
    match merge_option {
        MergeOption::FastForwardOnly => PullStep::FindOrigin,
    }
}

/// Advances the pull machine by one reported event.
pub fn next_step(step: PullStep, event: PullEvent) -> (r: PullStep)
    ensures
        r@ == pull_next(step@, event@),
{
    match (step, event) {
        (PullStep::FindOrigin, PullEvent::OriginFound(ok)) => if ok {
            PullStep::Fetch
        } else {
            PullStep::Failed(PullError::ErrNoOrigin)
        },
        (PullStep::Fetch, PullEvent::FetchDone(ok)) => if ok {
            PullStep::ReadHead
        } else {
            PullStep::Failed(PullError::ErrFetchFailed)
        },
        (PullStep::ReadHead, PullEvent::Head(HeadStatus::Detached)) => PullStep::Done(
            PullNotice::DetachedHead,
        ),
        (PullStep::ReadHead, PullEvent::Head(HeadStatus::OnBranch(name))) => {
            let refname = tracking_ref_name(name.as_slice());
            PullStep::ResolveTrackingRef(refname)
        },
        (PullStep::ReadHead, PullEvent::HeadUnreadable) => PullStep::Failed(PullError::ErrNoHead),
        (PullStep::ResolveTrackingRef(refname), PullEvent::TrackingRefFound(ok)) => if ok {
            PullStep::AnalyzeMerge
        } else {
            PullStep::Failed(PullError::ErrNoTrackingRef)
        },
        (PullStep::AnalyzeMerge, PullEvent::Merge(d)) => match d {
            MergeDecision::FastForwardable => PullStep::CheckoutTree,
            _ => PullStep::Done(PullNotice::ManualMergeRequired),
        },
        (PullStep::AnalyzeMerge, PullEvent::AnalysisFailed) => PullStep::Failed(
            PullError::ErrAnalysisFailed,
        ),
        (PullStep::CheckoutTree, PullEvent::CheckoutDone(ok)) => if ok {
            PullStep::UpdateRef
        } else {
            PullStep::Failed(PullError::ErrCheckoutFailed)
        },
        (PullStep::UpdateRef, PullEvent::RefUpdated(ok)) => if ok {
            PullStep::Cleanup
        } else {
            PullStep::Failed(PullError::ErrRefUpdateFailed)
        },
        (PullStep::Cleanup, PullEvent::CleanupDone(ok)) => if ok {
            PullStep::Done(PullNotice::Completed)
        } else {
            PullStep::Failed(PullError::ErrCleanupFailed)
        },
        (other, _) => other,
    }
}

/// Whether a step is terminal: the pull has ended, well or badly.
pub fn step_is_terminal(step: &PullStep) -> (r: bool)
    ensures
        r == (step@ is Done || step@ is Failed),
{
    match step {
        PullStep::Done(_) => true,
        PullStep::Failed(_) => true,
        _ => false,
    }
}

/// A terminal step absorbs every event: once a pull has ended, nothing
/// moves it again.
pub proof fn lemma_terminal_steps_absorb(s: StepModel, e: EventModel)
    ensures
        (s is Done || s is Failed) ==> pull_next(s, e) == s,
{
}

/// A pull that finds HEAD detached ends successfully at once, and from
/// that end no event leads anywhere: the engine directs no checkout and no
/// ref update, so the working directory is left unmodified.
pub proof fn lemma_detached_head_ends_pull(e: EventModel)
    ensures
        pull_next(StepModel::ReadHead, EventModel::Head(HeadModel::Detached)) == StepModel::Done(
            PullNotice::DetachedHead,
        ),
        pull_next(StepModel::Done(PullNotice::DetachedHead), e) == StepModel::Done(
            PullNotice::DetachedHead,
        ),
{
}

/// Every failing step of the fetch phase ends the pull at the error named
/// after that step — origin missing, fetch failed, HEAD unreadable,
/// tracking ref unresolved, analysis failed — and a failed pull absorbs
/// every further event, so no checkout and no ref update is directed after
/// any of them: the working directory and the local branch ref stay as
/// they were.
pub proof fn lemma_failures_end_pull(rn: Seq<u8>, e: EventModel)
    ensures
        pull_next(StepModel::FindOrigin, EventModel::OriginFound(false)) == StepModel::Failed(
            PullError::ErrNoOrigin,
        ),
        pull_next(StepModel::Fetch, EventModel::FetchDone(false)) == StepModel::Failed(
            PullError::ErrFetchFailed,
        ),
        pull_next(StepModel::ReadHead, EventModel::HeadUnreadable) == StepModel::Failed(
            PullError::ErrNoHead,
        ),
        pull_next(StepModel::ResolveTrackingRef(rn), EventModel::TrackingRefFound(false))
            == StepModel::Failed(PullError::ErrNoTrackingRef),
        pull_next(StepModel::AnalyzeMerge, EventModel::AnalysisFailed) == StepModel::Failed(
            PullError::ErrAnalysisFailed,
        ),
        forall|err: PullError| #[trigger] pull_next(StepModel::Failed(err), e) == StepModel::Failed(
            err,
        ),
{
}

/// A merge analysis that is anything but fast-forwardable ends the pull
/// successfully with a manual-merge notice; and the engine reaches the
/// checkout and ref-update steps only through a fast-forwardable analysis,
/// so such a pull never moves the branch ref.
pub proof fn lemma_non_fast_forward_ends_pull(d: MergeDecision, s: StepModel, e: EventModel)
    ensures
        d != MergeDecision::FastForwardable ==> pull_next(
            StepModel::AnalyzeMerge,
            EventModel::Merge(d),
        ) == StepModel::Done(PullNotice::ManualMergeRequired),
        pull_next(s, e) == StepModel::CheckoutTree ==> (s == StepModel::CheckoutTree || (s
            == StepModel::AnalyzeMerge && e == EventModel::Merge(MergeDecision::FastForwardable))),
        pull_next(s, e) == StepModel::UpdateRef ==> (s == StepModel::UpdateRef || (s
            == StepModel::CheckoutTree && e == EventModel::CheckoutDone(true))),
{
}

} // verus!
