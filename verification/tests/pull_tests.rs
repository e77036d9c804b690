//! PullEngine transitions on concrete runs.

use grm::pull::{
    initial_pull_step, next_step, step_is_terminal, tracking_ref_name, HeadStatus, MergeDecision,
    MergeOption, PullError, PullEvent, PullNotice, PullStep,
};

#[test]
fn fast_forward_run_completes() {
    let step = initial_pull_step(MergeOption::FastForwardOnly);
    assert!(matches!(step, PullStep::FindOrigin));
    let step = next_step(step, PullEvent::OriginFound(true));
    assert!(matches!(step, PullStep::Fetch));
    let step = next_step(step, PullEvent::FetchDone(true));
    assert!(matches!(step, PullStep::ReadHead));
    let step = next_step(step, PullEvent::Head(HeadStatus::OnBranch(b"main".to_vec())));
    match &step {
        PullStep::ResolveTrackingRef(refname) => {
            assert_eq!(refname, &b"refs/remotes/origin/main".to_vec());
        }
        _ => panic!("expected the tracking-ref step"),
    }
    let step = next_step(step, PullEvent::TrackingRefFound(true));
    assert!(matches!(step, PullStep::AnalyzeMerge));
    let step = next_step(step, PullEvent::Merge(MergeDecision::FastForwardable));
    assert!(matches!(step, PullStep::CheckoutTree));
    let step = next_step(step, PullEvent::CheckoutDone(true));
    assert!(matches!(step, PullStep::UpdateRef));
    let step = next_step(step, PullEvent::RefUpdated(true));
    assert!(matches!(step, PullStep::Cleanup));
    let step = next_step(step, PullEvent::CleanupDone(true));
    assert!(matches!(step, PullStep::Done(PullNotice::Completed)));
    assert!(step_is_terminal(&step));
}

#[test]
fn detached_head_ends_successfully_without_mutation() {
    let step = next_step(PullStep::ReadHead, PullEvent::Head(HeadStatus::Detached));
    assert!(matches!(step, PullStep::Done(PullNotice::DetachedHead)));
    assert!(step_is_terminal(&step));
    // The finished pull directs nothing more, whatever is reported.
    let after = next_step(step, PullEvent::CheckoutDone(true));
    assert!(matches!(after, PullStep::Done(PullNotice::DetachedHead)));
}

#[test]
fn up_to_date_analysis_ends_without_moving_the_ref() {
    let step = next_step(PullStep::AnalyzeMerge, PullEvent::Merge(MergeDecision::UpToDate));
    assert!(matches!(step, PullStep::Done(PullNotice::ManualMergeRequired)));
    assert!(step_is_terminal(&step));
}

#[test]
fn diverged_analysis_ends_without_moving_the_ref() {
    let step = next_step(PullStep::AnalyzeMerge, PullEvent::Merge(MergeDecision::Diverged));
    assert!(matches!(step, PullStep::Done(PullNotice::ManualMergeRequired)));
}

#[test]
fn no_branch_analysis_ends_without_moving_the_ref() {
    let step = next_step(PullStep::AnalyzeMerge, PullEvent::Merge(MergeDecision::NoBranch));
    assert!(matches!(step, PullStep::Done(PullNotice::ManualMergeRequired)));
}

#[test]
fn missing_origin_fails() {
    let step = next_step(PullStep::FindOrigin, PullEvent::OriginFound(false));
    assert!(matches!(step, PullStep::Failed(PullError::ErrNoOrigin)));
}

#[test]
fn failed_fetch_fails() {
    let step = next_step(PullStep::Fetch, PullEvent::FetchDone(false));
    assert!(matches!(step, PullStep::Failed(PullError::ErrFetchFailed)));
}

#[test]
fn unresolved_tracking_ref_fails() {
    let step = next_step(
        PullStep::ResolveTrackingRef(b"refs/remotes/origin/main".to_vec()),
        PullEvent::TrackingRefFound(false),
    );
    assert!(matches!(step, PullStep::Failed(PullError::ErrNoTrackingRef)));
}

#[test]
fn failed_checkout_fails() {
    let step = next_step(PullStep::CheckoutTree, PullEvent::CheckoutDone(false));
    assert!(matches!(step, PullStep::Failed(PullError::ErrCheckoutFailed)));
}

#[test]
fn failed_ref_update_fails() {
    let step = next_step(PullStep::UpdateRef, PullEvent::RefUpdated(false));
    assert!(matches!(step, PullStep::Failed(PullError::ErrRefUpdateFailed)));
}

#[test]
fn failed_cleanup_fails() {
    let step = next_step(PullStep::Cleanup, PullEvent::CleanupDone(false));
    assert!(matches!(step, PullStep::Failed(PullError::ErrCleanupFailed)));
}

#[test]
fn mismatched_event_leaves_the_step_unchanged() {
    let step = next_step(PullStep::Fetch, PullEvent::CheckoutDone(true));
    assert!(matches!(step, PullStep::Fetch));
}

#[test]
fn tracking_ref_name_prefixes_the_branch() {
    assert_eq!(tracking_ref_name(b"develop"), b"refs/remotes/origin/develop".to_vec());
}

#[test]
fn unreadable_head_fails() {
    let step = next_step(PullStep::ReadHead, PullEvent::HeadUnreadable);
    assert!(matches!(step, PullStep::Failed(PullError::ErrNoHead)));
}

#[test]
fn failed_merge_analysis_fails() {
    let step = next_step(PullStep::AnalyzeMerge, PullEvent::AnalysisFailed);
    assert!(matches!(step, PullStep::Failed(PullError::ErrAnalysisFailed)));
}
