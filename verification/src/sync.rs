//! WorkspaceSynchronizer: the clone/replace/update decision policy of
//! `get`.
//!
//! The policy, in strict order: a missing remote address is a hard error;
//! the target path is resolved from the root and the parsed address; a
//! path that does not exist is cloned fresh, the flags notwithstanding; an
//! existing path is removed-then-recloned under `replace`, pulled under
//! `update`, and left alone otherwise. A removal that fails aborts the
//! invocation before any clone is attempted.

use vstd::prelude::*;

use crate::commands::Get;
use crate::remote::{parse_remote, parse_remote_spec};
use crate::resolve::{has_parent_segment, resolve_workspace_path, resolved_path};

verus! {

/// What `get` directs once the target path's existence is known.
#[derive(Debug, PartialEq, Eq, Structural)]
pub enum SyncAction {
    /// Clone the remote into the (not yet existing) path.
    CloneFresh,
    /// Remove the existing checkout, then clone.
    RemoveThenClone,
    /// Fast-forward-update the existing checkout.
    Update,
    /// Leave the existing checkout as it is: a successful no-op.
    Nothing,
}

/// A failure of `get` before any engine runs.
#[derive(Debug)]
pub enum GetError {
    /// No remote address was provided.
    ErrNoRemote,
    /// The address does not parse, or has no host.
    ErrMalformedRemote,
    /// The project path would escape the workspace root.
    ErrPathEscapesRoot,
    /// Removing the existing checkout failed; the filesystem's own message
    /// is carried along.
    ErrRemoveFailed(Vec<u8>),
}

/// The decision policy of `get`: a missing path is always cloned fresh —
/// `update` and `replace` are ignored, there being nothing to update or
/// replace; an existing path is replaced under `replace`, updated under
/// `update`, and untouched otherwise.
pub open spec fn sync_action_of(exists: bool, update: bool, replace: bool) -> SyncAction {
    if !exists {
        SyncAction::CloneFresh
    } else if replace {
        SyncAction::RemoveThenClone
    } else if update {
        SyncAction::Update
    } else {
        SyncAction::Nothing
    }
}

/// Decides what to do with the target path, from its existence and the
/// request's flags.
pub fn decide_action(exists: bool, update: bool, replace: bool) -> (a: SyncAction)
    ensures
        a == sync_action_of(exists, update, replace),
{
    if !exists {
        SyncAction::CloneFresh
    } else if replace {
        SyncAction::RemoveThenClone
    } else if update {
        SyncAction::Update
    } else {
        SyncAction::Nothing
    }
}

/// Resolves a `get` request to the local target path: requires an address,
/// parses it, and joins the workspace root with the parsed host and
/// project path. Fails exactly on a missing address, an address that does
/// not parse (or has no host), or a project path holding a `..` segment.
pub fn resolve_target(root: &[u8], request: &Get) -> (r: Result<Vec<u8>, GetError>)
    ensures
        (match request.remote {
            Option::None => r matches Err(e) && e is ErrNoRemote,
            Option::Some(addr) => match parse_remote_spec(addr@) {
                Option::None => r matches Err(e) && e is ErrMalformedRemote,
                Option::Some(hp) => if has_parent_segment(hp.1) {
                    r matches Err(e) && e is ErrPathEscapesRoot
                } else {
                    r matches Ok(path) && path@ == resolved_path(root@, hp.0, hp.1)
                },
            },
        }),
{
    let addr = match &request.remote {
        Option::Some(addr) => addr,
        Option::None => {
            return Err(GetError::ErrNoRemote);
        },
    };
    let parsed = match parse_remote(addr.as_slice()) {
        Ok(parsed) => parsed,
        Err(_) => {
            return Err(GetError::ErrMalformedRemote);
        },
    };
    match resolve_workspace_path(root, &parsed) {
        Ok(path) => Ok(path),
        Err(_) => Err(GetError::ErrPathEscapesRoot),
    }
}

/// How the filesystem answered the removal that `RemoveThenClone` directs.
pub enum RemoveOutcome {
    Removed,
    RemoveFailed(Vec<u8>),
}

/// After the removal step of `RemoveThenClone`: a clone follows only a
/// removal that succeeded; a removal failure aborts the invocation with
/// the filesystem's own error, and no clone is attempted.
pub fn after_removal(outcome: RemoveOutcome) -> (r: Result<SyncAction, GetError>)
    ensures
        (outcome matches RemoveOutcome::Removed ==> r matches Ok(a) && a
            == SyncAction::CloneFresh),
        (outcome matches RemoveOutcome::RemoveFailed(msg) ==> r matches Err(e) && (e matches
        GetError::ErrRemoveFailed(m) && m@ == msg@)),
{
    match outcome {
        RemoveOutcome::Removed => Ok(SyncAction::CloneFresh),
        RemoveOutcome::RemoveFailed(msg) => Err(GetError::ErrRemoveFailed(msg)),
    }
}

/// A direct fresh clone is directed only at a path that does not exist —
/// the clone engine's precondition; an existing path is only ever cloned
/// into after `after_removal` has seen its removal succeed.
pub proof fn lemma_clone_only_into_missing_path(exists: bool, update: bool, replace: bool)
    ensures
        sync_action_of(exists, update, replace) == SyncAction::CloneFresh ==> !exists,
{
}

/// On a path that does not exist, `get` is clone-only: whatever the
/// `update` and `replace` flags say, the directed action is a fresh clone.
pub proof fn lemma_missing_path_clones(update: bool, replace: bool)
    ensures
        sync_action_of(false, update, replace) == SyncAction::CloneFresh,
{
}

/// With `replace` set on an existing path, the directed action is to
/// remove the old checkout first — never a direct clone — whatever
/// `update` says; `after_removal` then admits a clone only once the
/// removal has succeeded.
pub proof fn lemma_replace_removes_before_clone(update: bool)
    ensures
        sync_action_of(true, update, true) == SyncAction::RemoveThenClone,
        sync_action_of(true, update, true) != SyncAction::CloneFresh,
{
}

/// On an existing path with neither `replace` nor `update`, `get` directs
/// nothing at all: no clone, no removal, no pull — a successful no-op.
pub proof fn lemma_existing_path_without_flags_is_noop()
    ensures
        sync_action_of(true, false, false) == SyncAction::Nothing,
{
}

} // verus!
