//! PathResolver: the deterministic local checkout path for a parsed remote.
//!
//! The path is `root/<host>/<project-path>`; an address whose project path
//! is empty degenerates to `root/<host>`. A project path holding a
//! parent-directory segment (`..`) is rejected, so the resolved path always
//! stays inside the workspace root.

use vstd::prelude::*;

use crate::bytes::{append_bytes, has_prefix, B_DOT, B_SLASH};
use crate::remote::ParsedRemote;

verus! {

/// The resolved workspace path: `root/<host>/<project>`, or `root/<host>`
/// when the project path is empty.
pub open spec fn resolved_path(root: Seq<u8>, host: Seq<u8>, project: Seq<u8>) -> Seq<u8> {
    if project.len() == 0 {
        root + seq![B_SLASH] + host
    } else {
        root + seq![B_SLASH] + host + seq![B_SLASH] + project
    }
}

/// A parent-directory segment `..` stands at `i`: two dots bounded by the
/// ends of the path or by `/` on both sides.
pub open spec fn is_parent_segment_at(p: Seq<u8>, i: int) -> bool {
    &&& 0 <= i
    &&& i + 2 <= p.len()
    &&& p[i] == B_DOT
    &&& p[i + 1] == B_DOT
    &&& (i == 0 || p[i - 1] == B_SLASH)
    &&& (i + 2 == p.len() || p[i + 2] == B_SLASH)
}

/// True when the project path holds a parent-directory segment.
pub open spec fn has_parent_segment(p: Seq<u8>) -> bool {
    exists|i: int| is_parent_segment_at(p, i)
}

/// Scans a project path for a `..` segment.
pub fn contains_parent_segment(p: &[u8]) -> (r: bool)
    ensures
        r == has_parent_segment(p@),
{
    let n = p.len();
    if n < 2 {
        proof {
            if has_parent_segment(p@) {
                let i = choose|i: int| is_parent_segment_at(p@, i);
            }
        }
        return false;
    }
    let mut i: usize = 0;
    while i <= n - 2
        invariant
            0 <= i,
            i <= n - 1,
            n == p@.len(),
            n >= 2,
            forall|j: int| 0 <= j < i ==> !is_parent_segment_at(p@, j),
        decreases n - i,
    {
        if p[i] == B_DOT && p[i + 1] == B_DOT && (i == 0 || p[i - 1] == B_SLASH) && (i == n - 2
            || p[i + 2] == B_SLASH) {
            proof {
                assert(is_parent_segment_at(p@, i as int));
            }
            return true;
        }
        assert(!is_parent_segment_at(p@, i as int));
        i = i + 1;
    }
    proof {
        if has_parent_segment(p@) {
            let j = choose|j: int| is_parent_segment_at(p@, j);
            assert(j + 2 <= n);
            assert(0 <= j < i);
        }
    }
    false
}

/// Failure of PathResolver: the project path would escape the root.
#[derive(Debug, PartialEq, Eq, Structural)]
pub enum PathError {
    ErrParentTraversal,
}

/// Combines the workspace root with a parsed remote into the local checkout
/// path, rejecting project paths that hold a `..` segment. The result is a
/// function of the root and the parsed remote alone; it always extends
/// `root/`.
pub fn resolve_workspace_path(root: &[u8], remote: &ParsedRemote) -> (r: Result<
    Vec<u8>,
    PathError,
>)
    ensures
        (r matches Ok(path) ==> path@ == resolved_path(root@, remote.host@, remote.project_path@)
            && has_prefix(path@, root@ + seq![B_SLASH])),
        r is Err <==> has_parent_segment(remote.project_path@),
{
    if contains_parent_segment(remote.project_path.as_slice()) {
        return Err(PathError::ErrParentTraversal);
    }
    let mut out: Vec<u8> = Vec::new();
    append_bytes(&mut out, root);
    out.push(B_SLASH);
    append_bytes(&mut out, remote.host.as_slice());
    if remote.project_path.len() > 0 {
        out.push(B_SLASH);
        append_bytes(&mut out, remote.project_path.as_slice());
    }
    proof {
        assert(out@ =~= resolved_path(root@, remote.host@, remote.project_path@));
        assert(out@.take(root@.len() + 1 as int) =~= root@ + seq![B_SLASH]);
    }
    Ok(out)
}

/// PathResolver is a pure function: the resolved path depends on the root,
/// host and project path alone, so equal inputs always yield the equal
/// path, whatever the state of the filesystem or the order of calls.
pub proof fn lemma_resolver_pure(
    root1: Seq<u8>,
    host1: Seq<u8>,
    project1: Seq<u8>,
    root2: Seq<u8>,
    host2: Seq<u8>,
    project2: Seq<u8>,
)
    requires
        root1 == root2,
        host1 == host2,
        project1 == project2,
    ensures
        resolved_path(root1, host1, project1) == resolved_path(root2, host2, project2),
{
}

} // verus!
