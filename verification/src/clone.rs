//! CloneEngine: the data and reporting of a full clone into a target path.
//!
//! The network fetch and checkout are the transport's work; this module
//! owns what the engine decides and reports — the operation's state, the
//! announcement of the destination, and which path a finished clone
//! reports (the working directory, or the storage path of a bare
//! repository).

use vstd::prelude::*;

use crate::bytes::{
    append_bytes, B_LOW_G, B_LOW_I, B_LOW_L, B_LOW_N, B_LOW_O, B_LOW_T, B_QUOTE, B_SPACE,
    B_UP_C,
};
use crate::progress::ProgressTracker;

verus! {

/// One clone operation: the target path, the remote address, and the
/// progress state the transport's callbacks drive.
pub struct GitClone {
    pub progress: ProgressTracker,
    pub into: Vec<u8>,
    pub remote: Vec<u8>,
}

impl GitClone {
    /// A fresh clone operation into `path` from `remote`, its progress
    /// tracker starting at the target path with nothing transferred.
    pub fn new(path: Vec<u8>, _ssh: bool, remote: Vec<u8>) -> (g: GitClone)
        ensures
            g.into@ == path@,
            g.remote@ == remote@,
            g.progress.working_path@ == path@,
            !g.progress.line_open,
            g.progress.total_units == 0,
            g.progress.completed_units == 0,
    {
        let working_path = path.clone();
        proof {
            assert(working_path@ =~= path@);
        }
        let progress = ProgressTracker::new(working_path);
        GitClone { progress, into: path, remote }
    }

    /// The announcement of the destination: `Cloning into '<path>'`.
    pub fn announcement(&self) -> (r: Vec<u8>)
        ensures
            r@ == announce_prefix() + self.into@ + seq![B_QUOTE],
    {
        let prefix: [u8; 14] = [
            B_UP_C, B_LOW_L, B_LOW_O, B_LOW_N, B_LOW_I, B_LOW_N, B_LOW_G, B_SPACE, B_LOW_I,
            B_LOW_N, B_LOW_T, B_LOW_O, B_SPACE, B_QUOTE,
        ];
        let mut out: Vec<u8> = Vec::new();
        append_bytes(&mut out, &prefix);
        append_bytes(&mut out, self.into.as_slice());
        out.push(B_QUOTE);
        proof {
            assert(out@ =~= announce_prefix() + self.into@ + seq![B_QUOTE]);
        }
        out
    }
}

/// The bytes of `Cloning into '`.
pub open spec fn announce_prefix() -> Seq<u8> {
    seq![
        B_UP_C, B_LOW_L, B_LOW_O, B_LOW_N, B_LOW_I, B_LOW_N, B_LOW_G, B_SPACE, B_LOW_I, B_LOW_N,
        B_LOW_T, B_LOW_O, B_SPACE, B_QUOTE,
    ]
}

/// The path a finished clone reports: the repository's working directory,
/// or — for a bare repository, which has none — its storage path.
pub fn completion_path(workdir: Option<Vec<u8>>, repo_path: Vec<u8>) -> (r: Vec<u8>)
    ensures
        r@ == (match workdir {
            Some(d) => d@,
            None => repo_path@,
        }),
{
    match workdir {
        Some(d) => d,
        None => repo_path,
    }
}

} // verus!
