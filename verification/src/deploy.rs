//! The decision logic of the deployment helper: the path of the
//! deployment tooling, and how to read the snapshot-metadata query that
//! the snapshotter purge polls. Running the commands is the binary's job.

use vstd::prelude::*;

use crate::text::{ascii_bytes, ascii_bytes_of, bytes_eq, count_byte, trim_trailing,
    trim_trailing_bytes, count_byte_occurrences};

verus! {

use vstd::string::StringExecFns;

/// The deployment-tooling decision logic.
#[derive(Debug)]
pub struct Deploy {}

/// What one poll of the snapshot-metadata store found.
#[derive(Clone, Copy, Debug, PartialEq, Eq, Structural)]
pub enum SnapshotterGcPoll {
    /// No snapshot metadata is left; the purge is done. A store that never
    /// held the snapshotter's bucket counts as cleared.
    Cleared,
    /// The query itself failed.
    Failed,
    /// Metadata entries remain; the count of line breaks between them is
    /// kept for diagnostics.
    Pending(u64),
}

/// How a metadata query's outcome is read: a failing query is tolerated
/// only when it names a missing bucket; an empty listing means cleared;
/// anything else is still pending.
pub open spec fn gc_poll_spec(success: bool, exit_code: Option<i32>, stdout: Seq<u8>) -> SnapshotterGcPoll {
    let trimmed = trim_trailing(stdout, 10);
    if !success {
        if exit_code == Some(1i32) && trimmed == ascii_bytes_of("bucket not found"@) {
            SnapshotterGcPoll::Cleared
        } else {
            SnapshotterGcPoll::Failed
        }
    } else if trimmed.len() == 0 {
        SnapshotterGcPoll::Cleared
    } else {
        SnapshotterGcPoll::Pending(count_byte(trimmed, 10) as u64)
    }
}

impl Deploy {
    /// Where the deployment tooling lives, beside the project root.
    pub fn deploy_root(proj_root: &str) -> (r: String)
        ensures
            r@ == proj_root@ + "/../deploy"@,
    {
        let mut path = proj_root.to_owned();
        path.append("/../deploy");
        path
    }

    /// Reads one poll of the snapshot-metadata store: the query's success,
    /// its exit code, and its output with the trailing line break removed.
    pub fn snapshotter_gc_poll(success: bool, exit_code: Option<i32>, stdout: &[u8]) -> (r:
        SnapshotterGcPoll)
        ensures
            r == gc_poll_spec(success, exit_code, stdout@),
    {
        let trimmed = trim_trailing_bytes(stdout, 10);
        if !success {
            let code_is_one = match exit_code {
                Some(c) => c == 1,
                None => false,
            };
            let marker = ascii_bytes("bucket not found");
            proof {
                reveal_strlit("bucket not found");
            }
            if code_is_one && bytes_eq(trimmed.as_slice(), marker.as_slice()) {
                SnapshotterGcPoll::Cleared
            } else {
                SnapshotterGcPoll::Failed
            }
        } else if trimmed.len() == 0 {
            proof {
                assert(trimmed@ =~= Seq::<u8>::empty());
            }
            SnapshotterGcPoll::Cleared
        } else {
            let count = count_byte_occurrences(trimmed.as_slice(), 10);
            proof {
                crate::text::lemma_count_byte_le_len(trimmed@, 10);
            }
            SnapshotterGcPoll::Pending(count as u64)
        }
    }
}

} // verus!
