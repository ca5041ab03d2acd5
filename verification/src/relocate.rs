//! The relocation strategy: move a file or a directory tree to a new path,
//! falling back to an external tool when an in-place rename is impossible
//! (a cross-device move, most often).
//!
//! The caller attempts the rename, spawns the fallback tool when this
//! module asks for one, and hands the tool's outcome back; this module
//! decides which fallback applies and whether an outcome counts as success.
//! The transition relations at the end state what each step does to the
//! trees at the two paths, and the closing lemma shows that a successful
//! run leaves the source empty and the destination holding the source's
//! tree unchanged.

use crate::tree::FsNode;
use crate::tree::file_count;
use crate::tree::total_size;
use vstd::prelude::*;

verus! {

/// What stands at the source path: a regular file or a directory tree.
#[derive(Clone, Copy, Debug, PartialEq, Eq, Structural)]
pub enum SourceKind {
    File,
    Directory,
}

/// The next step of a relocation after the in-place rename was attempted.
#[derive(Clone, Copy, Debug, PartialEq, Eq, Structural)]
pub enum RelocateAction {
    /// The rename went through; the move is complete.
    Finish,
    /// Run the external move tool on the file.
    RunFileMove,
    /// Run the external recursive copy-with-move tool on the directory.
    RunDirCopy,
}

/// How a spawned fallback tool ended.
#[derive(Debug, PartialEq, Eq)]
pub enum ProcessOutcome {
    /// The tool could not be started at all (missing binary, permissions).
    LaunchFailed,
    /// The tool ran to its end: its exit code, when the platform reports
    /// one, and its captured output streams.
    Finished { exit_code: Option<i32>, stdout: Vec<u8>, stderr: Vec<u8> },
}

/// Why a relocation failed. A tool that could not be started is kept apart
/// from one that ran and reported failure, so a caller can tell environment
/// misconfiguration from a genuine copy failure.
#[derive(Debug, PartialEq, Eq)]
pub enum RelocateError {
    /// The external move tool could not be started.
    MoveToolLaunch,
    /// The external move tool ran and reported failure.
    MoveToolFailed { exit_code: Option<i32>, stdout: Vec<u8>, stderr: Vec<u8> },
    /// The external directory-copy tool could not be started.
    CopyToolLaunch,
    /// The external directory-copy tool ran and reported failure.
    CopyToolFailed { exit_code: Option<i32>, stdout: Vec<u8>, stderr: Vec<u8> },
}

/// The directory-copy tool reports success through any exit code strictly
/// below this threshold (the tool's own convention).
pub const DIR_COPY_FAILURE_THRESHOLD: i32 = 8;

/// Which step follows the rename attempt: nothing more on success, else the
/// fallback that fits what stands at the source.
pub open spec fn spec_plan_after_rename(rename_ok: bool, kind: SourceKind) -> RelocateAction {
    if rename_ok {
        RelocateAction::Finish
    } else if kind == SourceKind::File {
        RelocateAction::RunFileMove
    } else {
        RelocateAction::RunDirCopy
    }
}

/// The move tool succeeded: it ran and exited with status zero.
pub open spec fn file_move_succeeded(o: ProcessOutcome) -> bool {
    o matches ProcessOutcome::Finished { exit_code, .. } && exit_code == Some(0i32)
}

/// The directory-copy tool succeeded: it ran and exited with a code
/// strictly below the failure threshold.
pub open spec fn dir_copy_succeeded(o: ProcessOutcome) -> bool {
    &&& o matches ProcessOutcome::Finished { exit_code, .. }
    &&& exit_code matches Some(c)
    &&& c < DIR_COPY_FAILURE_THRESHOLD
}

/// How a move-tool outcome is reported to the caller.
pub open spec fn spec_classify_file_move(o: ProcessOutcome) -> Result<(), RelocateError> {
    match o {
        ProcessOutcome::LaunchFailed => Err(RelocateError::MoveToolLaunch),
        ProcessOutcome::Finished { exit_code, stdout, stderr } => {
            if exit_code == Some(0i32) {
                Ok(())
            } else {
                Err(RelocateError::MoveToolFailed { exit_code, stdout, stderr })
            }
        },
    }
}

/// How a directory-copy-tool outcome is reported to the caller.
pub open spec fn spec_classify_dir_copy(o: ProcessOutcome) -> Result<(), RelocateError> {
    match o {
        ProcessOutcome::LaunchFailed => Err(RelocateError::CopyToolLaunch),
        ProcessOutcome::Finished { exit_code, stdout, stderr } => {
            if exit_code matches Some(c) && c < DIR_COPY_FAILURE_THRESHOLD {
                Ok(())
            } else {
                Err(RelocateError::CopyToolFailed { exit_code, stdout, stderr })
            }
        },
    }
}

/// The result of a whole relocation run, given how the rename attempt went
/// and, where one was needed, how the fallback tool ended.
pub open spec fn spec_relocate_result(
    kind: SourceKind,
    rename_ok: bool,
    fallback: ProcessOutcome,
) -> Result<(), RelocateError> {
    match spec_plan_after_rename(rename_ok, kind) {
        RelocateAction::Finish => Ok(()),
        RelocateAction::RunFileMove => spec_classify_file_move(fallback),
        RelocateAction::RunDirCopy => spec_classify_dir_copy(fallback),
    }
}

/// Which step follows the rename attempt.
pub fn plan_after_rename(rename_ok: bool, kind: SourceKind) -> (a: RelocateAction)
    ensures
        a == spec_plan_after_rename(rename_ok, kind),
{
    if rename_ok {
        RelocateAction::Finish
    } else {
        match kind {
            SourceKind::File => RelocateAction::RunFileMove,
            SourceKind::Directory => RelocateAction::RunDirCopy,
        }
    }
}

/// Classifies the move tool's outcome: success exactly on exit status zero,
/// a launch failure kept apart from a reported failure, and the captured
/// output carried into the error.
pub fn classify_file_move(o: ProcessOutcome) -> (r: Result<(), RelocateError>)
    ensures
        r == spec_classify_file_move(o),
        r is Ok <==> file_move_succeeded(o),
{
    match o {
        ProcessOutcome::LaunchFailed => Err(RelocateError::MoveToolLaunch),
        ProcessOutcome::Finished { exit_code, stdout, stderr } => {
            let ok = match exit_code {
                Some(c) => c == 0,
                None => false,
            };
            if ok {
                Ok(())
            } else {
                Err(RelocateError::MoveToolFailed { exit_code, stdout, stderr })
            }
        },
    }
}

/// Classifies the directory-copy tool's outcome: success exactly on an exit
/// code strictly below the failure threshold, a launch failure kept apart
/// from a reported failure, and the captured output carried into the error.
pub fn classify_dir_copy(o: ProcessOutcome) -> (r: Result<(), RelocateError>)
    ensures
        r == spec_classify_dir_copy(o),
        r is Ok <==> dir_copy_succeeded(o),
{
    match o {
        ProcessOutcome::LaunchFailed => Err(RelocateError::CopyToolLaunch),
        ProcessOutcome::Finished { exit_code, stdout, stderr } => {
            let ok = match exit_code {
                Some(c) => c < DIR_COPY_FAILURE_THRESHOLD,
                None => false,
            };
            if ok {
                Ok(())
            } else {
                Err(RelocateError::CopyToolFailed { exit_code, stdout, stderr })
            }
        },
    }
}

/// The trees standing at the two paths of a relocation: what the source
/// holds and what the destination holds, or nothing where no such path
/// exists.
pub struct TreePair {
    pub source: Option<FsNode>,
    pub dest: Option<FsNode>,
}

/// A completed move: the source is gone and the destination holds whatever
/// the source held.
pub open spec fn moved(pre: TreePair) -> TreePair {
    TreePair { source: None, dest: pre.source }
}

/// What the rename attempt does to the trees: a move when it succeeds,
/// nothing at all when it fails.
pub open spec fn rename_transition(pre: TreePair, post: TreePair, ok: bool) -> bool {
    if ok {
        post == moved(pre)
    } else {
        post == pre
    }
}

/// What the fallback move tool does to the trees: a move when it succeeds;
/// after a failure nothing is promised (the paths may be left partially
/// populated, and the caller decides what to do).
pub open spec fn file_move_transition(pre: TreePair, post: TreePair, o: ProcessOutcome) -> bool {
    file_move_succeeded(o) ==> post == moved(pre)
}

/// What the fallback directory-copy tool does to the trees: a move when it
/// succeeds; after a failure nothing is promised.
pub open spec fn dir_copy_transition(pre: TreePair, post: TreePair, o: ProcessOutcome) -> bool {
    dir_copy_succeeded(o) ==> post == moved(pre)
}

/// What a whole relocation run does to the trees: the rename's move when no
/// fallback was needed, else whatever the fallback tool that the plan chose
/// did.
pub open spec fn relocate_run_transition(
    pre: TreePair,
    post: TreePair,
    kind: SourceKind,
    rename_ok: bool,
    fallback: ProcessOutcome,
) -> bool {
    match spec_plan_after_rename(rename_ok, kind) {
        RelocateAction::Finish => rename_transition(pre, post, true),
        RelocateAction::RunFileMove => file_move_transition(pre, post, fallback),
        RelocateAction::RunDirCopy => dir_copy_transition(pre, post, fallback),
    }
}

/// After a relocation run that reports success, the source path holds
/// nothing any more and the destination holds exactly the tree the source
/// held before, so the destination's file count and total size are those
/// the source had before the move.
pub proof fn lemma_relocate_preserves_stats(
    t: FsNode,
    dest0: Option<FsNode>,
    post: TreePair,
    kind: SourceKind,
    rename_ok: bool,
    fallback: ProcessOutcome,
)
    requires
        spec_relocate_result(kind, rename_ok, fallback) is Ok,
        relocate_run_transition(
            TreePair { source: Some(t), dest: dest0 },
            post,
            kind,
            rename_ok,
            fallback,
        ),
    ensures
        post.source is None,
        post.dest == Some(t),
        post.dest matches Some(d) && file_count(d) == file_count(t) && total_size(d)
            == total_size(t),
{
}

} // verus!
