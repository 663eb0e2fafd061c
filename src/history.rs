//! The decisions of a history rewrite that changes the message of one
//! commit. The caller replays the commits that follow the target's parent
//! and reports what the backend did; each event gives the next action.
//! A failure at any point leads to an abort, so that the history is either
//! rewritten whole or left as it was.

use vstd::prelude::*;
use crate::commit::CommitId;
use crate::error::{GitError, GitErrorCode};

verus! {

/// What the backend reports.
pub enum RewriteEvent {
    /// The next commit to replay.
    Operation(CommitId),
    /// No commit is left to replay.
    NoMoreOperations,
    /// The replayed commit was written, with this new id.
    Committed(CommitId),
    /// The rewrite was made the current history.
    Finished,
    /// The rewrite was abandoned and the old history restored.
    Aborted,
    /// The backend failed, with its message.
    Failed(String),
}

/// What the caller does next.
pub enum RewriteAction {
    /// Fetch the next commit to replay.
    NextOperation,
    /// Write the replayed commit, with this message, or with its own.
    Commit(Option<String>),
    /// Make the rewritten history current.
    Finish,
    /// Abandon the rewrite.
    Abort,
    /// Stop, with the new id of the target or the error.
    Return(Result<CommitId, GitError>),
}

/// Where a rewrite stands.
pub enum RewritePhase {
    /// Commits are being replayed; `at_target` tells whether the commit in
    /// hand is the target, `found` holds the target's new id once written.
    Replaying { found: Option<CommitId>, at_target: bool },
    /// Every commit was replayed; the history is being made current.
    Finishing(CommitId),
    /// A step failed; the rewrite is being abandoned.
    Aborting(GitError),
    /// The rewrite is over; its outcome was returned.
    Done,
}

/// A rewrite of the message of `target`.
pub struct Rewrite {
    target: CommitId,
    message: String,
    phase: RewritePhase,
}

impl Rewrite {
    pub closed spec fn spec_target(&self) -> Seq<char> {
        self.target@
    }

    pub closed spec fn spec_message(&self) -> Seq<char> {
        self.message@
    }

    pub closed spec fn spec_phase(&self) -> RewritePhase {
        self.phase
    }

    /// Starts a rewrite; the first action is to fetch a commit to replay.
    pub fn start(target: CommitId, message: &str) -> (r: (Rewrite, RewriteAction))
        ensures
            r.0.spec_target() == target@,
            r.0.spec_message() == message@,
            r.0.spec_phase() matches RewritePhase::Replaying { found: None, at_target: false },
            r.1 is NextOperation,
    {
        (
            Rewrite {
                target,
                message: message.to_owned(),
                phase: RewritePhase::Replaying { found: None, at_target: false },
            },
            RewriteAction::NextOperation,
        )
    }

    pub fn phase(&self) -> (r: &RewritePhase)
        ensures
            *r == self.spec_phase(),
    {
        &self.phase
    }

    /// The next action after an event.
    ///
    /// While replaying, the target is written with the new message and every
    /// other commit with its own; when no commit is left, the rewrite is
    /// finished if the target was written, abandoned otherwise. A failure,
    /// including one to finish, abandons the rewrite, and once it is
    /// abandoned the error is returned.
    pub fn step(self, event: RewriteEvent) -> (r: (Rewrite, RewriteAction))
        ensures
            r.0.spec_target() == self.spec_target(),
            r.0.spec_message() == self.spec_message(),
            match (self.spec_phase(), event) {
                (RewritePhase::Done, _) => r.0.spec_phase() is Done
                    && (r.1 matches RewriteAction::Return(Err(e)) && e.spec_code() == GitErrorCode::RepoOpFailed),
                (RewritePhase::Aborting(e), RewriteEvent::Aborted) => r.0.spec_phase() is Done
                    && r.1 == RewriteAction::Return(Err(e)),
                (RewritePhase::Aborting(e), RewriteEvent::Failed(_)) => r.0.spec_phase() is Done
                    && r.1 == RewriteAction::Return(Err(e)),
                (RewritePhase::Aborting(_), _) => r.0.spec_phase() == self.spec_phase() && r.1 is Abort,
                (RewritePhase::Finishing(id), RewriteEvent::Finished) => r.0.spec_phase() is Done
                    && r.1 == RewriteAction::Return(Ok(id)),
                (RewritePhase::Replaying { found, at_target: _ }, RewriteEvent::Operation(c)) => {
                    &&& r.0.spec_phase() == (RewritePhase::Replaying {
                        found,
                        at_target: c@ == self.spec_target(),
                    })
                    &&& c@ == self.spec_target() ==> (r.1 matches RewriteAction::Commit(Some(m))
                        && m@ == self.spec_message())
                    &&& c@ != self.spec_target() ==> r.1 == RewriteAction::Commit(None)
                },
                (RewritePhase::Replaying { found, at_target }, RewriteEvent::Committed(c)) => {
                    &&& r.0.spec_phase() == (RewritePhase::Replaying {
                        found: if at_target { Some(c) } else { found },
                        at_target: false,
                    })
                    &&& r.1 is NextOperation
                },
                (RewritePhase::Replaying { found: Some(id), at_target: _ }, RewriteEvent::NoMoreOperations) => {
                    r.0.spec_phase() == RewritePhase::Finishing(id) && r.1 is Finish
                },
                (RewritePhase::Replaying { found: None, at_target: _ }, RewriteEvent::NoMoreOperations) => {
                    (r.0.spec_phase() matches RewritePhase::Aborting(e)
                        && e.spec_code() == GitErrorCode::RepoOpFailed) && r.1 is Abort
                },
                (_, RewriteEvent::Failed(m)) => (r.0.spec_phase() matches RewritePhase::Aborting(e)
                    && e.spec_code() == GitErrorCode::RepoOpFailed && e.spec_message() == m@)
                    && r.1 is Abort,
                (_, _) => (r.0.spec_phase() matches RewritePhase::Aborting(e)
                    && e.spec_code() == GitErrorCode::RepoOpFailed) && r.1 is Abort,
            },
    {
        let Rewrite { target, message, phase } = self;
        let (next, action) = match phase {
            RewritePhase::Done => {
                (RewritePhase::Done, RewriteAction::Return(Err(GitError::repo_op_failed("The rewrite is over"))))
            },
            RewritePhase::Aborting(e) => match event {
                RewriteEvent::Aborted => (RewritePhase::Done, RewriteAction::Return(Err(e))),
                RewriteEvent::Failed(_) => (RewritePhase::Done, RewriteAction::Return(Err(e))),
                _ => (RewritePhase::Aborting(e), RewriteAction::Abort),
            },
            RewritePhase::Finishing(id) => match event {
                RewriteEvent::Finished => (RewritePhase::Done, RewriteAction::Return(Ok(id))),
                RewriteEvent::Failed(m) => {
                    (RewritePhase::Aborting(GitError::repo_op_failed(m.as_str())), RewriteAction::Abort)
                },
                _ => (
                    RewritePhase::Aborting(GitError::repo_op_failed("Unexpected event while finishing")),
                    RewriteAction::Abort,
                ),
            },
            RewritePhase::Replaying { found, at_target } => match event {
                RewriteEvent::Operation(c) => {
                    let hit = c.same(&target);
                    let a = if hit {
                        RewriteAction::Commit(Some(message.clone()))
                    } else {
                        RewriteAction::Commit(None)
                    };
                    (RewritePhase::Replaying { found, at_target: hit }, a)
                },
                RewriteEvent::Committed(c) => {
                    let f = if at_target {
                        Some(c)
                    } else {
                        found
                    };
                    (RewritePhase::Replaying { found: f, at_target: false }, RewriteAction::NextOperation)
                },
                RewriteEvent::NoMoreOperations => match found {
                    Some(id) => (RewritePhase::Finishing(id), RewriteAction::Finish),
                    None => (
                        RewritePhase::Aborting(GitError::repo_op_failed("Commit unreachable")),
                        RewriteAction::Abort,
                    ),
                },
                RewriteEvent::Failed(m) => {
                    (RewritePhase::Aborting(GitError::repo_op_failed(m.as_str())), RewriteAction::Abort)
                },
                _ => (
                    RewritePhase::Aborting(GitError::repo_op_failed("Unexpected event while replaying")),
                    RewriteAction::Abort,
                ),
            },
        };
        (Rewrite { target, message, phase: next }, action)
    }
}

} // verus!
