//! The operations as exchanges with the host.
//!
//! An operation begins with one request. Each answer of the host either
//! leads to a second request or finishes the operation, and no operation
//! asks more than twice. The caller only carries requests and answers.

use vstd::prelude::*;
use crate::error::{io_error, io_message, not_a_directory_message, GameError, GameResult};
use crate::filesystem::Filesystem;
use crate::host::{
    found_directory, EntryKind, HostCall, HostFailure, Metadata, OpenOptions, Request,
};
use crate::roots::RootDir;

verus! {

/// The operations of the filesystem.
#[derive(Clone, Copy, Debug, PartialEq, Eq, Structural)]
pub enum Operation {
    /// Open a file with the given options.
    Open(OpenOptions),
    /// Create a directory and its missing ancestors.
    Mkdir,
    /// Remove one entry: a file, or an empty directory.
    Rm,
    /// Remove a directory and all that is in it, if it is there.
    Rmrf,
    /// Tell whether an entry is there.
    Exists,
    /// Take a snapshot of an entry.
    Metadata,
    /// List a directory.
    ReadDir,
}

/// What the host answered to a request.
#[derive(Clone, Debug)]
pub enum Answer {
    /// The call was made. What it opened, if anything, stays with the host.
    Done,
    /// The flag that was asked for.
    Flag(bool),
    /// The snapshot that was asked for.
    Snapshot(Metadata),
    /// The call failed.
    Failed(HostFailure),
}

/// What a finished operation gives.
#[derive(Clone, Copy, Debug, PartialEq, Eq, Structural)]
pub enum Outcome {
    /// Nothing but success. What was opened is with the host.
    Done,
    /// Whether the entry is there.
    Flag(bool),
    /// The snapshot of the entry.
    Snapshot(Metadata),
}

/// How an operation goes on after an answer.
#[derive(Debug)]
pub enum Step {
    /// The host is to make one more call.
    Ask(Request),
    /// The operation is over, with this result.
    Finish(GameResult<Outcome>),
}

/// The call that an operation begins with.
pub open spec fn first_call(operation: Operation) -> HostCall {
    match operation {
        Operation::Open(options) => HostCall::Open(options),
        Operation::Mkdir => HostCall::CreateDirAll,
        Operation::Rm => HostCall::Metadata,
        Operation::Rmrf => HostCall::Exists,
        Operation::Exists => HostCall::Exists,
        Operation::Metadata => HostCall::Metadata,
        Operation::ReadDir => HostCall::Metadata,
    }
}

/// What an answer shows at the path, if it shows anything.
pub open spec fn shown(answer: Answer) -> Option<Metadata> {
    match answer {
        Answer::Snapshot(m) => Some(m),
        _ => None,
    }
}

/// Whether an answer shows a directory. A failure shows none.
pub open spec fn shows_directory(answer: Answer) -> bool {
    found_directory(shown(answer))
}

/// Whether an answer says that an entry is there. A failure says that none is.
pub open spec fn shows_entry(answer: Answer) -> bool {
    answer matches Answer::Flag(flag) && flag
}

/// The call that follows when the host has answered `asked` with `answer`,
/// where one follows. Only the answer to an operation's first call can lead
/// to another.
pub open spec fn next_call(operation: Operation, asked: HostCall, answer: Answer) -> Option<
    HostCall,
> {
    if asked != first_call(operation) {
        None
    } else {
        match operation {
            Operation::Rm => Some(
                if shows_directory(answer) {
                    HostCall::RemoveDir
                } else {
                    HostCall::RemoveFile
                },
            ),
            Operation::Rmrf => if shows_entry(answer) {
                Some(HostCall::RemoveDirAll)
            } else {
                None
            },
            Operation::ReadDir => if shows_directory(answer) {
                Some(HostCall::ReadDir)
            } else {
                None
            },
            _ => None,
        }
    }
}

/// Whether `end` is the result that the answer to a call on `target` has:
/// success hands the answer on, and a failure becomes an `IOError` that names
/// the call and the path and keeps the host's failure.
pub open spec fn settles(
    end: GameResult<Outcome>,
    asked: HostCall,
    answer: Answer,
    target: Seq<char>,
) -> bool {
    match answer {
        Answer::Done => end == Ok::<Outcome, GameError>(Outcome::Done),
        Answer::Flag(flag) => end == Ok::<Outcome, GameError>(Outcome::Flag(flag)),
        Answer::Snapshot(m) => end == Ok::<Outcome, GameError>(Outcome::Snapshot(m)),
        Answer::Failed(failure) => end matches Err(GameError::IOError(m, f)) && m@ == io_message(
            asked,
            target,
        ) && f == failure,
    }
}

/// Whether `end` is the result of `operation` on `target` when the host has
/// answered `asked` with `answer` and nothing more is to be asked.
pub open spec fn ends(
    end: GameResult<Outcome>,
    operation: Operation,
    asked: HostCall,
    answer: Answer,
    target: Seq<char>,
) -> bool {
    if asked == first_call(operation) && operation == Operation::ReadDir {
        end matches Err(GameError::FileSystemError(m)) && m@ == not_a_directory_message(target)
    } else if asked == first_call(operation) && operation == Operation::Rmrf {
        end == Ok::<Outcome, GameError>(Outcome::Done)
    } else if asked == first_call(operation) && operation == Operation::Exists {
        end == Ok::<Outcome, GameError>(Outcome::Flag(shows_entry(answer)))
    } else {
        settles(end, asked, answer, target)
    }
}

/// Whether `step` is how `operation` on `target` goes on when the host has
/// answered `asked` with `answer`.
pub open spec fn follows(
    step: Step,
    operation: Operation,
    asked: HostCall,
    answer: Answer,
    target: Seq<char>,
) -> bool {
    match next_call(operation, asked, answer) {
        Some(call) => step matches Step::Ask(q) && q.asks(call, target),
        None => step matches Step::Finish(end) && ends(end, operation, asked, answer, target),
    }
}

/// What an answer shows at the path, if it shows anything.
pub fn shown_by(answer: &Answer) -> (r: Option<Metadata>)
    ensures
        r == shown(*answer),
{
    match answer {
        Answer::Snapshot(m) => Some(*m),
        _ => None,
    }
}

/// Tells whether an answer says that an entry is there.
pub fn entry_shown_by(answer: &Answer) -> (r: bool)
    ensures
        r == shows_entry(*answer),
{
    match answer {
        Answer::Flag(flag) => *flag,
        _ => false,
    }
}

/// The result that the answer to `request` has when nothing more is to be
/// asked.
pub fn settle(request: &Request, answer: Answer) -> (r: GameResult<Outcome>)
    ensures
        settles(r, request.call, answer, request.path@),
{
    match answer {
        Answer::Done => Ok(Outcome::Done),
        Answer::Flag(flag) => Ok(Outcome::Flag(flag)),
        Answer::Snapshot(m) => Ok(Outcome::Snapshot(m)),
        Answer::Failed(failure) => Err(io_error(request, failure)),
    }
}

impl Filesystem {
    /// The request that `operation` on `path` under `root_dir` begins with.
    pub fn begin(&self, operation: Operation, root_dir: RootDir, path: &str) -> (r: Request)
        ensures
            r.asks(first_call(operation), self.absolute(root_dir, path@)),
    {
        match operation {
            Operation::Open(options) => self.open_with_options(root_dir, path, &options),
            Operation::Mkdir => self.mkdir(root_dir, path),
            Operation::Rm => self.metadata(root_dir, path),
            Operation::Rmrf => self.entry_exists(root_dir, path),
            Operation::Exists => self.entry_exists(root_dir, path),
            Operation::Metadata => self.metadata(root_dir, path),
            Operation::ReadDir => self.metadata(root_dir, path),
        }
    }

    /// How `operation` on `path` under `root_dir` goes on when the host has
    /// answered the call `asked` with `answer`: with one more request, or
    /// with its result.
    pub fn proceed(
        &self,
        operation: Operation,
        root_dir: RootDir,
        path: &str,
        asked: HostCall,
        answer: Answer,
    ) -> (r: Step)
        ensures
            follows(r, operation, asked, answer, self.absolute(root_dir, path@)),
    {
        let first = self.begin(operation, root_dir, path);
        if asked == first.call {
            match operation {
                Operation::Rm => {
                    return Step::Ask(self.rm(root_dir, path, shown_by(&answer)));
                },
                Operation::Rmrf => {
                    return match self.rmrf(root_dir, path, entry_shown_by(&answer)) {
                        Some(request) => Step::Ask(request),
                        None => Step::Finish(Ok(Outcome::Done)),
                    };
                },
                Operation::ReadDir => {
                    return match self.read_dir(root_dir, path, shown_by(&answer)) {
                        Ok(request) => Step::Ask(request),
                        Err(error) => Step::Finish(Err(error)),
                    };
                },
                Operation::Exists => {
                    return Step::Finish(Ok(Outcome::Flag(entry_shown_by(&answer))));
                },
                _ => {},
            }
        }
        let request = Request { call: asked, path: first.path };
        Step::Finish(settle(&request, answer))
    }
}

/// No operation asks the host more than twice: the answer to a call that
/// followed another never leads to a third.
pub proof fn lemma_second_call_is_the_last(
    operation: Operation,
    asked: HostCall,
    answer: Answer,
    second: Answer,
)
    ensures
        next_call(operation, asked, answer) matches Some(call) ==> next_call(
            operation,
            call,
            second,
        ) is None,
{
}

/// Removing what is not there succeeds at once: when the host says that no
/// entry is at the path, or cannot tell, `Rmrf` asks for nothing more and its
/// result is success.
pub proof fn lemma_rmrf_of_nothing_succeeds(step: Step, answer: Answer, target: Seq<char>)
    requires
        follows(step, Operation::Rmrf, HostCall::Exists, answer, target),
        !shows_entry(answer),
    ensures
        step == Step::Finish(Ok(Outcome::Done)),
{
}

/// Listing a regular file fails with a `FileSystemError`, never with an
/// `IOError`, and the host is not asked for a listing.
pub proof fn lemma_listing_a_file_is_refused(step: Step, found: Metadata, target: Seq<char>)
    requires
        follows(step, Operation::ReadDir, HostCall::Metadata, Answer::Snapshot(found), target),
        found.kind() == EntryKind::File,
    ensures
        step matches Step::Finish(Err(GameError::FileSystemError(m))) && m@
            == not_a_directory_message(target),
{
}

/// Nothing is swallowed once the host acts: when the call that followed
/// another fails, the operation fails with an `IOError` that names that call
/// and the path and keeps the host's failure. So a removal that the host
/// refuses, as that of a directory that is not empty, is a failed `Rm`.
pub proof fn lemma_failed_second_call_fails(
    step: Step,
    operation: Operation,
    answer: Answer,
    failure: HostFailure,
    target: Seq<char>,
)
    requires
        next_call(operation, first_call(operation), answer) matches Some(call) && follows(
            step,
            operation,
            call,
            Answer::Failed(failure),
            target,
        ),
    ensures
        step matches Step::Finish(Err(GameError::IOError(m, f))) && f == failure,
{
}

/// The existence check never fails, whatever the host answers.
pub proof fn lemma_exists_never_fails(step: Step, answer: Answer, target: Seq<char>)
    requires
        follows(step, Operation::Exists, HostCall::Exists, answer, target),
    ensures
        step == Step::Finish(Ok(Outcome::Flag(shows_entry(answer)))),
{
}

} // verus!
