//! The run as a state machine: each outcome of the caller's work decides the
//! next piece of work.

use crate::encoder::EncodeJob;
use crate::frame_rate::{args_view, frame_rate_spec, int_text, parse_frame_rate};
use crate::selector::{find_latest, is_latest, no_candidate, DirEntry, Listing, SelectError};
use vstd::prelude::*;

verus! {

/// The piece of outside work that failed.
#[derive(Clone, Copy, Debug, PartialEq, Eq, Structural)]
pub enum IoStage {
    /// Creating the output directory.
    CreateOutputDir,
    /// Reading the root directory.
    ListRoot,
    /// Starting the encoder.
    StartEncoder,
    /// Removing the source directory.
    RemoveSource,
}

/// Why a run failed.
#[derive(Clone, Copy, Debug, PartialEq, Eq, Structural)]
pub enum RunError {
    /// The root directory or a render directory in it was not found.
    NotFound(SelectError),
    /// A piece of outside work failed.
    Io(IoStage),
    /// The encoder ran and reported failure.
    ExternalTool,
    /// An event came that the run did not wait for.
    OutOfTurn,
}

/// What the caller does next.
#[derive(Clone, Copy, Debug, PartialEq, Eq)]
pub enum Action {
    /// Create the output directory with all its parents.
    CreateOutputDir,
    /// Read the root directory.
    ListRoot,
    /// Run the encoder on the job that the state holds and wait for it.
    RunEncoder,
    /// Remove the source directory of the job that the state holds, with all
    /// that is in it.
    RemoveSource,
    /// Stop with this result.
    Finish(Result<(), RunError>),
}

/// What the caller's work gave.
#[derive(Debug)]
pub enum Event {
    /// The output directory exists.
    OutputDirReady,
    /// The output directory could not be created.
    OutputDirFailed,
    /// The root directory was looked at.
    RootListed(Listing),
    /// The root directory could not be read.
    ListFailed,
    /// The encoder ran and exited.
    EncoderExited { success: bool },
    /// The encoder could not be started.
    EncoderNotStarted,
    /// The source directory is gone.
    SourceRemoved,
    /// The source directory could not be removed.
    RemoveFailed,
}

/// Where a run stands.
#[derive(Debug)]
pub enum State {
    /// Waiting for the output directory.
    CreatingOutputDir { frame_rate: i32 },
    /// Waiting for the root's listing.
    ListingRoot { frame_rate: i32 },
    /// Waiting for the encoder, which works on entry `index` of the listing.
    Encoding { index: usize, job: EncodeJob },
    /// Waiting for the removal of the source directory.
    Removing { index: usize, job: EncodeJob },
    /// The run is over.
    Finished,
}

/// Whether the run ends here with `error`.
pub open spec fn fails_with(next: State, action: Action, error: RunError) -> bool {
    next == State::Finished && action == Action::Finish(Err(error))
}

/// Whether, in `state`, `event` leads to `next` and asks for `action`.
pub open spec fn is_step(state: State, event: Event, next: State, action: Action) -> bool {
    match (state, event) {
        (State::CreatingOutputDir { frame_rate }, Event::OutputDirReady) => {
            next == State::ListingRoot { frame_rate } && action == Action::ListRoot
        },
        (State::CreatingOutputDir { .. }, Event::OutputDirFailed) => {
            fails_with(next, action, RunError::Io(IoStage::CreateOutputDir))
        },
        (State::ListingRoot { .. }, Event::ListFailed) => {
            fails_with(next, action, RunError::Io(IoStage::ListRoot))
        },
        (State::ListingRoot { .. }, Event::RootListed(Listing::Missing)) => {
            fails_with(next, action, RunError::NotFound(SelectError::RootNotFound))
        },
        (State::ListingRoot { frame_rate }, Event::RootListed(Listing::Entries(entries))) => {
            if no_candidate(entries@) {
                fails_with(next, action, RunError::NotFound(SelectError::NoRenderDirs))
            } else {
                &&& action == Action::RunEncoder
                &&& next matches State::Encoding { index, job }
                &&& is_latest(entries@, index as int)
                &&& job.is_for(frame_rate as int, entries@[index as int].name@)
            }
        },
        (State::Encoding { index, job }, Event::EncoderExited { success }) => {
            if success {
                next == State::Removing { index, job } && action == Action::RemoveSource
            } else {
                fails_with(next, action, RunError::ExternalTool)
            }
        },
        (State::Encoding { .. }, Event::EncoderNotStarted) => {
            fails_with(next, action, RunError::Io(IoStage::StartEncoder))
        },
        (State::Removing { .. }, Event::SourceRemoved) => {
            next == State::Finished && action == Action::Finish(Ok(()))
        },
        (State::Removing { .. }, Event::RemoveFailed) => {
            fails_with(next, action, RunError::Io(IoStage::RemoveSource))
        },
        _ => fails_with(next, action, RunError::OutOfTurn),
    }
}

/// Begins a run: takes the frame rate from the argument list and asks for
/// the output directory.
pub fn start(args: &Vec<String>) -> (r: (State, Action))
    ensures
        r.0 matches State::CreatingOutputDir { frame_rate } && frame_rate == frame_rate_spec(
            args_view(args@),
        ),
        r.1 == Action::CreateOutputDir,
{
    (State::CreatingOutputDir { frame_rate: parse_frame_rate(args) }, Action::CreateOutputDir)
}

/// Takes the outcome of the work that was asked for last and decides what
/// comes next.
pub fn step(state: State, event: Event) -> (r: (State, Action))
    ensures
        is_step(state, event, r.0, r.1),
{
    match (state, event) {
        (State::CreatingOutputDir { frame_rate }, Event::OutputDirReady) => {
            (State::ListingRoot { frame_rate }, Action::ListRoot)
        },
        (State::CreatingOutputDir { .. }, Event::OutputDirFailed) => {
            fail(RunError::Io(IoStage::CreateOutputDir))
        },
        (State::ListingRoot { .. }, Event::ListFailed) => fail(RunError::Io(IoStage::ListRoot)),
        (State::ListingRoot { .. }, Event::RootListed(Listing::Missing)) => {
            fail(RunError::NotFound(SelectError::RootNotFound))
        },
        (State::ListingRoot { frame_rate }, Event::RootListed(Listing::Entries(entries))) => {
            match find_latest(&entries) {
                None => fail(RunError::NotFound(SelectError::NoRenderDirs)),
                Some(index) => {
                    let job = EncodeJob::plan(frame_rate, entries[index].name.as_str());
                    (State::Encoding { index, job }, Action::RunEncoder)
                },
            }
        },
        (State::Encoding { index, job }, Event::EncoderExited { success }) => {
            if success {
                (State::Removing { index, job }, Action::RemoveSource)
            } else {
                fail(RunError::ExternalTool)
            }
        },
        (State::Encoding { .. }, Event::EncoderNotStarted) => {
            fail(RunError::Io(IoStage::StartEncoder))
        },
        (State::Removing { .. }, Event::SourceRemoved) => (State::Finished, Action::Finish(Ok(()))),
        (State::Removing { .. }, Event::RemoveFailed) => fail(RunError::Io(IoStage::RemoveSource)),
        _ => fail(RunError::OutOfTurn),
    }
}

/// The end of a run that failed.
fn fail(error: RunError) -> (r: (State, Action))
    ensures
        fails_with(r.0, r.1, error),
{
    (State::Finished, Action::Finish(Err(error)))
}

impl State {
    /// The job that the encoder works on or whose source is being removed.
    pub fn job(&self) -> (r: Option<&EncodeJob>)
        ensures
            match *self {
                State::Encoding { job, .. } => r == Some(&job),
                State::Removing { job, .. } => r == Some(&job),
                _ => r is None,
            },
    {
        match self {
            State::Encoding { job, .. } => Some(job),
            State::Removing { job, .. } => Some(job),
            _ => None,
        }
    }

    /// The position in the listing of the directory that was selected.
    pub fn source_index(&self) -> (r: Option<usize>)
        ensures
            match *self {
                State::Encoding { index, .. } => r == Some(index),
                State::Removing { index, .. } => r == Some(index),
                _ => r is None,
            },
    {
        match self {
            State::Encoding { index, .. } => Some(*index),
            State::Removing { index, .. } => Some(*index),
            _ => None,
        }
    }
}

/// When the encoder reports success, the source directory is removed next,
/// and once it is gone the run ends well.
pub proof fn lemma_success_removes_source(
    index: usize,
    job: EncodeJob,
    next: State,
    action: Action,
    last: State,
    verdict: Action,
)
    requires
        is_step(
            State::Encoding { index, job },
            Event::EncoderExited { success: true },
            next,
            action,
        ),
        is_step(next, Event::SourceRemoved, last, verdict),
    ensures
        action == Action::RemoveSource,
        next == (State::Removing { index, job }),
        verdict == Action::Finish(Ok(())),
        last == State::Finished,
{
}

/// When the encoder reports failure, the run ends with the encoder's error
/// and asks for nothing more: the source directory stays.
pub proof fn lemma_failure_keeps_source(index: usize, job: EncodeJob, next: State, action: Action)
    requires
        is_step(
            State::Encoding { index, job },
            Event::EncoderExited { success: false },
            next,
            action,
        ),
    ensures
        action == Action::Finish(Err(RunError::ExternalTool)),
        next == State::Finished,
{
}

/// The removal of the source directory is asked for in one place only: after
/// the encoder has reported success, and for the directory it worked on.
pub proof fn lemma_removal_follows_success(state: State, event: Event, next: State, action: Action)
    requires
        is_step(state, event, next, action),
        action == Action::RemoveSource,
    ensures
        state is Encoding,
        event == (Event::EncoderExited { success: true }),
        next matches State::Removing { index, job } && state == (State::Encoding { index, job }),
{
}

/// The frame rate that a run starts with is the one that the encoder is
/// given: where the listing has a candidate, the encoder's third argument is
/// the text of that frame rate.
pub proof fn lemma_frame_rate_reaches_encoder(
    frame_rate: i32,
    entries: Vec<DirEntry>,
    waiting: State,
    first: Action,
    next: State,
    action: Action,
)
    requires
        is_step(State::CreatingOutputDir { frame_rate }, Event::OutputDirReady, waiting, first),
        is_step(waiting, Event::RootListed(Listing::Entries(entries)), next, action),
        !no_candidate(entries@),
    ensures
        first == Action::ListRoot,
        action == Action::RunEncoder,
        next matches State::Encoding { job, .. } && args_view(job.args@).len() == 14 && args_view(
            job.args@,
        )[1] == "-framerate"@ && args_view(job.args@)[2] == int_text(frame_rate as int),
{
}

/// A missing root, or a root without a candidate, ends the run as not found
/// before the encoder is asked for.
pub proof fn lemma_nothing_to_encode(frame_rate: i32, listing: Listing, next: State, action: Action)
    requires
        is_step(State::ListingRoot { frame_rate }, Event::RootListed(listing), next, action),
        listing matches Listing::Entries(entries) ==> no_candidate(entries@),
    ensures
        next == State::Finished,
        action matches Action::Finish(Err(RunError::NotFound(_))),
{
}

/// Once a run is over, every event is out of turn.
pub proof fn lemma_finished_stays_finished(event: Event, next: State, action: Action)
    requires
        is_step(State::Finished, event, next, action),
    ensures
        next == State::Finished,
        action == Action::Finish(Err(RunError::OutOfTurn)),
{
}

} // verus!
