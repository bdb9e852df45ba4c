//! The ordered open pipeline as an explicit state machine. The
//! filesystem steps run outside this library; each state names the
//! one step its driver must perform next, the driver reports the
//! outcome, and the machine decides what follows. Any step's failure
//! aborts all later steps; nothing after validation is reordered or
//! skipped, except that the record is written only when none was
//! found.
use vstd::prelude::*;

use crate::config::{read_config_spec, verify_decision_spec, Config};
use crate::error::Error;

verus! {

/// Where the open pipeline stands: every non-terminal state names the
/// filesystem step the driver performs next.
#[derive(Debug)]
pub enum OpenState {
    /// Create the heap subdirectory if it is absent.
    EnsuringHeapDir,
    /// Read the persisted configuration record, whole; report its
    /// contents, or that no file exists.
    ReadingConfig,
    /// Execute this configuration's write plan: stage the record in
    /// the temporary file, sync it, rename it over the final path,
    /// and sync the directory.
    WritingConfig,
    /// Drop the zero-byte sentinel marker file.
    DroppingSentinel,
    /// Open the data file read+write, creating it if absent,
    /// exclusively if the configuration asks for that.
    OpeningDbFile,
    /// Acquire the advisory exclusive lock on the data file.
    LockingDbFile,
    /// Sync the data directory.
    SyncingRootDir,
    /// Sync the heap subdirectory.
    SyncingHeapDir,
    /// The pipeline is complete: assemble the running session.
    Done,
    /// The pipeline aborted; return the error.
    Failed { error: Error },
}

/// What the driver reports about the step it performed.
#[derive(Debug)]
pub enum OpenEvent {
    /// The step succeeded.
    Completed,
    /// The record was read whole, or no file exists.
    ConfigRead { contents: Option<Vec<u8>> },
    /// The step failed.
    Failed { error: Error },
}

/// The first state of the pipeline: validation needs no driver, and
/// an invalid configuration aborts before any filesystem step.
pub open spec fn open_begin_spec(c: crate::builder::ConfigBuilder) -> OpenState {
    match crate::config::validate_spec(c) {
        Err(e) => OpenState::Failed { error: e },
        Ok(()) => OpenState::EnsuringHeapDir,
    }
}

/// The transition relation: a reported failure aborts; the read's
/// contents decide between reconciling in place and writing a first
/// record; every other step simply hands over to the next.
pub open spec fn open_next_spec(
    c: crate::builder::ConfigBuilder,
    state: OpenState,
    event: OpenEvent,
) -> OpenState {
    match event {
        OpenEvent::Failed { error } => OpenState::Failed { error },
        OpenEvent::ConfigRead { contents } => {
            let read = read_config_spec(
                match contents {
                    Some(b) => Some(b@),
                    None => None,
                },
            );
            match verify_decision_spec(c, read) {
                Err(e) => OpenState::Failed { error: e },
                Ok(Some(bytes)) => OpenState::WritingConfig,
                Ok(None) => OpenState::DroppingSentinel,
            }
        },
        OpenEvent::Completed => match state {
            OpenState::EnsuringHeapDir => OpenState::ReadingConfig,
            OpenState::WritingConfig => OpenState::DroppingSentinel,
            OpenState::DroppingSentinel => OpenState::OpeningDbFile,
            OpenState::OpeningDbFile => OpenState::LockingDbFile,
            OpenState::LockingDbFile => OpenState::SyncingRootDir,
            OpenState::SyncingRootDir => OpenState::SyncingHeapDir,
            OpenState::SyncingHeapDir => OpenState::Done,
            _ => state,
        },
    }
}

impl Config {
    /// Starts the pipeline: checks the in-memory rules and, if they
    /// hold, asks the driver for the heap directory.
    pub fn open_begin(&self) -> (r: OpenState)
        ensures
            r == open_begin_spec(self.opts()),
    {
        match self.validate() {
            Err(e) => OpenState::Failed { error: e },
            Ok(()) => OpenState::EnsuringHeapDir,
        }
    }

    /// Advances the pipeline past the step that `state` named, given
    /// the driver's report of its outcome.
    pub fn open_next(&self, state: OpenState, event: OpenEvent) -> (r: OpenState)
        requires
            !(state is Done),
            !(state is Failed),
            state is ReadingConfig ==> (event is ConfigRead || event is Failed),
            event is ConfigRead ==> state is ReadingConfig,
            event is Completed ==> !(state is ReadingConfig),
        ensures
            r == open_next_spec(self.opts(), state, event),
    {
        match event {
            OpenEvent::Failed { error } => OpenState::Failed { error },
            OpenEvent::ConfigRead { contents } => {
                let read = Self::read_config_from(
                    match &contents {
                        Some(b) => Some(b.as_slice()),
                        None => None,
                    },
                );
                match self.verify_config_decision(read) {
                    Err(e) => OpenState::Failed { error: e },
                    Ok(Some(_staged)) => OpenState::WritingConfig,
                    Ok(None) => OpenState::DroppingSentinel,
                }
            },
            OpenEvent::Completed => match state {
                OpenState::EnsuringHeapDir => OpenState::ReadingConfig,
                OpenState::WritingConfig => OpenState::DroppingSentinel,
                OpenState::DroppingSentinel => OpenState::OpeningDbFile,
                OpenState::OpeningDbFile => OpenState::LockingDbFile,
                OpenState::LockingDbFile => OpenState::SyncingRootDir,
                OpenState::SyncingRootDir => OpenState::SyncingHeapDir,
                OpenState::SyncingHeapDir => OpenState::Done,
                _ => state,
            },
        }
    }
}

} // verus!
