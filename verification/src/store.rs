//! Writing a configuration atomically: serialize it, write it to a temporary
//! file next to the target, and rename that file into place. The steps are
//! decided here; the caller performs them and reports back.

use vstd::prelude::*;

use crate::error::ConfigError;
use crate::naming::{temp_extension, temp_extension_spec};

verus! {

/// Where a write stands.
#[derive(Debug, Clone, Copy, PartialEq, Eq, Structural)]
pub enum StorePhase {
    /// Nothing happened yet.
    Start,
    /// Waiting for the configuration to be serialized.
    Serializing,
    /// Waiting for the temporary file to be created.
    Opening,
    /// Waiting for the serialized configuration to be written to it.
    Writing,
    /// Waiting for the temporary file to be renamed onto the target.
    Renaming,
    /// The write is over.
    Finished,
}

/// What the caller reports after performing a step of a write. A failure
/// carries the message of the underlying error; `path` is the displayed path
/// of the file the step worked on.
#[derive(Debug)]
pub enum StoreEvent {
    Begin,
    Serialized { outcome: Result<(), String> },
    Opened { path: String, outcome: Result<(), String> },
    Written { path: String, outcome: Result<(), String> },
    Renamed { path: String, outcome: Result<(), String> },
}

/// What the caller is asked to do next.
#[derive(Debug)]
pub enum StoreAction {
    /// Serialize the configuration to TOML.
    Serialize,
    /// Create (or truncate) the file next to the target whose extension is
    /// `extension`, for writing.
    OpenTemp { extension: String },
    /// Write the whole serialized configuration to the temporary file.
    WriteTemp,
    /// Rename the temporary file onto the target.
    RenameOntoTarget,
    /// The write is over, with this outcome.
    Finish(Result<(), ConfigError>),
}

/// The model of a [`StoreAction`].
pub enum StoreActionView {
    Serialize,
    OpenTemp(Seq<char>),
    WriteTemp,
    RenameOntoTarget,
    Finish(Result<(), ConfigError>),
}

pub open spec fn store_action_view(a: StoreAction) -> StoreActionView {
    match a {
        StoreAction::Serialize => StoreActionView::Serialize,
        StoreAction::OpenTemp { extension } => StoreActionView::OpenTemp(extension@),
        StoreAction::WriteTemp => StoreActionView::WriteTemp,
        StoreAction::RenameOntoTarget => StoreActionView::RenameOntoTarget,
        StoreAction::Finish(r) => StoreActionView::Finish(r),
    }
}

/// Whether `event` answers the action that led to `phase`.
pub open spec fn store_accepts(phase: StorePhase, event: StoreEvent) -> bool {
    match phase {
        StorePhase::Start => event is Begin,
        StorePhase::Serializing => event is Serialized,
        StorePhase::Opening => event is Opened,
        StorePhase::Writing => event is Written,
        StorePhase::Renaming => event is Renamed,
        StorePhase::Finished => false,
    }
}

/// The next phase and action of the write numbered `seq` by process `pid`.
/// A failure ends the write: of serializing with [`ConfigError::Dump`], of
/// creating the temporary file with [`ConfigError::Open`], of writing it or
/// renaming it with [`ConfigError::Write`], each naming the file it concerns.
pub open spec fn store_step_spec(phase: StorePhase, event: StoreEvent, pid: nat, seq: nat) -> (StorePhase, StoreActionView) {
    match (phase, event) {
        (StorePhase::Start, _) => (StorePhase::Serializing, StoreActionView::Serialize),
        (StorePhase::Serializing, StoreEvent::Serialized { outcome }) => match outcome {
            Ok(()) => (StorePhase::Opening, StoreActionView::OpenTemp(temp_extension_spec(pid, seq))),
            Err(m) => (StorePhase::Finished, StoreActionView::Finish(Err(ConfigError::Dump { inner_error: m }))),
        },
        (StorePhase::Opening, StoreEvent::Opened { path, outcome }) => match outcome {
            Ok(()) => (StorePhase::Writing, StoreActionView::WriteTemp),
            Err(m) => (StorePhase::Finished, StoreActionView::Finish(Err(ConfigError::Open { path, inner_error: m }))),
        },
        (StorePhase::Writing, StoreEvent::Written { path, outcome }) => match outcome {
            Ok(()) => (StorePhase::Renaming, StoreActionView::RenameOntoTarget),
            Err(m) => (StorePhase::Finished, StoreActionView::Finish(Err(ConfigError::Write { path, inner_error: m }))),
        },
        (StorePhase::Renaming, StoreEvent::Renamed { path, outcome }) => match outcome {
            Ok(()) => (StorePhase::Finished, StoreActionView::Finish(Ok(()))),
            Err(m) => (StorePhase::Finished, StoreActionView::Finish(Err(ConfigError::Write { path, inner_error: m }))),
        },
        _ => vstd::pervasive::arbitrary(),
    }
}

/// The next step of the write numbered `seq` by process `pid`, given the
/// phase the write is in and what the caller reports of the last action.
pub fn store_step(phase: StorePhase, event: StoreEvent, pid: u32, seq: u64) -> (r: (StorePhase, StoreAction))
    requires
        store_accepts(phase, event),
    ensures
        (r.0, store_action_view(r.1)) == store_step_spec(phase, event, pid as nat, seq as nat),
{
    match phase {
        StorePhase::Start => (StorePhase::Serializing, StoreAction::Serialize),
        StorePhase::Serializing => match event {
            StoreEvent::Serialized { outcome } => match outcome {
                Ok(()) => (StorePhase::Opening, StoreAction::OpenTemp { extension: temp_extension(pid, seq) }),
                Err(m) => (StorePhase::Finished, StoreAction::Finish(Err(ConfigError::Dump { inner_error: m }))),
            },
            _ => vstd::pervasive::unreached(),
        },
        StorePhase::Opening => match event {
            StoreEvent::Opened { path, outcome } => match outcome {
                Ok(()) => (StorePhase::Writing, StoreAction::WriteTemp),
                Err(m) => (StorePhase::Finished, StoreAction::Finish(Err(ConfigError::Open { path, inner_error: m }))),
            },
            _ => vstd::pervasive::unreached(),
        },
        StorePhase::Writing => match event {
            StoreEvent::Written { path, outcome } => match outcome {
                Ok(()) => (StorePhase::Renaming, StoreAction::RenameOntoTarget),
                Err(m) => (StorePhase::Finished, StoreAction::Finish(Err(ConfigError::Write { path, inner_error: m }))),
            },
            _ => vstd::pervasive::unreached(),
        },
        StorePhase::Renaming => match event {
            StoreEvent::Renamed { path, outcome } => match outcome {
                Ok(()) => (StorePhase::Finished, StoreAction::Finish(Ok(()))),
                Err(m) => (StorePhase::Finished, StoreAction::Finish(Err(ConfigError::Write { path, inner_error: m }))),
            },
            _ => vstd::pervasive::unreached(),
        },
        StorePhase::Finished => vstd::pervasive::unreached(),
    }
}

/// Writes are atomic: the target file is only ever replaced by renaming the
/// temporary file onto it, and only once that file was created and written
/// in full; any failure before that ends the write without touching the
/// target.
pub proof fn lemma_store_is_atomic(phase: StorePhase, event: StoreEvent, pid: nat, seq: nat)
    requires
        store_accepts(phase, event),
    ensures
        store_step_spec(phase, event, pid, seq).1 is RenameOntoTarget <==> (phase == StorePhase::Writing
            && event matches StoreEvent::Written { outcome: Ok(()), .. }),
        store_step_spec(phase, event, pid, seq).1 is WriteTemp <==> (phase == StorePhase::Opening
            && event matches StoreEvent::Opened { outcome: Ok(()), .. }),
        store_step_spec(phase, event, pid, seq).1 matches StoreActionView::OpenTemp(ext) ==> ext == temp_extension_spec(pid, seq),
        store_step_spec(phase, event, pid, seq).1 matches StoreActionView::Finish(Ok(())) ==> phase == StorePhase::Renaming,
{
}

/// Each failure of a write ends it with the error of its stage, naming the
/// file that stage worked on and carrying the failure's message: serializing
/// gives `Dump`, creating the temporary file `Open`, writing it or renaming it
/// `Write`.
pub proof fn lemma_store_failures_carry_their_cause(path: String, message: String, pid: nat, seq: nat)
    ensures
        store_step_spec(StorePhase::Serializing, StoreEvent::Serialized { outcome: Err(message) }, pid, seq) == (
            StorePhase::Finished,
            StoreActionView::Finish(Err(ConfigError::Dump { inner_error: message })),
        ),
        store_step_spec(StorePhase::Opening, StoreEvent::Opened { path, outcome: Err(message) }, pid, seq) == (
            StorePhase::Finished,
            StoreActionView::Finish(Err(ConfigError::Open { path, inner_error: message })),
        ),
        store_step_spec(StorePhase::Writing, StoreEvent::Written { path, outcome: Err(message) }, pid, seq) == (
            StorePhase::Finished,
            StoreActionView::Finish(Err(ConfigError::Write { path, inner_error: message })),
        ),
        store_step_spec(StorePhase::Renaming, StoreEvent::Renamed { path, outcome: Err(message) }, pid, seq) == (
            StorePhase::Finished,
            StoreActionView::Finish(Err(ConfigError::Write { path, inner_error: message })),
        ),
{
}

} // verus!
