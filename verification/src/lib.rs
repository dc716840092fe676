//! Decisions of a watch-and-rebuild loop for SATySFi documents.
//!
//! The caller watches the directories of [`watch::watch_list`], hands every
//! debounced event to a [`sequencer::Sequencer`] and performs what it asks
//! for: run the compiler, convert the artifact path, start the viewer. The
//! library itself starts no process and touches no file.

pub mod command;
pub mod error;
pub mod opener;
pub mod path;
pub mod relevance;
pub mod runs;
pub mod sequencer;
pub mod text;
pub mod watch;

pub use crate::command::{build_invocation, CommandLine};
pub use crate::error::FatalError;
pub use crate::opener::{resolve_artifact, ArtifactOpener};
pub use crate::relevance::{is_satysfi_related, ChangeEvent};
pub use crate::sequencer::{Action, Input, Phase, Sequencer, ViewerState};
pub use crate::watch::{watch_list, WatchRequest, WatchTarget, DEBOUNCE_MILLIS};
