//! The build-and-open sequencer.
//!
//! The sequencer decides; the caller acts. Each call of [`Sequencer::step`]
//! takes one input, a change event or the outcome of the action that the
//! previous step asked for, and answers with the next action:
//!
//! - a relevant change while idle asks for a run of the compiler;
//! - a failed build asks for nothing more;
//! - the first successful build asks for the viewer, directly or, with the
//!   cross-namespace opener, after the artifact path was converted;
//! - a later successful build asks for nothing more.
//!
//! An input that does not fit the phase is rejected and changes nothing. So a
//! change that arrives while a build is under way starts no second build: the
//! caller keeps it and offers it again once the sequencer is idle.

use crate::command::{build_invocation, compiler_command, text_of, CommandLine, CommandLineView};
use crate::error::FatalError;
use crate::opener::{
    artifact_path,
    cross_namespace_viewer,
    cross_namespace_viewer_command,
    default_viewer,
    default_viewer_command,
    ArtifactOpener,
};
use crate::relevance::ChangeEvent;
use crate::watch::WatchTarget;
use vstd::prelude::*;
use vstd::string::*;

verus! {

/// Whether the viewer was started yet.
#[derive(Clone, Copy, Debug, PartialEq, Eq, Structural)]
pub enum ViewerState {
    /// No build has succeeded so far; the viewer is not open.
    AwaitingFirstSuccess,
    /// The viewer was started; it is never started again.
    SteadyState,
}

/// What the sequencer is waiting for.
#[derive(Clone, Copy, Debug, PartialEq, Eq, Structural)]
pub enum Phase {
    /// Nothing is under way; the next change event is welcome.
    Idle,
    /// The compiler runs.
    Building,
    /// The artifact path is being converted into the host's namespace.
    Converting,
    /// The viewer command runs.
    Launching,
}

/// What the caller reports to the sequencer.
#[derive(Clone, Debug, PartialEq, Eq)]
pub enum Input {
    /// The watch delivered an event.
    Change(ChangeEvent),
    /// The compiler exited; `true` for a zero exit status.
    BuildExited(bool),
    /// The conversion of the artifact path ended, with the converted path or
    /// with nothing where it failed.
    PathConverted(Option<String>),
    /// The viewer command returned.
    ViewerReturned,
}

/// What the sequencer asks the caller to do next.
#[derive(Clone, Debug, PartialEq, Eq)]
pub enum Action {
    /// Nothing; wait for the next change event.
    Wait,
    /// Run the compiler with the sequencer's invocation, then report
    /// `BuildExited`.
    RunCompiler,
    /// Convert this path into the host's namespace, then report
    /// `PathConverted`.
    ConvertPath(String),
    /// Run this command, then report `ViewerReturned`.
    LaunchViewer(CommandLine),
    /// Give up with this error.
    Fail(FatalError),
    /// The input did not fit the phase; nothing changed.
    Rejected,
}

/// An [`Action`] with its texts as sequences.
pub enum ActionView {
    Wait,
    RunCompiler,
    ConvertPath(Seq<char>),
    LaunchViewer(CommandLineView),
    Fail(FatalError),
    Rejected,
}

impl View for Action {
    type V = ActionView;

    open spec fn view(&self) -> ActionView {
        match self {
            Action::Wait => ActionView::Wait,
            Action::RunCompiler => ActionView::RunCompiler,
            Action::ConvertPath(path) => ActionView::ConvertPath(path@),
            Action::LaunchViewer(command) => ActionView::LaunchViewer(command@),
            Action::Fail(error) => ActionView::Fail(*error),
            Action::Rejected => ActionView::Rejected,
        }
    }
}

/// The state of a sequencer: its fixed configuration, the viewer state and
/// the phase.
pub struct SequencerView {
    pub opener: ArtifactOpener,
    pub artifact: Seq<char>,
    pub invocation: CommandLineView,
    pub viewer: ViewerState,
    pub phase: Phase,
}

/// The state in which a sequencer starts.
pub open spec fn initial_state(
    target: Seq<char>,
    output: Option<Seq<char>>,
    extra_args: Option<Seq<char>>,
    opener: ArtifactOpener,
) -> SequencerView {
    SequencerView {
        opener,
        artifact: artifact_path(target, output),
        invocation: compiler_command(target, output, extra_args),
        viewer: ViewerState::AwaitingFirstSuccess,
        phase: Phase::Idle,
    }
}

/// One step: the state after `input`, and the action that it calls for.
pub open spec fn transition(s: SequencerView, input: Input) -> (SequencerView, ActionView) {
    match (s.phase, input) {
        (Phase::Idle, Input::Change(event)) => if event.relevant() {
            (SequencerView { phase: Phase::Building, ..s }, ActionView::RunCompiler)
        } else {
            (s, ActionView::Wait)
        },
        (Phase::Building, Input::BuildExited(success)) => if success && s.viewer
            == ViewerState::AwaitingFirstSuccess {
            match s.opener {
                ArtifactOpener::DefaultOpen => (
                    SequencerView {
                        viewer: ViewerState::SteadyState,
                        phase: Phase::Launching,
                        ..s
                    },
                    ActionView::LaunchViewer(default_viewer_command(s.artifact)),
                ),
                ArtifactOpener::CrossNamespace => (
                    SequencerView { phase: Phase::Converting, ..s },
                    ActionView::ConvertPath(s.artifact),
                ),
            }
        } else {
            (SequencerView { phase: Phase::Idle, ..s }, ActionView::Wait)
        },
        (Phase::Converting, Input::PathConverted(Some(converted))) => (
            SequencerView { viewer: ViewerState::SteadyState, phase: Phase::Launching, ..s },
            ActionView::LaunchViewer(cross_namespace_viewer_command(converted@)),
        ),
        (Phase::Converting, Input::PathConverted(None)) => (
            SequencerView { phase: Phase::Idle, ..s },
            ActionView::Fail(FatalError::PathConversionFailed),
        ),
        (Phase::Launching, Input::ViewerReturned) => (
            SequencerView { phase: Phase::Idle, ..s },
            ActionView::Wait,
        ),
        _ => (s, ActionView::Rejected),
    }
}

/// Serializes the rebuilds and opens the viewer once.
pub struct Sequencer {
    opener: ArtifactOpener,
    artifact: String,
    invocation: CommandLine,
    viewer: ViewerState,
    phase: Phase,
}

impl View for Sequencer {
    type V = SequencerView;

    closed spec fn view(&self) -> SequencerView {
        SequencerView {
            opener: self.opener,
            artifact: self.artifact@,
            invocation: self.invocation@,
            viewer: self.viewer,
            phase: self.phase,
        }
    }
}

impl Sequencer {
    /// A sequencer for `target`: idle, with the viewer not yet open. The
    /// compiler's command line and the artifact path are fixed here.
    pub fn new(
        target: &WatchTarget,
        output: Option<&str>,
        extra_args: Option<&str>,
        opener: ArtifactOpener,
    ) -> (r: Sequencer)
        ensures
            r@ == initial_state(target@, text_of(output), text_of(extra_args), opener),
    {
        let artifact = match output {
            Some(o) => o.to_owned(),
            None => target.default_output().to_owned(),
        };
        Sequencer {
            opener,
            artifact,
            invocation: build_invocation(target.path(), output, extra_args),
            viewer: ViewerState::AwaitingFirstSuccess,
            phase: Phase::Idle,
        }
    }

    /// How the artifact is opened.
    pub fn opener(&self) -> (r: ArtifactOpener)
        ensures
            r == self@.opener,
    {
        self.opener
    }

    /// The path of the artifact that the viewer is given.
    pub fn artifact(&self) -> (r: &str)
        ensures
            r@ == self@.artifact,
    {
        self.artifact.as_str()
    }

    /// The command line of the compiler, the same for every build.
    pub fn invocation(&self) -> (r: &CommandLine)
        ensures
            r@ == self@.invocation,
    {
        &self.invocation
    }

    /// Whether the viewer was started yet.
    pub fn viewer_state(&self) -> (r: ViewerState)
        ensures
            r == self@.viewer,
    {
        self.viewer
    }

    /// What the sequencer is waiting for.
    pub fn phase(&self) -> (r: Phase)
        ensures
            r == self@.phase,
    {
        self.phase
    }

    /// Takes one input and answers with the action that the caller is to
    /// perform next. The configuration never changes.
    pub fn step(&mut self, input: Input) -> (action: Action)
        ensures
            (final(self)@, action@) == transition(old(self)@, input),
            final(self)@.opener == old(self)@.opener,
            final(self)@.artifact == old(self)@.artifact,
            final(self)@.invocation == old(self)@.invocation,
    {
        match input {
            Input::Change(event) => {
                if self.phase == Phase::Idle {
                    if event.is_relevant() {
                        self.phase = Phase::Building;
                        Action::RunCompiler
                    } else {
                        Action::Wait
                    }
                } else {
                    Action::Rejected
                }
            },
            Input::BuildExited(success) => {
                if self.phase == Phase::Building {
                    if success && self.viewer == ViewerState::AwaitingFirstSuccess {
                        match self.opener {
                            ArtifactOpener::DefaultOpen => {
                                self.viewer = ViewerState::SteadyState;
                                self.phase = Phase::Launching;
                                Action::LaunchViewer(default_viewer(self.artifact.as_str()))
                            },
                            ArtifactOpener::CrossNamespace => {
                                self.phase = Phase::Converting;
                                Action::ConvertPath(self.artifact.clone())
                            },
                        }
                    } else {
                        self.phase = Phase::Idle;
                        Action::Wait
                    }
                } else {
                    Action::Rejected
                }
            },
            Input::PathConverted(converted) => {
                if self.phase == Phase::Converting {
                    match converted {
                        Some(path) => {
                            self.viewer = ViewerState::SteadyState;
                            self.phase = Phase::Launching;
                            Action::LaunchViewer(cross_namespace_viewer(path.as_str()))
                        },
                        None => {
                            self.phase = Phase::Idle;
                            Action::Fail(FatalError::PathConversionFailed)
                        },
                    }
                } else {
                    Action::Rejected
                }
            },
            Input::ViewerReturned => {
                if self.phase == Phase::Launching {
                    self.phase = Phase::Idle;
                    Action::Wait
                } else {
                    Action::Rejected
                }
            },
        }
    }
}

} // verus!
