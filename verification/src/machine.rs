//! A run as a state machine. The machine decides; its driver acts. The
//! driver asks the state for its request, does that one thing, and hands the
//! outcome back as an event, until the request is to stop.

use crate::error::{LinkError, LinkErrorView};
use crate::plan::{install_dirs, install_dirs_of, plan, plan_of, LinkPlan, LinkPlanView};
use vstd::prelude::*;

verus! {

/// How far a run has come.
#[derive(Clone, Debug, PartialEq, Eq)]
pub enum State {
    /// The path of the running executable is awaited.
    AwaitingExecutable,
    /// The base directory is known; what git prints is awaited.
    AwaitingExecPath { base_dir: String },
    /// The link is planned; what stands at its path is awaited.
    AwaitingProbe { plan: LinkPlan },
    /// Something stands at the link's path; its removal is awaited.
    AwaitingRemoval { plan: LinkPlan },
    /// The link's path is free; the creation of the link is awaited.
    AwaitingLink { plan: LinkPlan },
    /// The link stands. The run has succeeded.
    Linked,
    /// The run has failed.
    Failed(LinkError),
}

/// What the driver is asked to do.
#[derive(Clone, Debug, PartialEq, Eq)]
pub enum Action {
    /// Find the path of the running executable.
    ResolveExecutable,
    /// Run git with `--exec-path` and collect its standard output.
    QueryExecPath,
    /// Look at `path` twice: does it resolve to something when links are
    /// followed, and does it have metadata when they are not?
    Probe { path: String },
    /// Remove the entry at `path` as a file is removed.
    Remove { path: String },
    /// Create at `path` a symbolic link to the directory `target`.
    Link { target: String, path: String },
    /// Nothing more: the run is over.
    Stop,
}

/// What the driver reports back.
#[derive(Clone, Debug, PartialEq, Eq)]
pub enum Event {
    /// The running executable's path.
    ExecutableResolved(String),
    /// The executable's path could not be had; with the report.
    ExecutableUnavailable(String),
    /// git exited cleanly; with the bytes of its standard output.
    ExecPathReported(Vec<u8>),
    /// git could not be run or exited with a failure; with the report.
    ExecPathFailed(String),
    /// The two answers about the link's path: whether it resolves to
    /// something when links are followed, and whether it has metadata when
    /// they are not.
    Probed { resolves: bool, has_link_metadata: bool },
    /// The entry at the link's path is gone.
    Removed,
    /// The entry could not be removed; with the report.
    RemoveFailed(String),
    /// The link has been created.
    LinkCreated,
    /// The link could not be created; with the report.
    LinkFailed(String),
}

/// What a `State` holds, as mathematical values.
pub enum StateView {
    AwaitingExecutable,
    AwaitingExecPath { base_dir: Seq<char> },
    AwaitingProbe { plan: LinkPlanView },
    AwaitingRemoval { plan: LinkPlanView },
    AwaitingLink { plan: LinkPlanView },
    Linked,
    Failed(LinkErrorView),
}

/// What an `Action` holds, as mathematical values.
pub enum ActionView {
    ResolveExecutable,
    QueryExecPath,
    Probe { path: Seq<char> },
    Remove { path: Seq<char> },
    Link { target: Seq<char>, path: Seq<char> },
    Stop,
}

/// What an `Event` holds, as mathematical values.
pub enum EventView {
    ExecutableResolved(Seq<char>),
    ExecutableUnavailable(Seq<char>),
    ExecPathReported(Seq<u8>),
    ExecPathFailed(Seq<char>),
    Probed { resolves: bool, has_link_metadata: bool },
    Removed,
    RemoveFailed(Seq<char>),
    LinkCreated,
    LinkFailed(Seq<char>),
}

impl View for State {
    type V = StateView;

    open spec fn view(&self) -> StateView {
        match *self {
            State::AwaitingExecutable => StateView::AwaitingExecutable,
            State::AwaitingExecPath { base_dir } => StateView::AwaitingExecPath {
                base_dir: base_dir@,
            },
            State::AwaitingProbe { plan } => StateView::AwaitingProbe { plan: plan@ },
            State::AwaitingRemoval { plan } => StateView::AwaitingRemoval { plan: plan@ },
            State::AwaitingLink { plan } => StateView::AwaitingLink { plan: plan@ },
            State::Linked => StateView::Linked,
            State::Failed(error) => StateView::Failed(error@),
        }
    }
}

impl View for Action {
    type V = ActionView;

    open spec fn view(&self) -> ActionView {
        match *self {
            Action::ResolveExecutable => ActionView::ResolveExecutable,
            Action::QueryExecPath => ActionView::QueryExecPath,
            Action::Probe { path } => ActionView::Probe { path: path@ },
            Action::Remove { path } => ActionView::Remove { path: path@ },
            Action::Link { target, path } => ActionView::Link { target: target@, path: path@ },
            Action::Stop => ActionView::Stop,
        }
    }
}

impl View for Event {
    type V = EventView;

    open spec fn view(&self) -> EventView {
        match *self {
            Event::ExecutableResolved(path) => EventView::ExecutableResolved(path@),
            Event::ExecutableUnavailable(report) => EventView::ExecutableUnavailable(report@),
            Event::ExecPathReported(output) => EventView::ExecPathReported(output@),
            Event::ExecPathFailed(report) => EventView::ExecPathFailed(report@),
            Event::Probed { resolves, has_link_metadata } => EventView::Probed {
                resolves,
                has_link_metadata,
            },
            Event::Removed => EventView::Removed,
            Event::RemoveFailed(report) => EventView::RemoveFailed(report@),
            Event::LinkCreated => EventView::LinkCreated,
            Event::LinkFailed(report) => EventView::LinkFailed(report@),
        }
    }
}

/// Whether something counts as standing at the link's path: the path
/// resolves when links are followed, or it has metadata when they are not. The second
/// answer is what finds a link whose target is gone.
pub open spec fn present(resolves: bool, has_link_metadata: bool) -> bool {
    resolves || has_link_metadata
}

/// The request that a state makes of the driver.
pub open spec fn request_of(state: StateView) -> ActionView {
    match state {
        StateView::AwaitingExecutable => ActionView::ResolveExecutable,
        StateView::AwaitingExecPath { .. } => ActionView::QueryExecPath,
        StateView::AwaitingProbe { plan } => ActionView::Probe { path: plan.link },
        StateView::AwaitingRemoval { plan } => ActionView::Remove { path: plan.link },
        StateView::AwaitingLink { plan } => ActionView::Link {
            target: plan.target,
            path: plan.link,
        },
        StateView::Linked => ActionView::Stop,
        StateView::Failed(_) => ActionView::Stop,
    }
}

/// How a run ended: `None` while it is still under way.
pub open spec fn outcome_of(state: StateView) -> Option<Result<(), LinkErrorView>> {
    match state {
        StateView::Linked => Some(Ok(())),
        StateView::Failed(error) => Some(Err(error)),
        _ => None,
    }
}

/// The view of an outcome as the driver gets it.
pub open spec fn outcome_view(outcome: Option<Result<(), LinkError>>) -> Option<
    Result<(), LinkErrorView>,
> {
    match outcome {
        None => None,
        Some(Ok(_)) => Some(Ok(())),
        Some(Err(error)) => Some(Err(error@)),
    }
}

/// The state after an event. An event that does not answer the state's
/// request changes nothing; a run that is over stays as it is.
pub open spec fn next(state: StateView, event: EventView) -> StateView {
    match (state, event) {
        (StateView::AwaitingExecutable, EventView::ExecutableResolved(path)) => {
            match install_dirs_of(path) {
                Ok(dirs) => StateView::AwaitingExecPath { base_dir: dirs.base_dir },
                Err(error) => StateView::Failed(error),
            }
        },
        (StateView::AwaitingExecutable, EventView::ExecutableUnavailable(report)) => {
            StateView::Failed(LinkErrorView::Executable(report))
        },
        (StateView::AwaitingExecPath { base_dir }, EventView::ExecPathReported(output)) => {
            match plan_of(base_dir, output) {
                Ok(plan) => StateView::AwaitingProbe { plan },
                Err(error) => StateView::Failed(error),
            }
        },
        (StateView::AwaitingExecPath { .. }, EventView::ExecPathFailed(report)) => {
            StateView::Failed(LinkErrorView::Subprocess(report))
        },
        (StateView::AwaitingProbe { plan }, EventView::Probed { resolves, has_link_metadata }) => {
            if present(resolves, has_link_metadata) {
                StateView::AwaitingRemoval { plan }
            } else {
                StateView::AwaitingLink { plan }
            }
        },
        (StateView::AwaitingRemoval { plan }, EventView::Removed) => {
            StateView::AwaitingLink { plan }
        },
        (StateView::AwaitingRemoval { .. }, EventView::RemoveFailed(report)) => {
            StateView::Failed(LinkErrorView::Filesystem(report))
        },
        (StateView::AwaitingLink { .. }, EventView::LinkCreated) => StateView::Linked,
        (StateView::AwaitingLink { .. }, EventView::LinkFailed(report)) => {
            StateView::Failed(LinkErrorView::Filesystem(report))
        },
        _ => state,
    }
}

impl State {
    /// The state in which every run begins.
    pub fn start() -> (state: State)
        ensures
            state@ == StateView::AwaitingExecutable,
    {
        State::AwaitingExecutable
    }

    /// What the driver is to do now.
    pub fn request(&self) -> (action: Action)
        ensures
            action@ == request_of(self@),
    {
        match self {
            State::AwaitingExecutable => Action::ResolveExecutable,
            State::AwaitingExecPath { .. } => Action::QueryExecPath,
            State::AwaitingProbe { plan } => Action::Probe { path: plan.link.clone() },
            State::AwaitingRemoval { plan } => Action::Remove { path: plan.link.clone() },
            State::AwaitingLink { plan } => Action::Link {
                target: plan.target.clone(),
                path: plan.link.clone(),
            },
            State::Linked => Action::Stop,
            State::Failed(_) => Action::Stop,
        }
    }

    /// How the run ended, or `None` while it is under way.
    pub fn outcome(self) -> (r: Option<Result<(), LinkError>>)
        ensures
            outcome_view(r) == outcome_of(self@),
            self is Linked ==> r == Some(Ok::<(), LinkError>(())),
            self matches State::Failed(error) ==> r == Some(Err::<(), LinkError>(error)),
    {
        match self {
            State::Linked => Some(Ok(())),
            State::Failed(error) => Some(Err(error)),
            _ => None,
        }
    }

    /// Takes the driver's report and moves on.
    pub fn step(self, event: Event) -> (state: State)
        ensures
            state@ == next(self@, event@),
    {
        match (self, event) {
            (State::AwaitingExecutable, Event::ExecutableResolved(path)) => {
                match install_dirs(path.as_str()) {
                    Ok(dirs) => State::AwaitingExecPath { base_dir: dirs.base_dir },
                    Err(error) => State::Failed(error),
                }
            },
            (State::AwaitingExecutable, Event::ExecutableUnavailable(report)) => {
                State::Failed(LinkError::Executable(report))
            },
            (State::AwaitingExecPath { base_dir }, Event::ExecPathReported(output)) => {
                match plan(base_dir.as_str(), output) {
                    Ok(plan) => State::AwaitingProbe { plan },
                    Err(error) => State::Failed(error),
                }
            },
            (State::AwaitingExecPath { .. }, Event::ExecPathFailed(report)) => {
                State::Failed(LinkError::Subprocess(report))
            },
            (State::AwaitingProbe { plan }, Event::Probed { resolves, has_link_metadata }) => {
                if resolves || has_link_metadata {
                    State::AwaitingRemoval { plan }
                } else {
                    State::AwaitingLink { plan }
                }
            },
            (State::AwaitingRemoval { plan }, Event::Removed) => State::AwaitingLink { plan },
            (State::AwaitingRemoval { .. }, Event::RemoveFailed(report)) => {
                State::Failed(LinkError::Filesystem(report))
            },
            (State::AwaitingLink { .. }, Event::LinkCreated) => State::Linked,
            (State::AwaitingLink { .. }, Event::LinkFailed(report)) => {
                State::Failed(LinkError::Filesystem(report))
            },
            (state, _) => state,
        }
    }
}

} // verus!
