//! The configuration-directory provisioner.
//!
//! Provisioning is a short, single-shot dialogue with the host: resolve
//! the platform's application configuration directory, check whether it
//! exists, and create it if it is missing. The host owns the path
//! resolution facility and the filesystem, so those calls live outside
//! this crate; what is verified here is every decision in between,
//! written as a state machine. The host asks [`ProvisionState::required_action`]
//! what to do next, performs it, and reports the outcome back through
//! [`ProvisionState::step`] until [`ProvisionState::is_finished`] holds.

use vstd::prelude::*;
use vstd::string::StringExecFns;

verus! {

/// Why provisioning failed. Either failure aborts application startup.
#[derive(Debug, Clone, PartialEq, Eq)]
pub enum ProvisionError {
    /// The host could not resolve the configuration directory location;
    /// carries the underlying cause as a message.
    PathResolution { cause: String },
    /// Creating the directory failed. The underlying cause is
    /// deliberately discarded: the error carries only a fixed message.
    DirectoryCreation,
}

/// Spec-level model of [`ProvisionError`].
pub enum ErrorModel {
    PathResolution { cause: Seq<char> },
    DirectoryCreation,
}

impl View for ProvisionError {
    type V = ErrorModel;

    open spec fn view(&self) -> ErrorModel {
        match self {
            ProvisionError::PathResolution { cause } => ErrorModel::PathResolution {
                cause: cause@,
            },
            ProvisionError::DirectoryCreation => ErrorModel::DirectoryCreation,
        }
    }
}

impl ProvisionError {
    /// The human-readable message of this error: the carried cause for a
    /// resolution failure, a fixed message for a creation failure.
    pub fn message(&self) -> (m: String)
        ensures
            self@ matches ErrorModel::PathResolution { cause } ==> m@ == cause,
            self@ is DirectoryCreation ==> m@ == "creating app config directory failed"@,
    {
        match self {
            ProvisionError::PathResolution { cause } => cause.clone(),
            ProvisionError::DirectoryCreation => String::from_str(
                "creating app config directory failed",
            ),
        }
    }
}

/// The provisioner's state. A fresh run starts in `ResolvingPath`;
/// `Succeeded` and `Failed` are the two terminal states.
#[derive(Debug, Clone, PartialEq, Eq)]
pub enum ProvisionState {
    /// Waiting for the host to resolve the configuration directory path.
    ResolvingPath,
    /// The path is resolved; waiting for the existence check on it.
    CheckingExistence { path: String },
    /// Nothing exists at the path; waiting for the outcome of creating it.
    CreatingDirectory { path: String },
    /// The directory is in place; the path is surfaced for diagnostics.
    Succeeded { path: String },
    /// Provisioning failed; startup aborts with the carried error.
    Failed { error: ProvisionError },
}

/// Spec-level model of [`ProvisionState`].
pub enum StateModel {
    ResolvingPath,
    CheckingExistence { path: Seq<char> },
    CreatingDirectory { path: Seq<char> },
    Succeeded { path: Seq<char> },
    Failed { error: ErrorModel },
}

impl View for ProvisionState {
    type V = StateModel;

    open spec fn view(&self) -> StateModel {
        match self {
            ProvisionState::ResolvingPath => StateModel::ResolvingPath,
            ProvisionState::CheckingExistence { path } => StateModel::CheckingExistence {
                path: path@,
            },
            ProvisionState::CreatingDirectory { path } => StateModel::CreatingDirectory {
                path: path@,
            },
            ProvisionState::Succeeded { path } => StateModel::Succeeded { path: path@ },
            ProvisionState::Failed { error } => StateModel::Failed { error: error@ },
        }
    }
}

/// An outcome the host reports back to the provisioner.
#[derive(Debug, Clone, PartialEq, Eq)]
pub enum ProvisionEvent {
    /// The host resolved the configuration directory to `path`.
    PathResolved { path: String },
    /// The host could not resolve the path; `cause` is its diagnostic.
    PathResolutionFailed { cause: String },
    /// The existence check found the directory already present.
    DirectoryFound,
    /// The existence check found nothing at the path.
    DirectoryMissing,
    /// Creating the directory succeeded.
    DirectoryCreated,
    /// Creating the directory failed.
    DirectoryCreationFailed,
}

/// Spec-level model of [`ProvisionEvent`].
pub enum EventModel {
    PathResolved { path: Seq<char> },
    PathResolutionFailed { cause: Seq<char> },
    DirectoryFound,
    DirectoryMissing,
    DirectoryCreated,
    DirectoryCreationFailed,
}

impl View for ProvisionEvent {
    type V = EventModel;

    open spec fn view(&self) -> EventModel {
        match self {
            ProvisionEvent::PathResolved { path } => EventModel::PathResolved { path: path@ },
            ProvisionEvent::PathResolutionFailed { cause } => EventModel::PathResolutionFailed {
                cause: cause@,
            },
            ProvisionEvent::DirectoryFound => EventModel::DirectoryFound,
            ProvisionEvent::DirectoryMissing => EventModel::DirectoryMissing,
            ProvisionEvent::DirectoryCreated => EventModel::DirectoryCreated,
            ProvisionEvent::DirectoryCreationFailed => EventModel::DirectoryCreationFailed,
        }
    }
}

/// What the provisioner asks the host to do next.
#[derive(Debug, Clone, PartialEq, Eq)]
pub enum ProvisionAction {
    /// Ask the platform for the application configuration directory.
    ResolvePath,
    /// Check whether `path` exists on the filesystem.
    CheckExistence { path: String },
    /// Create the directory at `path` (non-recursive: the parent is
    /// assumed to exist already).
    CreateDirectory { path: String },
    /// Terminal: nothing is left to do.
    Idle,
}

/// Spec-level model of [`ProvisionAction`].
pub enum ActionModel {
    ResolvePath,
    CheckExistence { path: Seq<char> },
    CreateDirectory { path: Seq<char> },
    Idle,
}

impl View for ProvisionAction {
    type V = ActionModel;

    open spec fn view(&self) -> ActionModel {
        match self {
            ProvisionAction::ResolvePath => ActionModel::ResolvePath,
            ProvisionAction::CheckExistence { path } => ActionModel::CheckExistence {
                path: path@,
            },
            ProvisionAction::CreateDirectory { path } => ActionModel::CreateDirectory {
                path: path@,
            },
            ProvisionAction::Idle => ActionModel::Idle,
        }
    }
}

/// The transition relation of the provisioner, as a total spec function.
/// An event that does not answer the state's pending action leaves the
/// state unchanged; in particular the two terminal states absorb every
/// event.
pub open spec fn step_model(s: StateModel, e: EventModel) -> StateModel {
    match s {
        StateModel::ResolvingPath => match e {
            EventModel::PathResolved { path } => StateModel::CheckingExistence { path },
            EventModel::PathResolutionFailed { cause } => StateModel::Failed {
                error: ErrorModel::PathResolution { cause },
            },
            _ => s,
        },
        StateModel::CheckingExistence { path } => match e {
            EventModel::DirectoryFound => StateModel::Succeeded { path },
            EventModel::DirectoryMissing => StateModel::CreatingDirectory { path },
            _ => s,
        },
        StateModel::CreatingDirectory { path } => match e {
            EventModel::DirectoryCreated => StateModel::Succeeded { path },
            EventModel::DirectoryCreationFailed => StateModel::Failed {
                error: ErrorModel::DirectoryCreation,
            },
            _ => s,
        },
        StateModel::Succeeded { .. } => s,
        StateModel::Failed { .. } => s,
    }
}

/// The action pending in a state: resolution first, then the existence
/// check, then creation only where the check found nothing; the terminal
/// states ask for nothing.
pub open spec fn action_model(s: StateModel) -> ActionModel {
    match s {
        StateModel::ResolvingPath => ActionModel::ResolvePath,
        StateModel::CheckingExistence { path } => ActionModel::CheckExistence { path },
        StateModel::CreatingDirectory { path } => ActionModel::CreateDirectory { path },
        StateModel::Succeeded { .. } => ActionModel::Idle,
        StateModel::Failed { .. } => ActionModel::Idle,
    }
}

/// Whether a state is terminal.
pub open spec fn terminal_model(s: StateModel) -> bool {
    s is Succeeded || s is Failed
}

/// The state reached from `s` after delivering `events` in order.
pub open spec fn run_model_from(s: StateModel, events: Seq<EventModel>) -> StateModel
    decreases events.len(),
{
    if events.len() == 0 {
        s
    } else {
        run_model_from(step_model(s, events.first()), events.drop_first())
    }
}

/// The state of a fresh provisioning run after delivering `events` in order.
pub open spec fn run_model(events: Seq<EventModel>) -> StateModel {
    run_model_from(StateModel::ResolvingPath, events)
}

/// A terminal state absorbs every further event.
pub proof fn lemma_terminal_absorbs(s: StateModel, events: Seq<EventModel>)
    requires
        terminal_model(s),
    ensures
        run_model_from(s, events) == s,
    decreases events.len(),
{
    if events.len() > 0 {
        lemma_terminal_absorbs(s, events.drop_first());
    }
}

/// If path resolution fails, the run is failed from that moment on with
/// the resolution error carrying the host's cause, and no state of the
/// run ever asks the host for a filesystem action (an existence check or
/// a directory creation): the provisioner fails before any filesystem
/// access.
pub proof fn lemma_resolution_failure_precedes_filesystem_access(
    cause: Seq<char>,
    events: Seq<EventModel>,
)
    requires
        events.len() > 0,
        events.first() == (EventModel::PathResolutionFailed { cause }),
    ensures
        run_model(events) == (StateModel::Failed { error: ErrorModel::PathResolution { cause } }),
        forall|i: int|
            0 <= i <= events.len() ==> {
                let a = action_model(run_model(#[trigger] events.take(i)));
                a is ResolvePath || a is Idle
            },
{
    let failed = StateModel::Failed { error: ErrorModel::PathResolution { cause } };
    assert forall|i: int| 1 <= i <= events.len() implies run_model(events.take(i)) == failed by {
        let p = events.take(i);
        assert(p.first() == events.first());
        assert(step_model(StateModel::ResolvingPath, p.first()) == failed);
        lemma_terminal_absorbs(failed, p.drop_first());
    }
    assert(events.take(events.len() as int) == events);
    assert(run_model(events.take(0)) == StateModel::ResolvingPath);
}

/// A run reaches `Succeeded` only after the host reported the directory
/// as already present or as just created: after a successful run the
/// path exists as a directory.
pub proof fn lemma_success_implies_directory_observed(events: Seq<EventModel>)
    requires
        run_model(events) is Succeeded,
    ensures
        exists|i: int|
            0 <= i < events.len() && (#[trigger] events[i] is DirectoryFound
                || events[i] is DirectoryCreated),
{
    lemma_success_from(StateModel::ResolvingPath, events);
}

/// Helper for [`lemma_success_implies_directory_observed`], generalised
/// over the starting state so that induction goes through.
proof fn lemma_success_from(s: StateModel, events: Seq<EventModel>)
    requires
        !(s is Succeeded),
        run_model_from(s, events) is Succeeded,
    ensures
        exists|i: int|
            0 <= i < events.len() && (#[trigger] events[i] is DirectoryFound
                || events[i] is DirectoryCreated),
    decreases events.len(),
{
    let next = step_model(s, events.first());
    if next is Succeeded {
        assert(events.first() is DirectoryFound || events.first() is DirectoryCreated);
        assert(events[0] is DirectoryFound || events[0] is DirectoryCreated);
    } else {
        lemma_success_from(next, events.drop_first());
        let j = choose|j: int|
            0 <= j < events.drop_first().len() && (#[trigger] events.drop_first()[j]
                is DirectoryFound || events.drop_first()[j] is DirectoryCreated);
        assert(events[j + 1] is DirectoryFound || events[j + 1] is DirectoryCreated);
    }
}

/// With the directory already present, a provisioning run succeeds with
/// the resolved path and never asks for a directory creation. In
/// particular no run that finds the directory present mutates the
/// filesystem, so the directory is still present afterwards and an
/// immediately repeated run succeeds in exactly the same way:
/// provisioning is idempotent.
pub proof fn lemma_present_directory_run_succeeds(path: Seq<char>)
    ensures
        ({
            let events = seq![
                EventModel::PathResolved { path },
                EventModel::DirectoryFound,
            ];
            &&& run_model(events) == (StateModel::Succeeded { path })
            &&& forall|i: int|
                0 <= i <= events.len() ==> !(action_model(
                    run_model(#[trigger] events.take(i)),
                ) is CreateDirectory)
        }),
{
    let events = seq![EventModel::PathResolved { path }, EventModel::DirectoryFound];
    let checking = StateModel::CheckingExistence { path };
    assert(events.take(0) =~= Seq::<EventModel>::empty());
    assert(events.take(1) =~= seq![EventModel::PathResolved { path }]);
    assert(events.take(2) =~= events);
    assert(events.first() == (EventModel::PathResolved { path }));
    assert(step_model(StateModel::ResolvingPath, events.first()) == checking);
    assert(events.take(1).drop_first() =~= Seq::<EventModel>::empty());
    assert(run_model(events.take(1)) == run_model_from(checking, events.take(1).drop_first()));
    assert(run_model_from(checking, events.take(1).drop_first()) == checking);
    assert(events.drop_first() =~= seq![EventModel::DirectoryFound]);
    assert(events.drop_first().first() == EventModel::DirectoryFound);
    assert(step_model(checking, EventModel::DirectoryFound) == (StateModel::Succeeded { path }));
    assert(events.drop_first().drop_first() =~= Seq::<EventModel>::empty());
    assert(run_model(events) == run_model_from(checking, events.drop_first()));
    assert(run_model_from(checking, events.drop_first()) == run_model_from(
        StateModel::Succeeded { path },
        events.drop_first().drop_first(),
    ));
    assert(run_model_from(StateModel::Succeeded { path }, events.drop_first().drop_first())
        == (StateModel::Succeeded { path }));
}

/// A failed directory creation ends the run in `Failed` with the
/// creation error, whose message is fixed and independent of the OS
/// diagnostic; the state is terminal, so nothing further is asked of the
/// host and startup aborts.
pub proof fn lemma_creation_failure_fails_run(path: Seq<char>)
    ensures
        ({
            let events = seq![
                EventModel::PathResolved { path },
                EventModel::DirectoryMissing,
                EventModel::DirectoryCreationFailed,
            ];
            &&& run_model(events) == (StateModel::Failed {
                error: ErrorModel::DirectoryCreation,
            })
            &&& terminal_model(run_model(events))
            &&& action_model(run_model(events)) is Idle
        }),
{
    let events = seq![
        EventModel::PathResolved { path },
        EventModel::DirectoryMissing,
        EventModel::DirectoryCreationFailed,
    ];
    let checking = StateModel::CheckingExistence { path };
    let creating = StateModel::CreatingDirectory { path };
    assert(events.first() == (EventModel::PathResolved { path }));
    assert(step_model(StateModel::ResolvingPath, events.first()) == checking);
    assert(events.drop_first() =~= seq![
        EventModel::DirectoryMissing,
        EventModel::DirectoryCreationFailed,
    ]);
    assert(events.drop_first().first() == EventModel::DirectoryMissing);
    assert(step_model(checking, EventModel::DirectoryMissing) == creating);
    assert(events.drop_first().drop_first() =~= seq![EventModel::DirectoryCreationFailed]);
    assert(events.drop_first().drop_first().first() == EventModel::DirectoryCreationFailed);
    assert(events.drop_first().drop_first().drop_first() =~= Seq::<EventModel>::empty());
    let failed = StateModel::Failed { error: ErrorModel::DirectoryCreation };
    assert(run_model(events) == run_model_from(checking, events.drop_first()));
    assert(run_model_from(checking, events.drop_first()) == run_model_from(
        creating,
        events.drop_first().drop_first(),
    ));
    assert(run_model_from(creating, events.drop_first().drop_first()) == run_model_from(
        failed,
        events.drop_first().drop_first().drop_first(),
    ));
    assert(run_model_from(failed, events.drop_first().drop_first().drop_first()) == failed);
}

impl ProvisionState {
    /// The state a fresh provisioning run starts in.
    pub fn start() -> (s: Self)
        ensures
            s@ == StateModel::ResolvingPath,
    {
        ProvisionState::ResolvingPath
    }

    /// Advances the provisioner by one reported outcome, exactly as
    /// [`step_model`] says.
    pub fn step(self, event: ProvisionEvent) -> (next: Self)
        ensures
            next@ == step_model(self@, event@),
    {
        match (self, event) {
            (ProvisionState::ResolvingPath, ProvisionEvent::PathResolved { path }) => {
                ProvisionState::CheckingExistence { path }
            },
            (ProvisionState::ResolvingPath, ProvisionEvent::PathResolutionFailed { cause }) => {
                ProvisionState::Failed {
                    error: ProvisionError::PathResolution { cause },
                }
            },
            (ProvisionState::CheckingExistence { path }, ProvisionEvent::DirectoryFound) => {
                ProvisionState::Succeeded { path }
            },
            (ProvisionState::CheckingExistence { path }, ProvisionEvent::DirectoryMissing) => {
                ProvisionState::CreatingDirectory { path }
            },
            (ProvisionState::CreatingDirectory { path }, ProvisionEvent::DirectoryCreated) => {
                ProvisionState::Succeeded { path }
            },
            (ProvisionState::CreatingDirectory { .. }, ProvisionEvent::DirectoryCreationFailed) => {
                ProvisionState::Failed { error: ProvisionError::DirectoryCreation }
            },
            (s, _) => s,
        }
    }

    /// What the host should do next, exactly as [`action_model`] says.
    pub fn required_action(&self) -> (a: ProvisionAction)
        ensures
            a@ == action_model(self@),
    {
        match self {
            ProvisionState::ResolvingPath => ProvisionAction::ResolvePath,
            ProvisionState::CheckingExistence { path } => ProvisionAction::CheckExistence {
                path: path.clone(),
            },
            ProvisionState::CreatingDirectory { path } => ProvisionAction::CreateDirectory {
                path: path.clone(),
            },
            ProvisionState::Succeeded { .. } => ProvisionAction::Idle,
            ProvisionState::Failed { .. } => ProvisionAction::Idle,
        }
    }

    /// Whether the run is over.
    pub fn is_finished(&self) -> (b: bool)
        ensures
            b == terminal_model(self@),
    {
        match self {
            ProvisionState::Succeeded { .. } => true,
            ProvisionState::Failed { .. } => true,
            _ => false,
        }
    }

    /// The resolved path that a successful run surfaces for diagnostics;
    /// `None` in every other state.
    pub fn emitted_path(&self) -> (p: Option<&String>)
        ensures
            match self@ {
                StateModel::Succeeded { path } => p matches Some(q) && q@ == path,
                _ => p is None,
            },
    {
        match self {
            ProvisionState::Succeeded { path } => Some(path),
            _ => None,
        }
    }

    /// The error a failed run ends in; `None` in every other state.
    pub fn error(&self) -> (e: Option<&ProvisionError>)
        ensures
            match self@ {
                StateModel::Failed { error } => e matches Some(err) && err@ == error,
                _ => e is None,
            },
    {
        match self {
            ProvisionState::Failed { error } => Some(error),
            _ => None,
        }
    }
}

} // verus!
