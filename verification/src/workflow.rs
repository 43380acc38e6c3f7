//! The update-then-launch workflow as a state machine.
//!
//! The machine decides; its driver performs. [`UpdateWorkflow::step`] takes
//! the outcome of the work that was asked for last and answers with the
//! commands to carry out next, in order. The last command of an answer, if
//! it is not a notification or a ledger entry, is the work whose outcome the
//! next call expects.

use vstd::prelude::*;
use crate::catalog::{packages_view, Localization, LocalizationView};
use crate::error::{LauncherError, LauncherErrorView};
use crate::metadata::{InstalledLocalization, InstalledMetadata, InstalledView};
use crate::reconcile::{
    notes_of,
    notifications_view,
    reconcile,
    stale_of,
    Notification,
    NotificationView,
};
use crate::settings::{active_source_of, ActiveSource, AppSettings, SettingsView};

verus! {

/// Something for the driver to do.
#[derive(Debug)]
pub enum Command {
    /// Tell the observer; delivery is not awaited.
    Notify(Notification),
    /// Find out whether the game is running.
    CheckGameRunning,
    /// Fetch the catalog of the named source from the address.
    FetchCatalog { source: String, url: String },
    /// Hand over the ledger of installed packages.
    ReadLedger,
    /// Install the package and its font, holding the package's lock.
    Install(Localization),
    /// Write the entry into the ledger in memory.
    Record(InstalledLocalization),
    /// Write the ledger to disk.
    Persist,
    /// Start the game.
    Launch,
}

/// The mathematical value of a [`Command`].
pub enum CommandView {
    Notify(NotificationView),
    CheckGameRunning,
    FetchCatalog { source: Seq<char>, url: Seq<char> },
    ReadLedger,
    Install(LocalizationView),
    Record(InstalledView),
    Persist,
    Launch,
}

impl View for Command {
    type V = CommandView;

    open spec fn view(&self) -> CommandView {
        match self {
            Command::Notify(notification) => CommandView::Notify(notification@),
            Command::CheckGameRunning => CommandView::CheckGameRunning,
            Command::FetchCatalog { source, url } => CommandView::FetchCatalog {
                source: source@,
                url: url@,
            },
            Command::ReadLedger => CommandView::ReadLedger,
            Command::Install(package) => CommandView::Install(package@),
            Command::Record(record) => CommandView::Record(record@),
            Command::Persist => CommandView::Persist,
            Command::Launch => CommandView::Launch,
        }
    }
}

/// The values of a list of commands, in order.
pub open spec fn commands_view(commands: Seq<Command>) -> Seq<CommandView> {
    commands.map_values(|command: Command| command@)
}

/// The outcome of work the machine asked for.
#[derive(Debug)]
pub enum Event {
    /// The workflow is to begin.
    Begin,
    /// The game was found running, or not.
    GameChecked { running: bool },
    /// The catalog arrived, or fetching it failed.
    CatalogFetched(Result<Vec<Localization>, LauncherError>),
    /// The ledger as it stands, or nothing where none is loaded.
    LedgerRead(Option<InstalledMetadata>),
    /// The package asked for was installed, or installing it failed.
    InstallFinished(Result<(), LauncherError>),
    /// The ledger was written, or writing it failed.
    Persisted(Result<(), LauncherError>),
    /// The game was started, or starting it failed.
    Launched(Result<(), LauncherError>),
}

/// The mathematical value of an [`Event`].
pub enum EventView {
    Begin,
    GameChecked { running: bool },
    CatalogFetched(Result<Seq<LocalizationView>, LauncherErrorView>),
    LedgerRead(Option<Seq<InstalledView>>),
    InstallFinished(Result<(), LauncherErrorView>),
    Persisted(Result<(), LauncherErrorView>),
    Launched(Result<(), LauncherErrorView>),
}

/// The value of the outcome of work that yields nothing but success.
pub open spec fn outcome_view(outcome: Result<(), LauncherError>) -> Result<(), LauncherErrorView> {
    match outcome {
        Ok(()) => Ok(()),
        Err(e) => Err(e@),
    }
}

impl View for Event {
    type V = EventView;

    open spec fn view(&self) -> EventView {
        match self {
            Event::Begin => EventView::Begin,
            Event::GameChecked { running } => EventView::GameChecked { running: *running },
            Event::CatalogFetched(fetched) => EventView::CatalogFetched(
                match fetched {
                    Ok(catalog) => Ok(packages_view(catalog@)),
                    Err(e) => Err(e@),
                },
            ),
            Event::LedgerRead(ledger) => EventView::LedgerRead(
                match ledger {
                    Some(metadata) => Some(metadata@),
                    None => None,
                },
            ),
            Event::InstallFinished(outcome) => EventView::InstallFinished(outcome_view(*outcome)),
            Event::Persisted(outcome) => EventView::Persisted(outcome_view(*outcome)),
            Event::Launched(outcome) => EventView::Launched(outcome_view(*outcome)),
        }
    }
}

/// Where a workflow stands, without what it carries.
#[derive(Clone, Copy, PartialEq, Eq, Structural, Debug)]
pub enum Phase {
    Started,
    GameRunningCheck,
    CatalogFetch,
    Diff,
    Updating,
    Persist,
    Launch,
    Finished,
    Aborted,
}

/// The place of a phase in the order the workflow passes through them.
pub open spec fn rank(phase: Phase) -> nat {
    match phase {
        Phase::Started => 0,
        Phase::GameRunningCheck => 1,
        Phase::CatalogFetch => 2,
        Phase::Diff => 3,
        Phase::Updating => 4,
        Phase::Persist => 5,
        Phase::Launch => 6,
        Phase::Finished => 7,
        Phase::Aborted => 8,
    }
}

/// The update-then-launch workflow: its phase and what it carries there.
#[derive(Debug)]
pub enum UpdateWorkflow {
    /// Nothing has happened yet.
    Started { selected: Option<ActiveSource> },
    /// Waiting to learn whether the game is running.
    GameRunningCheck { selected: Option<ActiveSource> },
    /// Waiting for the catalog of the named source.
    CatalogFetch { source: String },
    /// Holding the catalog, waiting for the ledger to compare it with.
    Diff { source: String, catalog: Vec<Localization> },
    /// Waiting for `current` to be installed; `rest` follows, in order.
    Updating { source: String, current: Localization, rest: Vec<Localization> },
    /// Waiting for the ledger to be written.
    Persist,
    /// Waiting for the game to start.
    Launch,
    /// Done: the game was started.
    Finished,
    /// Given up, for the reason held.
    Aborted(LauncherError),
}

/// The mathematical value of an [`UpdateWorkflow`].
pub enum WorkflowView {
    Started { selected: Option<(Seq<char>, Seq<char>)> },
    GameRunningCheck { selected: Option<(Seq<char>, Seq<char>)> },
    CatalogFetch { source: Seq<char> },
    Diff { source: Seq<char>, catalog: Seq<LocalizationView> },
    Updating { source: Seq<char>, current: LocalizationView, rest: Seq<LocalizationView> },
    Persist,
    Launch,
    Finished,
    Aborted(LauncherErrorView),
}

/// The value of an optional active source: its name and its address.
pub open spec fn source_view(source: Option<ActiveSource>) -> Option<(Seq<char>, Seq<char>)> {
    match source {
        Some(active) => Some((active.name@, active.url@)),
        None => None,
    }
}

impl View for UpdateWorkflow {
    type V = WorkflowView;

    open spec fn view(&self) -> WorkflowView {
        match self {
            UpdateWorkflow::Started { selected } => WorkflowView::Started {
                selected: source_view(*selected),
            },
            UpdateWorkflow::GameRunningCheck { selected } => WorkflowView::GameRunningCheck {
                selected: source_view(*selected),
            },
            UpdateWorkflow::CatalogFetch { source } => WorkflowView::CatalogFetch {
                source: source@,
            },
            UpdateWorkflow::Diff { source, catalog } => WorkflowView::Diff {
                source: source@,
                catalog: packages_view(catalog@),
            },
            UpdateWorkflow::Updating { source, current, rest } => WorkflowView::Updating {
                source: source@,
                current: current@,
                rest: packages_view(rest@),
            },
            UpdateWorkflow::Persist => WorkflowView::Persist,
            UpdateWorkflow::Launch => WorkflowView::Launch,
            UpdateWorkflow::Finished => WorkflowView::Finished,
            UpdateWorkflow::Aborted(reason) => WorkflowView::Aborted(reason@),
        }
    }
}

/// The phase of a workflow state.
pub open spec fn phase_of(state: WorkflowView) -> Phase {
    match state {
        WorkflowView::Started { .. } => Phase::Started,
        WorkflowView::GameRunningCheck { .. } => Phase::GameRunningCheck,
        WorkflowView::CatalogFetch { .. } => Phase::CatalogFetch,
        WorkflowView::Diff { .. } => Phase::Diff,
        WorkflowView::Updating { .. } => Phase::Updating,
        WorkflowView::Persist => Phase::Persist,
        WorkflowView::Launch => Phase::Launch,
        WorkflowView::Finished => Phase::Finished,
        WorkflowView::Aborted(_) => Phase::Aborted,
    }
}

/// Whether a phase is one of the two the workflow ends in.
pub open spec fn is_terminal(phase: Phase) -> bool {
    phase == Phase::Finished || phase == Phase::Aborted
}

/// One notification command for each notification, in order.
pub open spec fn notify_all(notes: Seq<NotificationView>) -> Seq<CommandView> {
    notes.map_values(|note: NotificationView| CommandView::Notify(note))
}

/// Giving up for `reason`, with nothing left to do.
pub open spec fn abort(reason: LauncherErrorView) -> (WorkflowView, Seq<CommandView>) {
    (WorkflowView::Aborted(reason), Seq::empty())
}

/// Taking up the packages still to install: the first is announced and
/// asked for; with none left the ledger is to be written.
pub open spec fn take_up(source: Seq<char>, stale: Seq<LocalizationView>) -> (
    WorkflowView,
    Seq<CommandView>,
) {
    if stale.len() == 0 {
        (WorkflowView::Persist, seq![CommandView::Persist])
    } else {
        (
            WorkflowView::Updating { source, current: stale[0], rest: stale.drop_first() },
            seq![
                CommandView::Notify(NotificationView::Updating(stale[0].id)),
                CommandView::Install(stale[0]),
            ],
        )
    }
}

/// The ledger entry for a package installed from `source`.
pub open spec fn entry_for(package: LocalizationView, source: Seq<char>) -> InstalledView {
    InstalledView { id: package.id, version: package.version, source }
}

/// The transition function: the state after `event` and the commands the
/// machine answers with.
///
/// An outcome the current phase did not ask for aborts the workflow, and so
/// does every failure. The two terminal phases answer every event with
/// nothing and stay as they are.
pub open spec fn next(state: WorkflowView, event: EventView) -> (WorkflowView, Seq<CommandView>) {
    match state {
        WorkflowView::Finished => (state, Seq::empty()),
        WorkflowView::Aborted(_) => (state, Seq::empty()),
        WorkflowView::Started { selected } => match event {
            EventView::Begin => (
                WorkflowView::GameRunningCheck { selected },
                seq![
                    CommandView::Notify(NotificationView::Started),
                    CommandView::CheckGameRunning,
                ],
            ),
            _ => abort(LauncherErrorView::UnexpectedEvent),
        },
        WorkflowView::GameRunningCheck { selected } => match event {
            EventView::GameChecked { running } => if running {
                (
                    WorkflowView::Aborted(LauncherErrorView::GameAlreadyRunning),
                    seq![CommandView::Notify(NotificationView::GameRunning)],
                )
            } else {
                match selected {
                    Some((name, url)) => (
                        WorkflowView::CatalogFetch { source: name },
                        seq![CommandView::FetchCatalog { source: name, url }],
                    ),
                    None => abort(LauncherErrorView::NoActiveSource),
                }
            },
            _ => abort(LauncherErrorView::UnexpectedEvent),
        },
        WorkflowView::CatalogFetch { source } => match event {
            EventView::CatalogFetched(Ok(catalog)) => (
                WorkflowView::Diff { source, catalog },
                seq![CommandView::ReadLedger],
            ),
            EventView::CatalogFetched(Err(reason)) => abort(reason),
            _ => abort(LauncherErrorView::UnexpectedEvent),
        },
        WorkflowView::Diff { source, catalog } => match event {
            EventView::LedgerRead(Some(installed)) => {
                let (after, commands) = take_up(source, stale_of(installed, catalog));
                (after, notify_all(notes_of(installed, catalog)) + commands)
            },
            EventView::LedgerRead(None) => abort(LauncherErrorView::NoInstalledMetadata),
            _ => abort(LauncherErrorView::UnexpectedEvent),
        },
        WorkflowView::Updating { source, current, rest } => match event {
            EventView::InstallFinished(Ok(())) => {
                let (after, commands) = take_up(source, rest);
                (
                    after,
                    seq![
                        CommandView::Notify(NotificationView::UpdateFinished(current.id)),
                        CommandView::Record(entry_for(current, source)),
                    ] + commands,
                )
            },
            EventView::InstallFinished(Err(reason)) => abort(reason),
            _ => abort(LauncherErrorView::UnexpectedEvent),
        },
        WorkflowView::Persist => match event {
            EventView::Persisted(Ok(())) => (
                WorkflowView::Launch,
                seq![CommandView::Notify(NotificationView::StartingGame), CommandView::Launch],
            ),
            EventView::Persisted(Err(reason)) => abort(reason),
            _ => abort(LauncherErrorView::UnexpectedEvent),
        },
        WorkflowView::Launch => match event {
            EventView::Launched(Ok(())) => (
                WorkflowView::Finished,
                seq![CommandView::Notify(NotificationView::Finished)],
            ),
            EventView::Launched(Err(reason)) => abort(reason),
            _ => abort(LauncherErrorView::UnexpectedEvent),
        },
    }
}

/// The state a workflow starts in under the given settings.
pub open spec fn initial(settings: SettingsView) -> WorkflowView {
    WorkflowView::Started { selected: active_source_of(settings) }
}

/// Gives up with the reason held, asking for nothing.
fn give_up(reason: LauncherError) -> (answer: (UpdateWorkflow, Vec<Command>))
    ensures
        (answer.0@, commands_view(answer.1@)) == abort(reason@),
{
    let commands: Vec<Command> = Vec::new();
    (UpdateWorkflow::Aborted(reason), commands)
}

/// Appends to `commands` what taking up `stale` asks for, and gives the
/// state that follows.
fn take_up_next(source: String, stale: Vec<Localization>, commands: &mut Vec<Command>) -> (after:
    UpdateWorkflow)
    ensures
        after@ == take_up(source@, packages_view(stale@)).0,
        commands_view(final(commands)@) == commands_view(old(commands)@) + take_up(
            source@,
            packages_view(stale@),
        ).1,
{
    let ghost packages = packages_view(stale@);
    let mut rest = stale;
    if rest.len() == 0 {
        commands.push(Command::Persist);
        UpdateWorkflow::Persist
    } else {
        let current = rest.remove(0);
        assert(packages_view(rest@) =~= packages.drop_first());
        commands.push(Command::Notify(Notification::Updating(current.id.clone())));
        commands.push(Command::Install(current.clone()));
        UpdateWorkflow::Updating { source, current, rest }
    }
}

/// One notification command for each notification, in order.
fn announce(notifications: &Vec<Notification>) -> (commands: Vec<Command>)
    ensures
        commands_view(commands@) == notify_all(notifications_view(notifications@)),
{
    let mut commands: Vec<Command> = Vec::new();
    let mut i: usize = 0;
    while i < notifications.len()
        invariant
            i <= notifications.len(),
            commands.len() == i,
            forall|j: int| 0 <= j < i ==> commands@[j]@ == CommandView::Notify(notifications@[j]@),
        decreases notifications.len() - i,
    {
        commands.push(Command::Notify(notifications[i].clone()));
        i += 1;
    }
    commands
}

impl UpdateWorkflow {
    /// A workflow that has not begun, for the source these settings select.
    pub fn new(settings: &AppSettings) -> (workflow: Self)
        ensures
            workflow@ == initial(settings@),
    {
        match settings.active_source() {
            Ok(active) => UpdateWorkflow::Started { selected: Some(active) },
            Err(_) => UpdateWorkflow::Started { selected: None },
        }
    }

    /// The phase the workflow is in.
    pub fn phase(&self) -> (phase: Phase)
        ensures
            phase == phase_of(self@),
    {
        match self {
            UpdateWorkflow::Started { .. } => Phase::Started,
            UpdateWorkflow::GameRunningCheck { .. } => Phase::GameRunningCheck,
            UpdateWorkflow::CatalogFetch { .. } => Phase::CatalogFetch,
            UpdateWorkflow::Diff { .. } => Phase::Diff,
            UpdateWorkflow::Updating { .. } => Phase::Updating,
            UpdateWorkflow::Persist => Phase::Persist,
            UpdateWorkflow::Launch => Phase::Launch,
            UpdateWorkflow::Finished => Phase::Finished,
            UpdateWorkflow::Aborted(_) => Phase::Aborted,
        }
    }

    /// Whether the workflow has ended, in success or in failure.
    pub fn is_over(&self) -> (over: bool)
        ensures
            over == is_terminal(phase_of(self@)),
    {
        match self {
            UpdateWorkflow::Finished => true,
            UpdateWorkflow::Aborted(_) => true,
            _ => false,
        }
    }

    /// The reason the workflow gave up for, if it did.
    pub fn failure(&self) -> (reason: Option<LauncherError>)
        ensures
            match reason {
                Some(e) => self@ == WorkflowView::Aborted(e@),
                None => phase_of(self@) != Phase::Aborted,
            },
    {
        match self {
            UpdateWorkflow::Aborted(reason) => Some(reason.clone()),
            _ => None,
        }
    }

    /// Takes `event` and answers with the state that follows and the
    /// commands to carry out, in order.
    pub fn step(self, event: Event) -> (answer: (UpdateWorkflow, Vec<Command>))
        ensures
            (answer.0@, commands_view(answer.1@)) == next(self@, event@),
    {
        match self {
            UpdateWorkflow::Finished => {
                let commands: Vec<Command> = Vec::new();
                (UpdateWorkflow::Finished, commands)
            },
            UpdateWorkflow::Aborted(reason) => {
                let commands: Vec<Command> = Vec::new();
                (UpdateWorkflow::Aborted(reason), commands)
            },
            UpdateWorkflow::Started { selected } => match event {
                Event::Begin => {
                    let mut commands: Vec<Command> = Vec::new();
                    commands.push(Command::Notify(Notification::Started));
                    commands.push(Command::CheckGameRunning);
                    (UpdateWorkflow::GameRunningCheck { selected }, commands)
                },
                _ => give_up(LauncherError::UnexpectedEvent),
            },
            UpdateWorkflow::GameRunningCheck { selected } => match event {
                Event::GameChecked { running } => {
                    if running {
                        let mut commands: Vec<Command> = Vec::new();
                        commands.push(Command::Notify(Notification::GameRunning));
                        (UpdateWorkflow::Aborted(LauncherError::GameAlreadyRunning), commands)
                    } else {
                        match selected {
                            Some(active) => {
                                let mut commands: Vec<Command> = Vec::new();
                                let name = active.name.clone();
                                commands.push(
                                    Command::FetchCatalog { source: active.name, url: active.url },
                                );
                                (UpdateWorkflow::CatalogFetch { source: name }, commands)
                            },
                            None => give_up(LauncherError::NoActiveSource),
                        }
                    }
                },
                _ => give_up(LauncherError::UnexpectedEvent),
            },
            UpdateWorkflow::CatalogFetch { source } => match event {
                Event::CatalogFetched(Ok(catalog)) => {
                    let mut commands: Vec<Command> = Vec::new();
                    commands.push(Command::ReadLedger);
                    (UpdateWorkflow::Diff { source, catalog }, commands)
                },
                Event::CatalogFetched(Err(reason)) => give_up(reason),
                _ => give_up(LauncherError::UnexpectedEvent),
            },
            UpdateWorkflow::Diff { source, catalog } => match event {
                Event::LedgerRead(Some(metadata)) => {
                    let installed = metadata.records();
                    let found = reconcile(&installed, &catalog);
                    let mut commands = announce(&found.notifications);
                    let after = take_up_next(source, found.stale, &mut commands);
                    (after, commands)
                },
                Event::LedgerRead(None) => give_up(LauncherError::NoInstalledMetadata),
                _ => give_up(LauncherError::UnexpectedEvent),
            },
            UpdateWorkflow::Updating { source, current, rest } => match event {
                Event::InstallFinished(Ok(())) => {
                    let mut commands: Vec<Command> = Vec::new();
                    commands.push(Command::Notify(Notification::UpdateFinished(current.id.clone())));
                    commands.push(
                        Command::Record(InstalledLocalization::of(&current, source.as_str())),
                    );
                    let after = take_up_next(source, rest, &mut commands);
                    (after, commands)
                },
                Event::InstallFinished(Err(reason)) => give_up(reason),
                _ => give_up(LauncherError::UnexpectedEvent),
            },
            UpdateWorkflow::Persist => match event {
                Event::Persisted(Ok(())) => {
                    let mut commands: Vec<Command> = Vec::new();
                    commands.push(Command::Notify(Notification::StartingGame));
                    commands.push(Command::Launch);
                    (UpdateWorkflow::Launch, commands)
                },
                Event::Persisted(Err(reason)) => give_up(reason),
                _ => give_up(LauncherError::UnexpectedEvent),
            },
            UpdateWorkflow::Launch => match event {
                Event::Launched(Ok(())) => {
                    let mut commands: Vec<Command> = Vec::new();
                    commands.push(Command::Notify(Notification::Finished));
                    (UpdateWorkflow::Finished, commands)
                },
                Event::Launched(Err(reason)) => give_up(reason),
                _ => give_up(LauncherError::UnexpectedEvent),
            },
        }
    }
}

} // verus!
