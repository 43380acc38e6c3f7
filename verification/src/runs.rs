//! What holds of the workflow step by step, and of whole runs of it.

use vstd::prelude::*;
use crate::catalog::LocalizationView;
use crate::error::LauncherErrorView;
use crate::metadata::InstalledView;
use crate::reconcile::{notes_of, stale_of, NotificationView};
use crate::workflow::{
    entry_for,
    is_terminal,
    next,
    notify_all,
    phase_of,
    rank,
    take_up,
    CommandView,
    EventView,
    Phase,
    WorkflowView,
};

verus! {

/// The workflow never returns to an earlier phase.
pub proof fn never_goes_back(state: WorkflowView, event: EventView)
    ensures
        rank(phase_of(state)) <= rank(phase_of(next(state, event).0)),
{
}

/// A workflow that has ended stays as it is and asks for nothing.
pub proof fn ended_stays_ended(state: WorkflowView, event: EventView)
    requires
        is_terminal(phase_of(state)),
    ensures
        next(state, event) == (state, Seq::<CommandView>::empty()),
{
}

/// The outcome that makes a workflow in the given state give up for
/// `reason`.
pub open spec fn failing_event(state: WorkflowView, reason: LauncherErrorView) -> EventView {
    match state {
        WorkflowView::CatalogFetch { .. } => EventView::CatalogFetched(Err(reason)),
        WorkflowView::Diff { .. } => EventView::LedgerRead(None),
        WorkflowView::Updating { .. } => EventView::InstallFinished(Err(reason)),
        WorkflowView::Persist => EventView::Persisted(Err(reason)),
        WorkflowView::Launch => EventView::Launched(Err(reason)),
        WorkflowView::GameRunningCheck { .. } => EventView::GameChecked { running: true },
        _ => EventView::Launched(Err(reason)),
    }
}

/// From every state that is not terminal one event leads to `Aborted`.
pub proof fn abort_is_reachable(state: WorkflowView, reason: LauncherErrorView)
    requires
        !is_terminal(phase_of(state)),
    ensures
        phase_of(next(state, failing_event(state, reason)).0) == Phase::Aborted,
{
}

/// A failed fetch, install, write or launch aborts with the failure's own
/// reason.
pub proof fn failure_is_the_reason(state: WorkflowView, reason: LauncherErrorView)
    requires
        state is CatalogFetch || state is Updating || state is Persist || state is Launch,
    ensures
        next(state, failing_event(state, reason)).0 == WorkflowView::Aborted(reason),
{
}

/// A step that gives up asks for no work: whatever it answers with is a
/// notification.
pub proof fn giving_up_asks_for_nothing(state: WorkflowView, event: EventView, i: int)
    requires
        phase_of(next(state, event).0) == Phase::Aborted,
        0 <= i < next(state, event).1.len(),
    ensures
        next(state, event).1[i] is Notify,
{
}

/// A running game stops the workflow before anything is fetched, with the
/// one notification that says so.
pub proof fn running_game_aborts(selected: Option<(Seq<char>, Seq<char>)>)
    ensures
        next(
            WorkflowView::GameRunningCheck { selected },
            EventView::GameChecked { running: true },
        ) == (
            WorkflowView::Aborted(LauncherErrorView::GameAlreadyRunning),
            seq![CommandView::Notify(NotificationView::GameRunning)],
        ),
{
}

/// What the answer to the ledger holds at a given place: a notification, the
/// install of the first stale package, or the request to write the ledger
/// when nothing is stale.
proof fn diff_answer_at(
    source: Seq<char>,
    catalog: Seq<LocalizationView>,
    installed: Seq<InstalledView>,
    at: int,
)
    requires
        0 <= at < next(
            WorkflowView::Diff { source, catalog },
            EventView::LedgerRead(Some(installed)),
        ).1.len(),
    ensures
        ({
            let command = next(
                WorkflowView::Diff { source, catalog },
                EventView::LedgerRead(Some(installed)),
            ).1[at];
            ||| command is Notify
            ||| command is Install
            ||| command == CommandView::Persist && stale_of(installed, catalog).len() == 0
        }),
{
}

/// What the answer to a successful install holds at a given place.
proof fn install_answer_at(
    source: Seq<char>,
    current: LocalizationView,
    rest: Seq<LocalizationView>,
    at: int,
)
    requires
        0 <= at < next(
            WorkflowView::Updating { source, current, rest },
            EventView::InstallFinished(Ok(())),
        ).1.len(),
    ensures
        ({
            let command = next(
                WorkflowView::Updating { source, current, rest },
                EventView::InstallFinished(Ok(())),
            ).1[at];
            ||| command is Notify
            ||| command is Install
            ||| command == CommandView::Record(entry_for(current, source))
            ||| command == CommandView::Persist && rest.len() == 0
        }),
{
}

/// The game is launched only after the ledger was written.
pub proof fn launch_follows_persist(state: WorkflowView, event: EventView)
    requires
        next(state, event).1.contains(CommandView::Launch),
    ensures
        state == WorkflowView::Persist,
        event matches EventView::Persisted(Ok(_)),
{
    let commands = next(state, event).1;
    let at = choose|at: int| 0 <= at < commands.len() && commands[at] == CommandView::Launch;
    match state {
        WorkflowView::Diff { source, catalog } => {
            match event {
                EventView::LedgerRead(Some(installed)) => {
                    diff_answer_at(source, catalog, installed, at);
                },
                _ => {},
            }
        },
        WorkflowView::Updating { source, current, rest } => {
            match event {
                EventView::InstallFinished(Ok(())) => {
                    install_answer_at(source, current, rest, at);
                },
                _ => {},
            }
        },
        _ => {},
    }
}

/// The ledger is written only when no package is left to install.
pub proof fn persist_follows_updates(state: WorkflowView, event: EventView)
    requires
        next(state, event).1.contains(CommandView::Persist),
    ensures
        match state {
            WorkflowView::Diff { source, catalog } => event matches EventView::LedgerRead(
                Some(installed),
            ) && stale_of(installed, catalog).len() == 0,
            WorkflowView::Updating { source, current, rest } => event matches EventView::InstallFinished(
                Ok(_),
            ) && rest.len() == 0,
            _ => false,
        },
{
    let commands = next(state, event).1;
    let at = choose|at: int| 0 <= at < commands.len() && commands[at] == CommandView::Persist;
    match state {
        WorkflowView::Diff { source, catalog } => {
            match event {
                EventView::LedgerRead(Some(installed)) => {
                    diff_answer_at(source, catalog, installed, at);
                },
                _ => {},
            }
        },
        WorkflowView::Updating { source, current, rest } => {
            match event {
                EventView::InstallFinished(Ok(())) => {
                    install_answer_at(source, current, rest, at);
                },
                _ => {},
            }
        },
        _ => {},
    }
}

/// A ledger entry is written only for the package whose install just
/// succeeded, with the catalog's version and the active source.
pub proof fn only_installs_are_recorded(
    state: WorkflowView,
    event: EventView,
    entry: InstalledView,
)
    requires
        next(state, event).1.contains(CommandView::Record(entry)),
    ensures
        state matches WorkflowView::Updating { source, current, rest } && event matches EventView::InstallFinished(
            Ok(_),
        ) && entry == entry_for(current, source),
{
    let commands = next(state, event).1;
    let at = choose|at: int| 0 <= at < commands.len() && commands[at] == CommandView::Record(entry);
    match state {
        WorkflowView::Diff { source, catalog } => {
            match event {
                EventView::LedgerRead(Some(installed)) => {
                    diff_answer_at(source, catalog, installed, at);
                },
                _ => {},
            }
        },
        _ => {},
    }
}

/// The packages a state still has to install, the one in work first.
pub open spec fn scheduled(state: WorkflowView) -> Seq<LocalizationView> {
    match state {
        WorkflowView::Updating { source, current, rest } => seq![current] + rest,
        _ => Seq::empty(),
    }
}

/// Comparing ledger and catalog announces every entry that needs no update
/// and schedules exactly the stale ones, in ledger order.
pub proof fn diff_schedules_the_stale(
    source: Seq<char>,
    catalog: Seq<LocalizationView>,
    installed: Seq<InstalledView>,
)
    ensures
        ({
            let answer = next(
                WorkflowView::Diff { source, catalog },
                EventView::LedgerRead(Some(installed)),
            );
            let notes = notify_all(notes_of(installed, catalog));
            &&& scheduled(answer.0) == stale_of(installed, catalog)
            &&& answer.1.subrange(0, notes.len() as int) == notes
            &&& answer.1.len() <= notes.len() + 2
        }),
{
}

/// The state and the commands that `events`, taken one after the other,
/// lead to from `state`.
pub open spec fn run(state: WorkflowView, events: Seq<EventView>) -> (
    WorkflowView,
    Seq<CommandView>,
)
    decreases events.len(),
{
    if events.len() == 0 {
        (state, Seq::empty())
    } else {
        let first = next(state, events[0]);
        let others = run(first.0, events.drop_first());
        (others.0, first.1 + others.1)
    }
}

/// Running two sequences of events one after the other is running their
/// concatenation.
pub proof fn run_in_two_parts(state: WorkflowView, head: Seq<EventView>, tail: Seq<EventView>)
    ensures
        run(state, head + tail) == (
            run(run(state, head).0, tail).0,
            run(state, head).1 + run(run(state, head).0, tail).1,
        ),
    decreases head.len(),
{
    if head.len() == 0 {
    } else {
        let first = next(state, head[0]);
        assert((head + tail).drop_first() =~= head.drop_first() + tail);
        run_in_two_parts(first.0, head.drop_first(), tail);
    }
}

/// `count` installs that succeed.
pub open spec fn successes(count: nat) -> Seq<EventView> {
    Seq::new(count, |i: int| EventView::InstallFinished(Ok(())))
}

/// Everything the update phase asks for when each install succeeds: for each
/// package in turn the announcement, the install, the announcement that it
/// is done and its ledger entry; then the request to write the ledger.
pub open spec fn update_commands(source: Seq<char>, stale: Seq<LocalizationView>) -> Seq<
    CommandView,
>
    decreases stale.len(),
{
    if stale.len() == 0 {
        seq![CommandView::Persist]
    } else {
        seq![
            CommandView::Notify(NotificationView::Updating(stale[0].id)),
            CommandView::Install(stale[0]),
            CommandView::Notify(NotificationView::UpdateFinished(stale[0].id)),
            CommandView::Record(entry_for(stale[0], source)),
        ] + update_commands(source, stale.drop_first())
    }
}

/// When every install succeeds, the stale packages are installed one after
/// the other in order, each recorded as soon as it is done, and the ledger
/// is written after the last.
pub proof fn updates_run_in_order(source: Seq<char>, stale: Seq<LocalizationView>)
    ensures
        ({
            let begun = take_up(source, stale);
            let ended = run(begun.0, successes(stale.len()));
            &&& ended.0 == WorkflowView::Persist
            &&& begun.1 + ended.1 == update_commands(source, stale)
        }),
    decreases stale.len(),
{
    let events = successes(stale.len());
    if stale.len() == 0 {
    } else {
        let rest = stale.drop_first();
        updates_run_in_order(source, rest);
        assert(events.drop_first() =~= successes(rest.len()));
    }
}

/// Everything the update phase has asked for when the install of the
/// package at `failed` fails: the packages before it are installed and
/// recorded, the one at `failed` is announced and asked for, and nothing
/// follows.
pub open spec fn interrupted_commands(
    source: Seq<char>,
    stale: Seq<LocalizationView>,
    failed: nat,
) -> Seq<CommandView>
    decreases failed,
{
    if stale.len() == 0 {
        Seq::empty()
    } else if failed == 0 {
        seq![
            CommandView::Notify(NotificationView::Updating(stale[0].id)),
            CommandView::Install(stale[0]),
        ]
    } else {
        seq![
            CommandView::Notify(NotificationView::Updating(stale[0].id)),
            CommandView::Install(stale[0]),
            CommandView::Notify(NotificationView::UpdateFinished(stale[0].id)),
            CommandView::Record(entry_for(stale[0], source)),
        ] + interrupted_commands(source, stale.drop_first(), (failed - 1) as nat)
    }
}

/// A failed install ends the batch at once: the workflow aborts with the
/// failure's reason, the packages installed before it keep their new ledger
/// entries, the others get none, and the ledger is not written.
pub proof fn failed_install_stops_the_batch(
    source: Seq<char>,
    stale: Seq<LocalizationView>,
    failed: nat,
    reason: LauncherErrorView,
)
    requires
        failed < stale.len(),
    ensures
        ({
            let begun = take_up(source, stale);
            let ended = run(
                begun.0,
                successes(failed) + seq![EventView::InstallFinished(Err(reason))],
            );
            &&& ended.0 == WorkflowView::Aborted(reason)
            &&& begun.1 + ended.1 == interrupted_commands(source, stale, failed)
        }),
    decreases failed,
{
    let events = successes(failed) + seq![EventView::InstallFinished(Err(reason))];
    if failed == 0 {
        assert(events =~= seq![EventView::InstallFinished(Err(reason))]);
        reveal_with_fuel(run, 2);
    } else {
        let fewer = (failed - 1) as nat;
        failed_install_stops_the_batch(source, stale.drop_first(), fewer, reason);
        assert(events.drop_first() =~= successes(fewer) + seq![
            EventView::InstallFinished(Err(reason)),
        ]);
    }
}

/// The events of a run in which nothing fails and `installs` packages are
/// installed.
pub open spec fn smooth_events(
    catalog: Seq<LocalizationView>,
    installed: Seq<InstalledView>,
    installs: nat,
) -> Seq<EventView> {
    seq![
        EventView::Begin,
        EventView::GameChecked { running: false },
        EventView::CatalogFetched(Ok(catalog)),
        EventView::LedgerRead(Some(installed)),
    ] + successes(installs) + seq![EventView::Persisted(Ok(())), EventView::Launched(Ok(()))]
}

/// A run in which nothing fails ends in `Finished`, and what it asks for is,
/// in this order: the start announcement and the check for a running game;
/// the catalog; the ledger; one announcement for each entry that needs no
/// update; the updates, one package after the other; the writing of the
/// ledger; the launch, announced before and after.
pub proof fn smooth_run(
    name: Seq<char>,
    url: Seq<char>,
    catalog: Seq<LocalizationView>,
    installed: Seq<InstalledView>,
)
    ensures
        run(
            WorkflowView::Started { selected: Some((name, url)) },
            smooth_events(catalog, installed, stale_of(installed, catalog).len()),
        ) == (
            WorkflowView::Finished,
            seq![
                CommandView::Notify(NotificationView::Started),
                CommandView::CheckGameRunning,
                CommandView::FetchCatalog { source: name, url },
                CommandView::ReadLedger,
            ] + notify_all(notes_of(installed, catalog)) + update_commands(
                name,
                stale_of(installed, catalog),
            ) + seq![
                CommandView::Notify(NotificationView::StartingGame),
                CommandView::Launch,
                CommandView::Notify(NotificationView::Finished),
            ],
        ),
{
    let stale = stale_of(installed, catalog);
    let opening = seq![
        EventView::Begin,
        EventView::GameChecked { running: false },
        EventView::CatalogFetched(Ok(catalog)),
        EventView::LedgerRead(Some(installed)),
    ];
    let closing = seq![EventView::Persisted(Ok(())), EventView::Launched(Ok(()))];
    let start = WorkflowView::Started { selected: Some((name, url)) };

    // The four opening events lead to the first update, or to the writing
    // of the ledger where nothing is stale.
    let begun = take_up(name, stale);
    let opened = run(start, opening);
    assert(opened.0 == begun.0 && opened.1 == seq![
        CommandView::Notify(NotificationView::Started),
        CommandView::CheckGameRunning,
        CommandView::FetchCatalog { source: name, url },
        CommandView::ReadLedger,
    ] + notify_all(notes_of(installed, catalog)) + begun.1) by {
        reveal_with_fuel(run, 5);
    }

    // The updates lead to the writing of the ledger.
    updates_run_in_order(name, stale);

    // The two closing events lead to the end.
    let closed = run(WorkflowView::Persist, closing);
    assert(closed.0 == WorkflowView::Finished && closed.1 == seq![
        CommandView::Notify(NotificationView::StartingGame),
        CommandView::Launch,
        CommandView::Notify(NotificationView::Finished),
    ]) by {
        reveal_with_fuel(run, 3);
    }

    run_in_two_parts(start, opening, successes(stale.len()));
    run_in_two_parts(start, opening + successes(stale.len()), closing);
}

} // verus!
