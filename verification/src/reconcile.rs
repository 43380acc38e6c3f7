//! Reconciling the ledger of installed packages against a catalog.

use vstd::prelude::*;
use crate::catalog::{find_package, packages_view, position_of, Localization, LocalizationView};
use crate::metadata::{records_view, InstalledLocalization, InstalledView};

verus! {

/// A progress notification for whoever watches a workflow.
#[derive(Debug)]
pub enum Notification {
    Started,
    GameRunning,
    UnknownLocalization(String),
    UpToDate(String),
    Updating(String),
    UpdateFinished(String),
    StartingGame,
    Finished,
}

/// The mathematical value of a [`Notification`].
pub enum NotificationView {
    Started,
    GameRunning,
    UnknownLocalization(Seq<char>),
    UpToDate(Seq<char>),
    Updating(Seq<char>),
    UpdateFinished(Seq<char>),
    StartingGame,
    Finished,
}

impl View for Notification {
    type V = NotificationView;

    open spec fn view(&self) -> NotificationView {
        match self {
            Notification::Started => NotificationView::Started,
            Notification::GameRunning => NotificationView::GameRunning,
            Notification::UnknownLocalization(id) => NotificationView::UnknownLocalization(id@),
            Notification::UpToDate(id) => NotificationView::UpToDate(id@),
            Notification::Updating(id) => NotificationView::Updating(id@),
            Notification::UpdateFinished(id) => NotificationView::UpdateFinished(id@),
            Notification::StartingGame => NotificationView::StartingGame,
            Notification::Finished => NotificationView::Finished,
        }
    }
}

impl Clone for Notification {
    fn clone(&self) -> (copy: Self)
        ensures
            copy@ == self@,
    {
        match self {
            Notification::Started => Notification::Started,
            Notification::GameRunning => Notification::GameRunning,
            Notification::UnknownLocalization(id) => Notification::UnknownLocalization(id.clone()),
            Notification::UpToDate(id) => Notification::UpToDate(id.clone()),
            Notification::Updating(id) => Notification::Updating(id.clone()),
            Notification::UpdateFinished(id) => Notification::UpdateFinished(id.clone()),
            Notification::StartingGame => Notification::StartingGame,
            Notification::Finished => Notification::Finished,
        }
    }
}

/// The name a notification goes out under.
pub open spec fn name_of(notification: NotificationView) -> Seq<char> {
    match notification {
        NotificationView::Started => "started"@,
        NotificationView::GameRunning => "game_running"@,
        NotificationView::UnknownLocalization(_) => "unknown_localization"@,
        NotificationView::UpToDate(_) => "up_to_date"@,
        NotificationView::Updating(_) => "updating"@,
        NotificationView::UpdateFinished(_) => "update_finished"@,
        NotificationView::StartingGame => "starting_game"@,
        NotificationView::Finished => "finished"@,
    }
}

/// The package id a notification carries, if it carries one.
pub open spec fn payload_of(notification: NotificationView) -> Option<Seq<char>> {
    match notification {
        NotificationView::UnknownLocalization(id) => Some(id),
        NotificationView::UpToDate(id) => Some(id),
        NotificationView::Updating(id) => Some(id),
        NotificationView::UpdateFinished(id) => Some(id),
        _ => None,
    }
}

impl Notification {
    /// The name this notification goes out under.
    pub fn name(&self) -> (name: String)
        ensures
            name@ == name_of(self@),
    {
        match self {
            Notification::Started => "started".to_owned(),
            Notification::GameRunning => "game_running".to_owned(),
            Notification::UnknownLocalization(_) => "unknown_localization".to_owned(),
            Notification::UpToDate(_) => "up_to_date".to_owned(),
            Notification::Updating(_) => "updating".to_owned(),
            Notification::UpdateFinished(_) => "update_finished".to_owned(),
            Notification::StartingGame => "starting_game".to_owned(),
            Notification::Finished => "finished".to_owned(),
        }
    }

    /// The package id this notification carries, if it carries one.
    pub fn payload(&self) -> (id: Option<String>)
        ensures
            match id {
                Some(text) => payload_of(self@) == Some(text@),
                None => payload_of(self@) is None,
            },
    {
        match self {
            Notification::UnknownLocalization(id) => Some(id.clone()),
            Notification::UpToDate(id) => Some(id.clone()),
            Notification::Updating(id) => Some(id.clone()),
            Notification::UpdateFinished(id) => Some(id.clone()),
            _ => None,
        }
    }
}

/// The values of a list of notifications, in order.
pub open spec fn notifications_view(notifications: Seq<Notification>) -> Seq<NotificationView> {
    notifications.map_values(|notification: Notification| notification@)
}

/// How an installed package stands against a catalog.
pub enum Standing {
    /// The catalog has no package with this id.
    Unknown,
    /// The catalog's package has the installed version.
    UpToDate,
    /// The catalog's package, which has another version.
    Stale(LocalizationView),
}

/// The standing of one ledger entry: it is looked up by id, the first
/// catalog package with that id counts, and versions are compared for
/// equality only.
pub open spec fn standing(record: InstalledView, catalog: Seq<LocalizationView>) -> Standing {
    match position_of(catalog, record.id) {
        None => Standing::Unknown,
        Some(i) => if catalog[i].version == record.version {
            Standing::UpToDate
        } else {
            Standing::Stale(catalog[i])
        },
    }
}

/// The notifications that reconciling announces: one for each entry that
/// needs no update, in ledger order.
pub open spec fn notes_of(installed: Seq<InstalledView>, catalog: Seq<LocalizationView>) -> Seq<
    NotificationView,
>
    decreases installed.len(),
{
    if installed.len() == 0 {
        Seq::empty()
    } else {
        let earlier = notes_of(installed.drop_last(), catalog);
        let record = installed.last();
        match standing(record, catalog) {
            Standing::Unknown => earlier.push(NotificationView::UnknownLocalization(record.id)),
            Standing::UpToDate => earlier.push(NotificationView::UpToDate(record.id)),
            Standing::Stale(_) => earlier,
        }
    }
}

/// The packages to install: for each stale entry the catalog's package, in
/// ledger order.
pub open spec fn stale_of(installed: Seq<InstalledView>, catalog: Seq<LocalizationView>) -> Seq<
    LocalizationView,
>
    decreases installed.len(),
{
    if installed.len() == 0 {
        Seq::empty()
    } else {
        let earlier = stale_of(installed.drop_last(), catalog);
        match standing(installed.last(), catalog) {
            Standing::Stale(package) => earlier.push(package),
            _ => earlier,
        }
    }
}

/// What reconciling a ledger against a catalog yields.
#[derive(Debug)]
pub struct Reconciliation {
    /// What to announce, in order.
    pub notifications: Vec<Notification>,
    /// The packages to install, in order.
    pub stale: Vec<Localization>,
}

/// Reconciles the ledger entries `installed` against `catalog`.
pub fn reconcile(installed: &Vec<InstalledLocalization>, catalog: &Vec<Localization>) -> (found:
    Reconciliation)
    ensures
        notifications_view(found.notifications@) == notes_of(
            records_view(installed@),
            packages_view(catalog@),
        ),
        packages_view(found.stale@) == stale_of(records_view(installed@), packages_view(catalog@)),
{
    let ghost records = records_view(installed@);
    let ghost packages = packages_view(catalog@);
    let mut notifications: Vec<Notification> = Vec::new();
    let mut stale: Vec<Localization> = Vec::new();
    let mut i: usize = 0;
    while i < installed.len()
        invariant
            i <= installed.len(),
            records == records_view(installed@),
            packages == packages_view(catalog@),
            notifications_view(notifications@) == notes_of(records.take(i as int), packages),
            packages_view(stale@) == stale_of(records.take(i as int), packages),
        decreases installed.len() - i,
    {
        let record = &installed[i];
        let ghost upto = records.take(i as int + 1);
        assert(upto.drop_last() =~= records.take(i as int));
        match find_package(catalog, record.id.as_str()) {
            None => {
                notifications.push(Notification::UnknownLocalization(record.id.clone()));
            },
            Some(at) => {
                if catalog[at].version == record.version {
                    notifications.push(Notification::UpToDate(record.id.clone()));
                } else {
                    stale.push(catalog[at].clone());
                }
            },
        }
        i += 1;
    }
    assert(records.take(installed.len() as int) =~= records);
    Reconciliation { notifications, stale }
}

/// An entry whose id the catalog lacks is announced as unknown.
pub proof fn unknown_is_announced(
    installed: Seq<InstalledView>,
    catalog: Seq<LocalizationView>,
    k: int,
)
    requires
        0 <= k < installed.len(),
        position_of(catalog, installed[k].id) is None,
    ensures
        notes_of(installed, catalog).contains(
            NotificationView::UnknownLocalization(installed[k].id),
        ),
    decreases installed.len(),
{
    let notes = notes_of(installed, catalog);
    if k == installed.len() - 1 {
        assert(notes.last() == NotificationView::UnknownLocalization(installed[k].id));
    } else {
        let shorter = installed.drop_last();
        unknown_is_announced(shorter, catalog, k);
        let earlier = notes_of(shorter, catalog);
        let wanted = NotificationView::UnknownLocalization(installed[k].id);
        let at = choose|at: int| 0 <= at < earlier.len() && earlier[at] == wanted;
        assert(notes[at] == wanted);
    }
}

/// An entry whose version is the catalog's is announced as up to date.
pub proof fn current_is_announced(
    installed: Seq<InstalledView>,
    catalog: Seq<LocalizationView>,
    k: int,
)
    requires
        0 <= k < installed.len(),
        standing(installed[k], catalog) is UpToDate,
    ensures
        notes_of(installed, catalog).contains(NotificationView::UpToDate(installed[k].id)),
    decreases installed.len(),
{
    let notes = notes_of(installed, catalog);
    if k == installed.len() - 1 {
        assert(notes.last() == NotificationView::UpToDate(installed[k].id));
    } else {
        let shorter = installed.drop_last();
        current_is_announced(shorter, catalog, k);
        let earlier = notes_of(shorter, catalog);
        let wanted = NotificationView::UpToDate(installed[k].id);
        let at = choose|at: int| 0 <= at < earlier.len() && earlier[at] == wanted;
        assert(notes[at] == wanted);
    }
}

/// An entry whose version differs from the catalog's has the catalog's
/// package among those to install.
pub proof fn stale_is_scheduled(
    installed: Seq<InstalledView>,
    catalog: Seq<LocalizationView>,
    k: int,
)
    requires
        0 <= k < installed.len(),
        standing(installed[k], catalog) is Stale,
    ensures
        stale_of(installed, catalog).contains(standing(installed[k], catalog)->Stale_0),
    decreases installed.len(),
{
    let stale = stale_of(installed, catalog);
    let wanted = standing(installed[k], catalog)->Stale_0;
    if k == installed.len() - 1 {
        assert(stale.last() == wanted);
    } else {
        let shorter = installed.drop_last();
        stale_is_scheduled(shorter, catalog, k);
        let earlier = stale_of(shorter, catalog);
        let at = choose|at: int| 0 <= at < earlier.len() && earlier[at] == wanted;
        assert(stale[at] == wanted);
    }
}

/// Every package to install is the catalog's package for some stale entry:
/// it carries that entry's id and another version than the installed one.
pub proof fn scheduled_is_stale(
    installed: Seq<InstalledView>,
    catalog: Seq<LocalizationView>,
    at: int,
)
    requires
        0 <= at < stale_of(installed, catalog).len(),
    ensures
        exists|k: int|
            0 <= k < installed.len() && #[trigger] standing(installed[k], catalog)
                == Standing::Stale(stale_of(installed, catalog)[at]),
    decreases installed.len(),
{
    let shorter = installed.drop_last();
    let earlier = stale_of(shorter, catalog);
    if at < earlier.len() {
        scheduled_is_stale(shorter, catalog, at);
    } else {
    }
}

/// A stale standing names a catalog package with the entry's id and a
/// version other than the installed one.
pub proof fn stale_package_matches(record: InstalledView, catalog: Seq<LocalizationView>)
    requires
        standing(record, catalog) is Stale,
    ensures
        standing(record, catalog)->Stale_0.id == record.id,
        standing(record, catalog)->Stale_0.version != record.version,
        catalog.contains(standing(record, catalog)->Stale_0),
{
    crate::text::first_index_is_first(crate::catalog::package_ids(catalog), record.id);
}

/// An entry that is not stale is left alone: no package with its id is
/// among those to install, provided no other entry has its id.
pub proof fn untouched_unless_stale(
    installed: Seq<InstalledView>,
    catalog: Seq<LocalizationView>,
    k: int,
    at: int,
)
    requires
        crate::metadata::distinct_ids(installed),
        0 <= k < installed.len(),
        !(standing(installed[k], catalog) is Stale),
        0 <= at < stale_of(installed, catalog).len(),
    ensures
        stale_of(installed, catalog)[at].id != installed[k].id,
{
    scheduled_is_stale(installed, catalog, at);
    let other = choose|other: int|
        0 <= other < installed.len() && #[trigger] standing(installed[other], catalog)
            == Standing::Stale(stale_of(installed, catalog)[at]);
    stale_package_matches(installed[other], catalog);
}

/// Every entry is either announced or scheduled, never both: the two lists
/// together are as long as the ledger.
pub proof fn every_entry_is_accounted_for(
    installed: Seq<InstalledView>,
    catalog: Seq<LocalizationView>,
)
    ensures
        notes_of(installed, catalog).len() + stale_of(installed, catalog).len()
            == installed.len(),
    decreases installed.len(),
{
    if installed.len() > 0 {
        every_entry_is_accounted_for(installed.drop_last(), catalog);
    }
}

} // verus!
