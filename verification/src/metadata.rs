//! The ledger of installed packages.

use vstd::prelude::*;
use crate::catalog::Localization;
use crate::text::{first_index, first_index_is_first, same_text};

verus! {

/// One entry of the ledger: which version of a package is installed, and
/// from which source it came.
#[derive(Debug)]
pub struct InstalledLocalization {
    pub id: String,
    pub version: String,
    pub source: String,
}

/// The mathematical value of an [`InstalledLocalization`].
pub struct InstalledView {
    pub id: Seq<char>,
    pub version: Seq<char>,
    pub source: Seq<char>,
}

impl View for InstalledLocalization {
    type V = InstalledView;

    open spec fn view(&self) -> InstalledView {
        InstalledView { id: self.id@, version: self.version@, source: self.source@ }
    }
}

impl Clone for InstalledLocalization {
    fn clone(&self) -> (copy: Self)
        ensures
            copy@ == self@,
    {
        InstalledLocalization {
            id: self.id.clone(),
            version: self.version.clone(),
            source: self.source.clone(),
        }
    }
}

impl InstalledLocalization {
    /// The entry that records `localization` as installed from `source`.
    pub fn of(localization: &Localization, source: &str) -> (record: Self)
        ensures
            record@ == (InstalledView {
                id: localization@.id,
                version: localization@.version,
                source: source@,
            }),
    {
        InstalledLocalization {
            id: localization.id.clone(),
            version: localization.version.clone(),
            source: source.to_owned(),
        }
    }
}

/// The values of a list of entries, in order.
pub open spec fn records_view(records: Seq<InstalledLocalization>) -> Seq<InstalledView> {
    records.map_values(|record: InstalledLocalization| record@)
}

/// The ids of a list of entries, in order.
pub open spec fn record_ids(records: Seq<InstalledView>) -> Seq<Seq<char>> {
    records.map_values(|record: InstalledView| record.id)
}

/// No two entries share an id.
pub open spec fn distinct_ids(records: Seq<InstalledView>) -> bool {
    forall|i: int, j: int| 0 <= i < j < records.len() ==> records[i].id != records[j].id
}

/// The entry recorded for `id`, if there is one.
pub open spec fn lookup(records: Seq<InstalledView>, id: Seq<char>) -> Option<InstalledView> {
    match first_index(record_ids(records), id) {
        Some(i) => Some(records[i]),
        None => None,
    }
}

/// The ledger after `record` is written: it takes the place of the entry
/// with its id, or is added at the end when there is none.
pub open spec fn with_record(records: Seq<InstalledView>, record: InstalledView) -> Seq<
    InstalledView,
> {
    match first_index(record_ids(records), record.id) {
        Some(i) => records.update(i, record),
        None => records.push(record),
    }
}

/// The ledger after the entry for `id` is struck out.
pub open spec fn without_record(records: Seq<InstalledView>, id: Seq<char>) -> Seq<InstalledView> {
    match first_index(record_ids(records), id) {
        Some(i) => records.remove(i),
        None => records,
    }
}

/// Writing an entry keeps ids distinct.
pub proof fn with_record_keeps_distinct(records: Seq<InstalledView>, record: InstalledView)
    requires
        distinct_ids(records),
    ensures
        distinct_ids(with_record(records, record)),
{
    first_index_is_first(record_ids(records), record.id);
    let after = with_record(records, record);
    match first_index(record_ids(records), record.id) {
        Some(at) => {
            assert forall|i: int, j: int| 0 <= i < j < after.len() implies after[i].id
                != after[j].id by {}
        },
        None => {
            assert forall|i: int, j: int| 0 <= i < j < after.len() implies after[i].id
                != after[j].id by {
                assert(record_ids(records)[i] == records[i].id);
            }
        },
    }
}

/// Striking an entry out keeps ids distinct.
pub proof fn without_record_keeps_distinct(records: Seq<InstalledView>, id: Seq<char>)
    requires
        distinct_ids(records),
    ensures
        distinct_ids(without_record(records, id)),
{
    first_index_is_first(record_ids(records), id);
    let after = without_record(records, id);
    match first_index(record_ids(records), id) {
        Some(at) => {
            assert forall|i: int, j: int| 0 <= i < j < after.len() implies after[i].id
                != after[j].id by {}
        },
        None => {},
    }
}

/// The ledger: at most one entry per package id.
#[derive(Debug)]
pub struct InstalledMetadata {
    installed: Vec<InstalledLocalization>,
}

impl View for InstalledMetadata {
    type V = Seq<InstalledView>;

    closed spec fn view(&self) -> Seq<InstalledView> {
        records_view(self.installed@)
    }
}

impl InstalledMetadata {
    #[verifier::type_invariant]
    spec fn well_formed(self) -> bool {
        distinct_ids(records_view(self.installed@))
    }

    /// An empty ledger.
    pub fn new() -> (ledger: Self)
        ensures
            ledger@ == Seq::<InstalledView>::empty(),
    {
        let ledger = InstalledMetadata { installed: Vec::new() };
        ledger
    }

    /// A ledger whose only entry records `localization` as installed from
    /// `source`.
    pub fn with_localization(localization: &Localization, source: &str) -> (ledger: Self)
        ensures
            ledger@ == seq![
                InstalledView {
                    id: localization@.id,
                    version: localization@.version,
                    source: source@,
                },
            ],
    {
        let mut installed: Vec<InstalledLocalization> = Vec::new();
        installed.push(InstalledLocalization::of(localization, source));
        let ledger = InstalledMetadata { installed };
        ledger
    }

    /// Moves the entries out, leaving the ledger empty.
    fn take_entries(&mut self) -> (entries: Vec<InstalledLocalization>)
        ensures
            records_view(entries@) == old(self)@,
            distinct_ids(old(self)@),
    {
        proof {
            use_type_invariant(&*self);
        }
        let mut held = InstalledMetadata { installed: Vec::new() };
        std::mem::swap(self, &mut held);
        let InstalledMetadata { installed } = held;
        installed
    }

    /// The number of entries.
    pub fn len(&self) -> (n: usize)
        ensures
            n == self@.len(),
    {
        self.installed.len()
    }

    /// Where the entry for `id` stands, if there is one.
    fn position(&self, id: &str) -> (found: Option<usize>)
        ensures
            match found {
                Some(i) => first_index(record_ids(self@), id@) == Some(i as int) && i
                    < self.installed.len(),
                None => first_index(record_ids(self@), id@) is None,
            },
    {
        let ghost ids = record_ids(self@);
        let mut i: usize = 0;
        while i < self.installed.len()
            invariant
                i <= self.installed.len(),
                ids == record_ids(self@),
                forall|j: int| 0 <= j < i ==> ids[j] != id@,
            decreases self.installed.len() - i,
        {
            assert(ids[i as int] == self.installed@[i as int]@.id);
            if same_text(self.installed[i].id.as_str(), id) {
                proof {
                    first_index_is_first(ids, id@);
                }
                return Some(i);
            }
            i += 1;
        }
        proof {
            first_index_is_first(ids, id@);
        }
        None
    }

    /// The entry recorded for `id`, if there is one.
    pub fn get(&self, id: &str) -> (found: Option<InstalledLocalization>)
        ensures
            match found {
                Some(record) => lookup(self@, id@) == Some(record@),
                None => lookup(self@, id@) is None,
            },
    {
        match self.position(id) {
            Some(i) => Some(self.installed[i].clone()),
            None => None,
        }
    }

    /// Whether there is an entry for `id`.
    pub fn contains(&self, id: &str) -> (present: bool)
        ensures
            present == lookup(self@, id@).is_some(),
    {
        self.position(id).is_some()
    }

    /// Writes `record`: it replaces the entry with its id, which is handed
    /// back, or is added when the id is new.
    pub fn insert(&mut self, record: InstalledLocalization) -> (previous: Option<
        InstalledLocalization,
    >)
        ensures
            final(self)@ == with_record(old(self)@, record@),
            match previous {
                Some(p) => lookup(old(self)@, record@.id) == Some(p@),
                None => lookup(old(self)@, record@.id) is None,
            },
            distinct_ids(final(self)@),
    {
        let ghost before = self@;
        let found = self.position(record.id.as_str());
        let mut entries = self.take_entries();
        proof {
            with_record_keeps_distinct(before, record@);
        }
        match found {
            Some(i) => {
                let previous = entries[i].clone();
                entries.set(i, record);
                assert(records_view(entries@) =~= before.update(i as int, record@));
                *self = InstalledMetadata { installed: entries };
                Some(previous)
            },
            None => {
                entries.push(record);
                assert(records_view(entries@) =~= before.push(record@));
                *self = InstalledMetadata { installed: entries };
                None
            },
        }
    }

    /// Strikes out the entry for `id` and hands it back, if there was one.
    pub fn remove(&mut self, id: &str) -> (removed: Option<InstalledLocalization>)
        ensures
            final(self)@ == without_record(old(self)@, id@),
            match removed {
                Some(r) => lookup(old(self)@, id@) == Some(r@),
                None => lookup(old(self)@, id@) is None,
            },
            distinct_ids(final(self)@),
    {
        let ghost before = self@;
        let found = self.position(id);
        let mut entries = self.take_entries();
        proof {
            without_record_keeps_distinct(before, id@);
        }
        match found {
            Some(i) => {
                let removed = entries.remove(i);
                assert(records_view(entries@) =~= before.remove(i as int));
                *self = InstalledMetadata { installed: entries };
                Some(removed)
            },
            None => {
                *self = InstalledMetadata { installed: entries };
                None
            },
        }
    }

    /// A copy of every entry, in ledger order. No two of them share an id.
    pub fn records(&self) -> (all: Vec<InstalledLocalization>)
        ensures
            records_view(all@) == self@,
            distinct_ids(self@),
    {
        proof {
            use_type_invariant(self);
        }
        let mut all: Vec<InstalledLocalization> = Vec::new();
        let mut i: usize = 0;
        while i < self.installed.len()
            invariant
                i <= self.installed.len(),
                all.len() == i,
                forall|j: int| 0 <= j < i ==> all@[j]@ == self.installed@[j]@,
            decreases self.installed.len() - i,
        {
            all.push(self.installed[i].clone());
            i += 1;
        }
        all
    }

    /// The ledger that results from writing `records` one after the other
    /// into an empty one: of two entries with one id, the later stays.
    pub fn from_records(records: Vec<InstalledLocalization>) -> (ledger: Self)
        ensures
            ledger@ == written(records_view(records@)),
    {
        let mut ledger = InstalledMetadata::new();
        let ghost all = records_view(records@);
        let mut i: usize = 0;
        while i < records.len()
            invariant
                i <= records.len(),
                all == records_view(records@),
                ledger@ == written(all.take(i as int)),
            decreases records.len() - i,
        {
            let record = records[i].clone();
            assert(all.take(i as int + 1).drop_last() =~= all.take(i as int));
            ledger.insert(record);
            i += 1;
        }
        assert(all.take(records.len() as int) =~= all);
        ledger
    }
}

impl Clone for InstalledMetadata {
    fn clone(&self) -> (copy: Self)
        ensures
            copy@ == self@,
    {
        proof {
            use_type_invariant(self);
        }
        let installed = self.records();
        InstalledMetadata { installed }
    }
}

/// The ledger that results from writing `records`, first to last, into an
/// empty one.
pub open spec fn written(records: Seq<InstalledView>) -> Seq<InstalledView>
    decreases records.len(),
{
    if records.len() == 0 {
        Seq::empty()
    } else {
        with_record(written(records.drop_last()), records.last())
    }
}

/// An entry that was just written is the one found under its id.
pub proof fn lookup_after_write(records: Seq<InstalledView>, record: InstalledView)
    ensures
        lookup(with_record(records, record), record.id) == Some(record),
{
    let ids = record_ids(records);
    let after = with_record(records, record);
    first_index_is_first(ids, record.id);
    first_index_is_first(record_ids(after), record.id);
    match first_index(ids, record.id) {
        Some(at) => {
            assert(record_ids(after)[at] == record.id);
            assert forall|j: int| 0 <= j < at implies record_ids(after)[j] != record.id by {
                assert(record_ids(after)[j] == ids[j]);
            }
        },
        None => {
            assert(record_ids(after)[records.len() as int] == record.id);
            assert forall|j: int| 0 <= j < records.len() implies record_ids(after)[j]
                != record.id by {
                assert(record_ids(after)[j] == ids[j]);
            }
        },
    }
}

/// Writing an entry leaves the entries of every other id as they were.
pub proof fn lookup_other_after_write(
    records: Seq<InstalledView>,
    record: InstalledView,
    id: Seq<char>,
)
    requires
        id != record.id,
    ensures
        lookup(with_record(records, record), id) == lookup(records, id),
{
    let ids = record_ids(records);
    let after = with_record(records, record);
    let ids_after = record_ids(after);
    first_index_is_first(ids, record.id);
    first_index_is_first(ids, id);
    first_index_is_first(ids_after, id);
    assert forall|j: int| 0 <= j < records.len() implies (ids_after[j] == id <==> ids[j] == id) by {}
}

/// After an entry is struck out, nothing is found under its id, provided ids
/// were distinct.
pub proof fn lookup_after_removal(records: Seq<InstalledView>, id: Seq<char>)
    requires
        distinct_ids(records),
    ensures
        lookup(without_record(records, id), id) is None,
{
    let ids = record_ids(records);
    let after = without_record(records, id);
    first_index_is_first(ids, id);
    first_index_is_first(record_ids(after), id);
    match first_index(ids, id) {
        Some(at) => {
            assert forall|j: int| 0 <= j < after.len() implies record_ids(after)[j] != id by {}
        },
        None => {},
    }
}

} // verus!
