//! Unpacking a package bundle: which entries of a zip archive are written,
//! where, and which are passed over.
//!
//! The archive is read by the `zip` crate from bytes held in memory. Whether
//! an entry's path stays inside the directory it is unpacked into is the
//! crate's judgement (`enclosed_name`); what follows from that judgement is
//! decided and proved here.

use vstd::prelude::*;
use crate::error::{ArchiveStage, LauncherError, LauncherErrorView};
use crate::text::ends_with_char;

verus! {

/// `zip::ZipArchive`, an archive opened for reading; opaque here.
#[verifier::external_type_specification]
#[verifier::external_body]
#[verifier::reject_recursive_types(R)]
pub struct ExZipArchive<R>(zip::ZipArchive<R>);

/// `std::io::Cursor`, the reader an archive in memory is opened on; opaque
/// here.
#[verifier::external_type_specification]
#[verifier::external_body]
#[verifier::reject_recursive_types(T)]
pub struct ExCursor<T>(std::io::Cursor<T>);

/// `zip::result::ZipError`, the crate's error; opaque here.
#[verifier::external_type_specification]
#[verifier::external_body]
pub struct ExZipError(zip::result::ZipError);

/// One entry of an archive, as the `zip` crate reports it and as far as it
/// was read.
#[derive(Debug)]
pub struct ArchiveEntry {
    /// The name the archive stores the entry under.
    pub name: String,
    /// The name as a path, where it stays inside the directory the archive
    /// is unpacked into; nothing where it does not.
    pub enclosed: Option<String>,
    /// The Unix permission bits the archive declares for the entry.
    pub unix_mode: Option<u32>,
    /// The entry's content, uncompressed. It counts only where the entry is
    /// written as a file; of any other entry it is not read and stays
    /// empty.
    pub data: Vec<u8>,
}

/// The mathematical value of an [`ArchiveEntry`].
pub struct ArchiveEntryView {
    pub name: Seq<char>,
    pub enclosed: Option<Seq<char>>,
    pub unix_mode: Option<u32>,
    pub data: Seq<u8>,
}

impl View for ArchiveEntry {
    type V = ArchiveEntryView;

    open spec fn view(&self) -> ArchiveEntryView {
        ArchiveEntryView {
            name: self.name@,
            enclosed: match self.enclosed {
                Some(path) => Some(path@),
                None => None,
            },
            unix_mode: self.unix_mode,
            data: self.data@,
        }
    }
}

/// What an archive stores of an entry that can be looked up: its name,
/// its permission bits, and its content, or no content where that cannot be
/// read to its end.
pub struct StoredView {
    pub name: Seq<char>,
    pub unix_mode: Option<u32>,
    pub content: Option<Seq<u8>>,
}

/// The values of a list of entries, in order.
pub open spec fn entries_view(entries: Seq<ArchiveEntry>) -> Seq<ArchiveEntryView> {
    entries.map_values(|entry: ArchiveEntry| entry@)
}

/// The parts of a stored name, cut at each slash.
pub open spec fn parts_of(name: Seq<char>) -> Seq<Seq<char>>
    decreases name.len(),
{
    if name.len() == 0 {
        seq![Seq::empty()]
    } else {
        let before = parts_of(name.drop_last());
        if name.last() == '/' {
            before.push(Seq::empty())
        } else {
            before.drop_last().push(before.last().push(name.last()))
        }
    }
}

/// Whether a path of these parts, begun `depth` directories below the one
/// an archive is unpacked into, never climbs above it: an empty part and
/// `.` stay, `..` climbs one up, every other part goes one down.
pub open spec fn stays_inside(parts: Seq<Seq<char>>, depth: int) -> bool
    decreases parts.len(),
{
    if parts.len() == 0 {
        true
    } else if parts[0].len() == 0 || parts[0] == "."@ {
        stays_inside(parts.drop_first(), depth)
    } else if parts[0] == ".."@ {
        depth > 0 && stays_inside(parts.drop_first(), depth - 1)
    } else {
        stays_inside(parts.drop_first(), depth + 1)
    }
}

/// Whether a stored name is read alike on every platform: it holds neither
/// a backslash nor a colon.
pub open spec fn portable(name: Seq<char>) -> bool {
    !name.contains('\\') && !name.contains(':')
}

/// Whether a portable name is a path that stays inside the directory an
/// archive is unpacked into: it holds no NUL, does not begin with a slash,
/// and never climbs above the directory.
pub open spec fn encloses(name: Seq<char>) -> bool {
    &&& !name.contains('\0')
    &&& !(name.len() > 0 && name[0] == '/')
    &&& stays_inside(parts_of(name), 0)
}

/// What holds of every entry the `zip` crate hands out: an enclosed path is
/// the stored name itself, and a name that has one holds no NUL character
/// and does not begin with a slash; and a portable name has one exactly
/// where it stays inside the directory.
pub open spec fn well_read(entry: ArchiveEntryView) -> bool {
    &&& entry.enclosed matches Some(path) ==> {
        &&& path == entry.name
        &&& !entry.name.contains('\0')
        &&& entry.name.len() > 0 ==> entry.name[0] != '/'
    }
    &&& portable(entry.name) ==> (entry.enclosed is Some <==> encloses(entry.name))
}

/// An archive held in memory and opened for reading.
pub type MemoryArchive = zip::ZipArchive<std::io::Cursor<Vec<u8>>>;

/// What the archive made of these bytes holds, entry by entry: what is
/// stored of the entry, or nothing where the entry cannot be looked up; and
/// nothing at all where the bytes are no zip archive.
pub uninterp spec fn parsed(bytes: Seq<u8>) -> Option<Seq<Option<StoredView>>>;

/// What an opened archive holds, entry by entry: what is stored of the
/// entry, or nothing where the entry cannot be looked up.
pub uninterp spec fn held(archive: MemoryArchive) -> Seq<Option<StoredView>>;

/// What looking an entry up yields, before any of its content is read.
pub struct EntryHeader {
    /// The name the archive stores the entry under.
    pub name: String,
    /// The name as a path, where it stays inside the directory the archive
    /// is unpacked into.
    pub enclosed: Option<String>,
    /// The Unix permission bits the archive declares for the entry.
    pub unix_mode: Option<u32>,
}

/// The entry a header stands for, with the content given.
pub open spec fn headed(header: EntryHeader, data: Seq<u8>) -> ArchiveEntryView {
    ArchiveEntryView {
        name: header.name@,
        enclosed: match header.enclosed {
            Some(path) => Some(path@),
            None => None,
        },
        unix_mode: header.unix_mode,
        data,
    }
}

/// Why the content of an entry could not be read, with the text of the
/// `zip` crate's or the reader's error.
pub enum ReadFailure {
    /// The entry could not be looked up.
    Entry(String),
    /// The entry's content could not be read to its end.
    Content(String),
}

/// `zip::ZipArchive::new` on a cursor over the bytes: the archive, which
/// holds what the bytes hold, or the crate's complaint where the bytes are
/// no zip archive.
#[verifier::external_body]
fn open_archive(bytes: Vec<u8>) -> (opened: Result<MemoryArchive, zip::result::ZipError>)
    ensures
        match opened {
            Ok(archive) => parsed(bytes@) == Some(held(archive)),
            Err(_) => parsed(bytes@) is None,
        },
{
    zip::ZipArchive::new(std::io::Cursor::new(bytes))
}

/// `zip::ZipArchive::len`: the number of entries.
#[verifier::external_body]
fn archive_len(archive: &MemoryArchive) -> (count: usize)
    ensures
        count == held(*archive).len(),
{
    archive.len()
}

/// `zip::ZipArchive::by_index`, and of the entry it yields the stored name
/// (`name`), the name as a safe path (`enclosed_name`) and the permission
/// bits (`unix_mode`), as plain values. No content is read.
///
/// Looking up leaves what the archive holds as it is, and yields the name
/// and bits the archive holds at the index, or fails, with the text of the
/// crate's error, where nothing can be looked up there.
///
/// Claimed of `enclosed_name`: where it returns a path, the path is the
/// stored name unchanged, and that name holds no NUL and does not begin
/// with a slash. It walks the name's components, one down for a normal
/// one and one up for `..`, and returns a path exactly where there is no
/// NUL, no root and no step above the start. Where a name holds neither a
/// backslash nor a colon its components are its parts between slashes on
/// every platform, and so much is claimed; of other names nothing more.
#[verifier::external_body]
fn look_up(archive: &mut MemoryArchive, index: usize) -> (found: Result<EntryHeader, String>)
    ensures
        held(*final(archive)) == held(*old(archive)),
        match found {
            Ok(header) => {
                &&& index < held(*old(archive)).len()
                &&& held(*old(archive))[index as int] matches Some(stored)
                &&& stored.name == header.name@
                &&& stored.unix_mode == header.unix_mode
                &&& well_read(headed(header, Seq::empty()))
            },
            Err(_) => index >= held(*old(archive)).len() || held(*old(archive))[index as int]
                is None,
        },
{
    let file = archive.by_index(index).map_err(|e| e.to_string())?;
    Ok(EntryHeader {
        name: file.name().to_owned(),
        enclosed: file.enclosed_name().and_then(|path| path.to_str().map(|text| text.to_owned())),
        unix_mode: file.unix_mode(),
    })
}

/// `zip::ZipArchive::by_index` followed by `std::io::Read::read_to_end` on
/// the entry it yields: the entry's content, uncompressed.
///
/// Reading leaves what the archive holds as it is, and yields the content
/// the archive holds at the index. It fails at the lookup exactly where
/// nothing can be looked up there, and at the content exactly where the
/// entry is found but its content cannot be read to its end.
#[verifier::external_body]
fn read_content(archive: &mut MemoryArchive, index: usize) -> (read: Result<Vec<u8>, ReadFailure>)
    ensures
        held(*final(archive)) == held(*old(archive)),
        match read {
            Ok(data) => {
                &&& index < held(*old(archive)).len()
                &&& held(*old(archive))[index as int] matches Some(stored)
                &&& stored.content == Some(data@)
            },
            Err(ReadFailure::Entry(_)) => index >= held(*old(archive)).len() || held(
                *old(archive),
            )[index as int] is None,
            Err(ReadFailure::Content(_)) => {
                &&& index < held(*old(archive)).len()
                &&& held(*old(archive))[index as int] matches Some(stored)
                &&& stored.content is None
            },
        },
{
    let mut file = archive.by_index(index).map_err(|e| ReadFailure::Entry(e.to_string()))?;
    let mut data = Vec::new();
    std::io::Read::read_to_end(&mut file, &mut data)
        .map_err(|e| ReadFailure::Content(e.to_string()))?;
    Ok(data)
}

/// The text of a `zip::result::ZipError`, as its `Display` gives it.
#[verifier::external_body]
fn zip_error_text(error: &zip::result::ZipError) -> (text: String) {
    format!("{}", error)
}

/// What is written for one entry.
#[derive(Debug)]
pub enum ExtractStep {
    /// Create the directory at `path` and its parents, then set its
    /// permission bits where the platform has them.
    Directory { path: String, unix_mode: Option<u32> },
    /// Create the parents of `path`, write `data` to the file there, then
    /// set its permission bits where the platform has them.
    File { path: String, data: Vec<u8>, unix_mode: Option<u32> },
}

/// The mathematical value of an [`ExtractStep`].
pub enum ExtractStepView {
    Directory { path: Seq<char>, unix_mode: Option<u32> },
    File { path: Seq<char>, data: Seq<u8>, unix_mode: Option<u32> },
}

impl View for ExtractStep {
    type V = ExtractStepView;

    open spec fn view(&self) -> ExtractStepView {
        match self {
            ExtractStep::Directory { path, unix_mode } => ExtractStepView::Directory {
                path: path@,
                unix_mode: *unix_mode,
            },
            ExtractStep::File { path, data, unix_mode } => ExtractStepView::File {
                path: path@,
                data: data@,
                unix_mode: *unix_mode,
            },
        }
    }
}

/// The values of a list of steps, in order.
pub open spec fn extract_steps_view(steps: Seq<ExtractStep>) -> Seq<ExtractStepView> {
    steps.map_values(|step: ExtractStep| step@)
}

/// The path a step writes to, relative to the directory the archive is
/// unpacked into.
pub open spec fn written_path(step: ExtractStepView) -> Seq<char> {
    match step {
        ExtractStepView::Directory { path, .. } => path,
        ExtractStepView::File { path, .. } => path,
    }
}

/// Whether a stored name is that of a directory: it ends in a slash.
pub open spec fn names_directory(name: Seq<char>) -> bool {
    name.len() > 0 && name.last() == '/'
}

/// What is written for an entry: nothing where its path is not enclosed; a
/// directory where its name ends in a slash; a file with its content
/// otherwise.
pub open spec fn step_of(entry: ArchiveEntryView) -> Option<ExtractStepView> {
    match entry.enclosed {
        None => None,
        Some(path) => Some(
            if names_directory(entry.name) {
                ExtractStepView::Directory { path, unix_mode: entry.unix_mode }
            } else {
                ExtractStepView::File { path, data: entry.data, unix_mode: entry.unix_mode }
            },
        ),
    }
}

/// Decides what is written for one entry, if anything.
pub fn extract_zip_entry(entry: ArchiveEntry) -> (step: Option<ExtractStep>)
    ensures
        match step {
            Some(written) => step_of(entry@) == Some(written@),
            None => step_of(entry@) is None,
        },
{
    let is_directory = ends_with_char(entry.name.as_str(), '/');
    match entry.enclosed {
        None => None,
        Some(path) => {
            if is_directory {
                Some(ExtractStep::Directory { path, unix_mode: entry.unix_mode })
            } else {
                Some(ExtractStep::File { path, data: entry.data, unix_mode: entry.unix_mode })
            }
        },
    }
}

/// The steps that unpack a list of entries: one for each entry with an
/// enclosed path, in archive order.
pub open spec fn steps_of(entries: Seq<ArchiveEntryView>) -> Seq<ExtractStepView>
    decreases entries.len(),
{
    if entries.len() == 0 {
        Seq::empty()
    } else {
        let earlier = steps_of(entries.drop_last());
        match step_of(entries.last()) {
            Some(step) => earlier.push(step),
            None => earlier,
        }
    }
}

/// The places in the archive of the entries that are passed over, in order.
pub open spec fn skipped_of(entries: Seq<ArchiveEntryView>) -> Seq<usize>
    decreases entries.len(),
{
    if entries.len() == 0 {
        Seq::empty()
    } else {
        let earlier = skipped_of(entries.drop_last());
        if entries.last().enclosed is None {
            earlier.push((entries.len() - 1) as usize)
        } else {
            earlier
        }
    }
}

/// How an archive is unpacked.
#[derive(Debug)]
pub struct ExtractionPlan {
    /// What to write, in order.
    pub steps: Vec<ExtractStep>,
    /// The places in the archive of the entries whose path would leave the
    /// directory, and which are therefore not written.
    pub skipped: Vec<usize>,
}

/// The mathematical value of an [`ExtractionPlan`].
pub struct ExtractionPlanView {
    pub steps: Seq<ExtractStepView>,
    pub skipped: Seq<usize>,
}

impl View for ExtractionPlan {
    type V = ExtractionPlanView;

    open spec fn view(&self) -> ExtractionPlanView {
        ExtractionPlanView { steps: extract_steps_view(self.steps@), skipped: self.skipped@ }
    }
}

/// Whether a plan is the one that unpacks `entries`.
pub open spec fn unpacks(plan: ExtractionPlanView, entries: Seq<ArchiveEntryView>) -> bool {
    &&& plan.steps == steps_of(entries)
    &&& plan.skipped == skipped_of(entries)
}

/// Plans the unpacking of entries as they were read: one step for each
/// entry with an enclosed path, in order, and the place of every other
/// entry listed.
pub fn plan_extraction(entries: Vec<ArchiveEntry>) -> (plan: ExtractionPlan)
    ensures
        unpacks(plan@, entries_view(entries@)),
{
    let ghost all = entries_view(entries@);
    let mut plan = ExtractionPlan { steps: Vec::new(), skipped: Vec::new() };
    let total = entries.len();
    let mut done: usize = 0;
    assert(plan@.steps =~= steps_of(all.take(0)));
    for entry in it: entries
        invariant
            done == it.index(),
            it.seq() == entries@,
            total == entries@.len(),
            all == entries_view(entries@),
            unpacks(plan@, all.take(done as int)),
    {
        let ghost steps_before = extract_steps_view(plan.steps@);
        proof {
            assert(all.take(done as int + 1).drop_last() =~= all.take(done as int));
            assert(all.take(done as int + 1).last() == entry@);
        }
        match extract_zip_entry(entry) {
            Some(step) => {
                plan.steps.push(step);
                assert(extract_steps_view(plan.steps@) =~= steps_before.push(step@));
            },
            None => {
                plan.skipped.push(done);
            },
        }
        done += 1;
    }
    assert(all.take(done as int) =~= all);
    plan
}

/// Whether an entry is written as a file: its path is enclosed and its
/// name is not that of a directory. Only of such an entry is the content
/// read.
pub open spec fn written_as_file(entry: ArchiveEntryView) -> bool {
    entry.enclosed is Some && !names_directory(entry.name)
}

/// Whether `entry` has the name and permission bits the archive holds at a
/// place, and an enclosed path as the `zip` crate judges the name.
pub open spec fn found_of(entry: ArchiveEntryView, holds: Option<StoredView>) -> bool {
    &&& holds matches Some(stored)
    &&& stored.name == entry.name
    &&& stored.unix_mode == entry.unix_mode
    &&& well_read(entry)
}

/// Whether `entry` is what reading yields of what the archive holds at a
/// place: what looking up finds, and the stored content where the entry is
/// written as a file.
pub open spec fn read_of(entry: ArchiveEntryView, holds: Option<StoredView>) -> bool {
    &&& found_of(entry, holds)
    &&& written_as_file(entry) ==> holds->Some_0.content == Some(entry.data)
}

/// Whether `entries` are what reading yields of the first places of an
/// archive, in order.
pub open spec fn read_from(entries: Seq<ArchiveEntryView>, holds: Seq<Option<StoredView>>) -> bool {
    &&& entries.len() <= holds.len()
    &&& forall|i: int| 0 <= i < entries.len() ==> read_of(#[trigger] entries[i], holds[i])
}

/// Whether reading an archive breaks off at the place `at`, at the given
/// stage: at the lookup where nothing can be looked up there; at the
/// content where the entry is written as a file and its content cannot be
/// read to its end.
pub open spec fn breaks_at(holds: Seq<Option<StoredView>>, at: int, stage: ArchiveStage) -> bool {
    &&& 0 <= at < holds.len()
    &&& match stage {
        ArchiveStage::Open => false,
        ArchiveStage::Entry => holds[at] is None,
        ArchiveStage::Content => {
            &&& holds[at] matches Some(stored)
            &&& stored.content is None
            &&& exists|entry: ArchiveEntryView| #[trigger]
                found_of(entry, holds[at]) && written_as_file(entry)
        },
    }
}

/// What unpacking the archive made of `bytes` comes to.
///
/// Bytes that are no zip archive fail at the opening. Otherwise the
/// entries are read in archive order, each looked up and, only where it is
/// written as a file, its content read. Reading either reaches the end,
/// and the plan is the one that unpacks the entries read; or it breaks off
/// at the first place where the lookup or the content fails, and the
/// failure names that stage.
pub open spec fn unpacked(
    bytes: Seq<u8>,
    outcome: Result<ExtractionPlan, LauncherError>,
    entries: Seq<ArchiveEntryView>,
) -> bool {
    match parsed(bytes) {
        None => outcome matches Err(e) && e@ is Archive && e@->stage == ArchiveStage::Open,
        Some(holds) => {
            &&& read_from(entries, holds)
            &&& match outcome {
                Ok(plan) => entries.len() == holds.len() && unpacks(plan@, entries),
                Err(e) => e@ is Archive && breaks_at(holds, entries.len() as int, e@->stage),
            }
        },
    }
}

/// Plans the unpacking of a bundle held in memory.
///
/// Succeeds exactly where the bytes are a zip archive, every entry can be
/// looked up, and the content of every entry that is written as a file can
/// be read. An entry that is passed over, and a directory, is never read:
/// damage to its content does not matter.
pub fn extract_zip_archive(bytes: Vec<u8>) -> (outcome: Result<ExtractionPlan, LauncherError>)
    ensures
        exists|entries: Seq<ArchiveEntryView>| #[trigger] unpacked(bytes@, outcome, entries),
{
    let ghost content = bytes@;
    let mut archive = match open_archive(bytes) {
        Ok(archive) => archive,
        Err(e) => {
            let outcome: Result<ExtractionPlan, LauncherError> = Err(
                LauncherError::Archive { stage: ArchiveStage::Open, detail: zip_error_text(&e) },
            );
            assert(unpacked(content, outcome, Seq::empty()));
            return outcome;
        },
    };
    let ghost holds = held(archive);
    let count = archive_len(&archive);
    let mut entries: Vec<ArchiveEntry> = Vec::new();
    let mut i: usize = 0;
    while i < count
        invariant
            i <= count,
            count == holds.len(),
            holds == held(archive),
            content == bytes@,
            parsed(content) == Some(holds),
            entries.len() == i,
            read_from(entries_view(entries@), holds),
        decreases count - i,
    {
        let ghost so_far = entries_view(entries@);
        let header = match look_up(&mut archive, i) {
            Ok(header) => header,
            Err(detail) => {
                let outcome: Result<ExtractionPlan, LauncherError> = Err(
                    LauncherError::Archive { stage: ArchiveStage::Entry, detail },
                );
                assert(unpacked(content, outcome, so_far));
                return outcome;
            },
        };
        let is_file = header.enclosed.is_some() && !ends_with_char(header.name.as_str(), '/');
        let ghost bare = headed(header, Seq::empty());
        let data = if is_file {
            match read_content(&mut archive, i) {
                Ok(data) => data,
                Err(failure) => {
                    let error = match failure {
                        ReadFailure::Entry(detail) => LauncherError::Archive {
                            stage: ArchiveStage::Entry,
                            detail,
                        },
                        ReadFailure::Content(detail) => LauncherError::Archive {
                            stage: ArchiveStage::Content,
                            detail,
                        },
                    };
                    let outcome: Result<ExtractionPlan, LauncherError> = Err(error);
                    proof {
                        assert(found_of(bare, holds[i as int]) && written_as_file(bare));
                        assert(unpacked(content, outcome, so_far));
                    }
                    return outcome;
                },
            }
        } else {
            Vec::new()
        };
        let entry = ArchiveEntry {
            name: header.name,
            enclosed: header.enclosed,
            unix_mode: header.unix_mode,
            data,
        };
        proof {
            assert(well_read(entry@) == well_read(bare));
            assert(read_of(entry@, holds[i as int]));
        }
        entries.push(entry);
        proof {
            let longer = entries_view(entries@);
            assert forall|j: int| 0 <= j < longer.len() implies read_of(
                #[trigger] longer[j],
                holds[j],
            ) by {
                if j < i {
                    assert(longer[j] == so_far[j]);
                }
            }
        }
        i += 1;
    }
    let ghost read = entries_view(entries@);
    let outcome: Result<ExtractionPlan, LauncherError> = Ok(plan_extraction(entries));
    assert(unpacked(content, outcome, read));
    outcome
}

/// Of an entry with a portable name, what is read is settled: its path is
/// enclosed exactly where the name stays inside the directory, and is then
/// the name itself. So the entry is written exactly where its name stays
/// inside, and passed over where it climbs out.
pub proof fn portable_entry_is_settled(entry: ArchiveEntryView, holds: Option<StoredView>)
    requires
        found_of(entry, holds),
        portable(entry.name),
    ensures
        entry.enclosed == if encloses(entry.name) {
            Some(entry.name)
        } else {
            None
        },
        step_of(entry) is Some <==> encloses(entry.name),
{
}

/// Damage to the content of an entry that is passed over does not break
/// the reading: where a portable name climbs out of the directory, reading
/// never breaks off at its content.
pub proof fn unsafe_entry_is_never_read(holds: Seq<Option<StoredView>>, at: int)
    requires
        0 <= at < holds.len(),
        holds[at] matches Some(stored) && portable(stored.name) && !encloses(stored.name),
    ensures
        !breaks_at(holds, at, ArchiveStage::Content),
{
    if breaks_at(holds, at, ArchiveStage::Content) {
        let entry = choose|entry: ArchiveEntryView| #[trigger]
            found_of(entry, holds[at]) && written_as_file(entry);
        portable_entry_is_settled(entry, holds[at]);
    }
}

/// Damage to the content of a directory does not break the reading: where
/// a name ends in a slash, reading never breaks off at its content.
pub proof fn directory_is_never_read(holds: Seq<Option<StoredView>>, at: int)
    requires
        0 <= at < holds.len(),
        holds[at] matches Some(stored) && names_directory(stored.name),
    ensures
        !breaks_at(holds, at, ArchiveStage::Content),
{
    if breaks_at(holds, at, ArchiveStage::Content) {
        let entry = choose|entry: ArchiveEntryView| #[trigger]
            found_of(entry, holds[at]) && written_as_file(entry);
        assert(entry.name == holds[at]->Some_0.name);
    }
}

/// An entry whose path is not enclosed is listed as passed over.
pub proof fn unsafe_entry_is_listed(entries: Seq<ArchiveEntryView>, k: int)
    requires
        0 <= k < entries.len(),
        entries.len() <= usize::MAX,
        entries[k].enclosed is None,
    ensures
        skipped_of(entries).contains(k as usize),
    decreases entries.len(),
{
    let skipped = skipped_of(entries);
    if k == entries.len() - 1 {
        assert(skipped.last() == k as usize);
    } else {
        let shorter = entries.drop_last();
        unsafe_entry_is_listed(shorter, k);
        let earlier = skipped_of(shorter);
        let at = choose|at: int| 0 <= at < earlier.len() && earlier[at] == k as usize;
        assert(skipped[at] == k as usize);
    }
}

/// An entry whose path is not enclosed is not written, and the other
/// entries are unpacked as if it were not in the archive.
pub proof fn unsafe_entry_is_passed_over(entries: Seq<ArchiveEntryView>, k: int)
    requires
        0 <= k < entries.len(),
        entries[k].enclosed is None,
    ensures
        steps_of(entries) == steps_of(entries.remove(k)),
    decreases entries.len(),
{
    let without = entries.remove(k);
    if k == entries.len() - 1 {
    } else {
        let shorter = entries.drop_last();
        unsafe_entry_is_passed_over(shorter, k);
        assert(without.drop_last() =~= shorter.remove(k));
    }
}

/// Every step writes the content of an entry with an enclosed path, to that
/// path: a path without NUL that does not begin at the root.
pub proof fn steps_write_enclosed_paths(entries: Seq<ArchiveEntryView>, i: int)
    requires
        0 <= i < steps_of(entries).len(),
        forall|j: int| 0 <= j < entries.len() ==> well_read(#[trigger] entries[j]),
    ensures
        exists|k: int|
            0 <= k < entries.len() && step_of(#[trigger] entries[k]) == Some(steps_of(entries)[i]),
        !written_path(steps_of(entries)[i]).contains('\0'),
        written_path(steps_of(entries)[i]).len() > 0 ==> written_path(steps_of(entries)[i])[0]
            != '/',
    decreases entries.len(),
{
    let shorter = entries.drop_last();
    let earlier = steps_of(shorter);
    if i < earlier.len() {
        assert forall|j: int| 0 <= j < shorter.len() implies well_read(#[trigger] shorter[j]) by {}
        steps_write_enclosed_paths(shorter, i);
    } else {
    }
}

/// Every entry is either written or passed over.
pub proof fn every_entry_is_decided(entries: Seq<ArchiveEntryView>)
    ensures
        steps_of(entries).len() + skipped_of(entries).len() == entries.len(),
    decreases entries.len(),
{
    if entries.len() > 0 {
        every_entry_is_decided(entries.drop_last());
    }
}

} // verus!
