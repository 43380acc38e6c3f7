//! Installing an unpacked bundle into the game's directory, and removing an
//! installed package.
//!
//! The caller unpacks a bundle into a working directory and says what it
//! finds there; this module names the bundle's language directory and plans
//! the replacement of the installed package by that directory's content.

use vstd::prelude::*;
use crate::catalog::{Format, FormatView, Localization, LocalizationView};
use crate::error::{LauncherError, LauncherErrorView};
use crate::layout::{lang_directory, lang_path, package_directory, package_path};
use crate::paths::join_paths;
use crate::text::strings_view;

verus! {

/// What the caller found right below `Localize` in an unpacked bundle.
#[derive(Debug)]
pub struct LocalizeChild {
    /// The name of the entry.
    pub name: String,
    /// Whether it is a directory.
    pub is_directory: bool,
    /// Whether it holds a directory `StoryData`.
    pub has_story_data: bool,
}

/// The mathematical value of a [`LocalizeChild`].
pub struct LocalizeChildView {
    pub name: Seq<char>,
    pub is_directory: bool,
    pub has_story_data: bool,
}

impl View for LocalizeChild {
    type V = LocalizeChildView;

    open spec fn view(&self) -> LocalizeChildView {
        LocalizeChildView {
            name: self.name@,
            is_directory: self.is_directory,
            has_story_data: self.has_story_data,
        }
    }
}

/// The values of the children of `Localize`, in the order they were found.
pub open spec fn children_view(children: Seq<LocalizeChild>) -> Seq<LocalizeChildView> {
    children.map_values(|child: LocalizeChild| child@)
}

/// The value of what was found of `Localize`: its children, or nothing
/// where it is no directory.
pub open spec fn localize_view(localize: Option<Vec<LocalizeChild>>) -> Option<
    Seq<LocalizeChildView>,
> {
    match localize {
        Some(children) => Some(children_view(children@)),
        None => None,
    }
}

/// Whether a child of `Localize` is a language directory: a directory that
/// holds a directory `StoryData`.
pub open spec fn is_language_directory(child: LocalizeChildView) -> bool {
    child.is_directory && child.has_story_data
}

/// The place of the first language directory at or after `from`, if there
/// is one.
pub open spec fn first_language_directory(children: Seq<LocalizeChildView>, from: int) -> Option<
    int,
>
    decreases children.len() - from,
{
    if from < 0 || from >= children.len() {
        None
    } else if is_language_directory(children[from]) {
        Some(from)
    } else {
        first_language_directory(children, from + 1)
    }
}

/// What [`first_language_directory`] finds: the first language directory at
/// or after `from`, or nothing when none follows.
pub proof fn first_language_directory_is_first(children: Seq<LocalizeChildView>, from: int)
    requires
        0 <= from,
    ensures
        match first_language_directory(children, from) {
            Some(at) => {
                &&& from <= at < children.len()
                &&& is_language_directory(children[at])
                &&& forall|j: int| from <= j < at ==> !is_language_directory(children[j])
            },
            None => forall|j: int| from <= j < children.len() ==> !is_language_directory(
                children[j],
            ),
        },
    decreases children.len() - from,
{
    if from < children.len() && !is_language_directory(children[from]) {
        first_language_directory_is_first(children, from + 1);
    }
}

/// `Localize/<name>`, a language directory of a `compatible` bundle.
pub open spec fn localized_path(name: Seq<char>) -> Seq<Seq<char>> {
    seq!["Localize"@, name]
}

/// The language directory of an unpacked `compatible` bundle: the first
/// child of `Localize` that is a directory and holds a directory
/// `StoryData`.
pub open spec fn compatible_root_of(localize: Option<Seq<LocalizeChildView>>) -> Result<
    Seq<Seq<char>>,
    LauncherErrorView,
> {
    match localize {
        None => Err(LauncherErrorView::MissingLanguageRoot { localize_present: false }),
        Some(children) => match first_language_directory(children, 0) {
            Some(at) => Ok(localized_path(children[at].name)),
            None => Err(LauncherErrorView::MissingLanguageRoot { localize_present: true }),
        },
    }
}

/// The language directory of an unpacked bundle, as a path below the
/// working directory.
///
/// A `new` bundle is its own language directory. A `compatible` bundle has
/// it below `Localize`. An unknown format has none, whatever the bundle
/// holds.
pub open spec fn language_root_of(
    format: FormatView,
    localize: Option<Seq<LocalizeChildView>>,
) -> Result<Seq<Seq<char>>, LauncherErrorView> {
    match format {
        FormatView::New => Ok(Seq::empty()),
        FormatView::Unknown(tag) => Err(LauncherErrorView::UnknownFormat(tag)),
        FormatView::Compatible => compatible_root_of(localize),
    }
}

/// The value of a path, or of the error in its place.
pub open spec fn root_view(found: Result<Vec<String>, LauncherError>) -> Result<
    Seq<Seq<char>>,
    LauncherErrorView,
> {
    match found {
        Ok(path) => Ok(strings_view(path@)),
        Err(e) => Err(e@),
    }
}

/// Finds the language directory of an unpacked `compatible` bundle, given
/// the children of its `Localize` directory in the order they were found,
/// or nothing where there is no such directory.
pub fn find_compatible_language_dir(localize: &Option<Vec<LocalizeChild>>) -> (found: Result<
    Vec<String>,
    LauncherError,
>)
    ensures
        root_view(found) == compatible_root_of(localize_view(*localize)),
{
    let children = match localize {
        Some(children) => children,
        None => {
            return Err(LauncherError::MissingLanguageRoot { localize_present: false });
        },
    };
    let ghost all = children_view(children@);
    let mut i: usize = 0;
    while i < children.len()
        invariant
            i <= children.len(),
            all == children_view(children@),
            localize_view(*localize) == Some(all),
            forall|j: int| 0 <= j < i ==> !is_language_directory(all[j]),
        decreases children.len() - i,
    {
        let child = &children[i];
        assert(all[i as int] == child@);
        if child.is_directory && child.has_story_data {
            proof {
                assert(is_language_directory(all[i as int]));
                first_language_directory_is_first(all, 0);
            }
            let mut root: Vec<String> = Vec::new();
            root.push("Localize".to_owned());
            root.push(child.name.clone());
            assert(strings_view(root@) =~= localized_path(child@.name));
            return Ok(root);
        }
        i += 1;
    }
    proof {
        first_language_directory_is_first(all, 0);
    }
    Err(LauncherError::MissingLanguageRoot { localize_present: true })
}

/// Finds the language directory of an unpacked bundle of the given format.
/// What was found of `Localize` counts for a `compatible` bundle only.
pub fn find_language_directory(format: &Format, localize: &Option<Vec<LocalizeChild>>) -> (found:
    Result<Vec<String>, LauncherError>)
    ensures
        root_view(found) == language_root_of(format@, localize_view(*localize)),
{
    match format {
        Format::Compatible => find_compatible_language_dir(localize),
        Format::New => {
            let root: Vec<String> = Vec::new();
            assert(strings_view(root@) =~= Seq::<Seq<char>>::empty());
            Ok(root)
        },
        Format::Unknown(tag) => Err(LauncherError::UnknownFormat(tag.clone())),
    }
}

/// One file or directory of a language directory.
#[derive(Debug)]
pub struct TreeEntry {
    /// Where it is, below the language directory.
    pub path: Vec<String>,
    /// Whether it is a directory.
    pub is_directory: bool,
}

/// The mathematical value of a [`TreeEntry`].
pub struct TreeEntryView {
    pub path: Seq<Seq<char>>,
    pub is_directory: bool,
}

impl View for TreeEntry {
    type V = TreeEntryView;

    open spec fn view(&self) -> TreeEntryView {
        TreeEntryView { path: strings_view(self.path@), is_directory: self.is_directory }
    }
}

/// The values of a listing, in order.
pub open spec fn tree_view(tree: Seq<TreeEntry>) -> Seq<TreeEntryView> {
    tree.map_values(|entry: TreeEntry| entry@)
}

/// One change to the game's directory. A path that is written lies below
/// the game's directory; the source of a copy lies below the working
/// directory.
#[derive(Debug)]
pub enum InstallStep {
    /// Remove the directory with everything in it.
    RemoveDirectory(Vec<String>),
    /// Create the directory and its parents, if they are not there.
    CreateDirectories(Vec<String>),
    /// Create the directory, which must not be there yet.
    CreateDirectory(Vec<String>),
    /// Copy the file `from` the working directory `to` its place.
    CopyFile { from: Vec<String>, to: Vec<String> },
}

/// The mathematical value of an [`InstallStep`].
pub enum InstallStepView {
    RemoveDirectory(Seq<Seq<char>>),
    CreateDirectories(Seq<Seq<char>>),
    CreateDirectory(Seq<Seq<char>>),
    CopyFile { from: Seq<Seq<char>>, to: Seq<Seq<char>> },
}

impl View for InstallStep {
    type V = InstallStepView;

    open spec fn view(&self) -> InstallStepView {
        match self {
            InstallStep::RemoveDirectory(path) => InstallStepView::RemoveDirectory(
                strings_view(path@),
            ),
            InstallStep::CreateDirectories(path) => InstallStepView::CreateDirectories(
                strings_view(path@),
            ),
            InstallStep::CreateDirectory(path) => InstallStepView::CreateDirectory(
                strings_view(path@),
            ),
            InstallStep::CopyFile { from, to } => InstallStepView::CopyFile {
                from: strings_view(from@),
                to: strings_view(to@),
            },
        }
    }
}

/// The values of a list of steps, in order.
pub open spec fn install_steps_view(steps: Seq<InstallStep>) -> Seq<InstallStepView> {
    steps.map_values(|step: InstallStep| step@)
}

/// The step that brings one entry of the directory `root` to the directory
/// `target`: a directory is created, a file is copied.
pub open spec fn copy_step_of(
    entry: TreeEntryView,
    root: Seq<Seq<char>>,
    target: Seq<Seq<char>>,
) -> InstallStepView {
    if entry.is_directory {
        InstallStepView::CreateDirectories(target + entry.path)
    } else {
        InstallStepView::CopyFile { from: root + entry.path, to: target + entry.path }
    }
}

/// The steps that bring the content of the directory `root` to the
/// directory `target`: one for each entry, in listing order.
pub open spec fn copy_steps_of(
    contents: Seq<TreeEntryView>,
    root: Seq<Seq<char>>,
    target: Seq<Seq<char>>,
) -> Seq<InstallStepView> {
    contents.map_values(|entry: TreeEntryView| copy_step_of(entry, root, target))
}

/// The steps that make room for a package: what is installed under its id
/// is removed, the directory of installed packages is made sure of, and the
/// package's own directory is created anew.
pub open spec fn fresh_directory_steps(id: Seq<char>, target_exists: bool) -> Seq<
    InstallStepView,
> {
    let create = seq![
        InstallStepView::CreateDirectories(lang_path()),
        InstallStepView::CreateDirectory(package_path(id)),
    ];
    if target_exists {
        seq![InstallStepView::RemoveDirectory(package_path(id))] + create
    } else {
        create
    }
}

/// Everything that replaces the installed package `id` by the content of
/// the directory `root` of the working directory.
pub open spec fn install_steps_of(
    id: Seq<char>,
    root: Seq<Seq<char>>,
    contents: Seq<TreeEntryView>,
    target_exists: bool,
) -> Seq<InstallStepView> {
    fresh_directory_steps(id, target_exists) + copy_steps_of(contents, root, package_path(id))
}

/// Plans the copy of the content of the directory `root`, listed in
/// `contents`, to the directory `target`.
pub fn copy_directory_contents(
    contents: &Vec<TreeEntry>,
    root: &Vec<String>,
    target: &Vec<String>,
) -> (steps: Vec<InstallStep>)
    ensures
        install_steps_view(steps@) == copy_steps_of(
            tree_view(contents@),
            strings_view(root@),
            strings_view(target@),
        ),
{
    let mut steps: Vec<InstallStep> = Vec::new();
    let mut i: usize = 0;
    while i < contents.len()
        invariant
            i <= contents.len(),
            steps.len() == i,
            forall|j: int|
                0 <= j < i ==> steps@[j]@ == copy_step_of(
                    contents@[j]@,
                    strings_view(root@),
                    strings_view(target@),
                ),
        decreases contents.len() - i,
    {
        let entry = &contents[i];
        let to = join_paths(target, &entry.path);
        if entry.is_directory {
            steps.push(InstallStep::CreateDirectories(to));
        } else {
            steps.push(InstallStep::CopyFile { from: join_paths(root, &entry.path), to });
        }
        i += 1;
    }
    assert(install_steps_view(steps@) =~= copy_steps_of(
        tree_view(contents@),
        strings_view(root@),
        strings_view(target@),
    ));
    steps
}

/// Plans the replacement of the installed package `id` by the content of
/// the directory `root` of the working directory, listed in `contents`.
pub fn install_to_game_directory(
    id: &str,
    root: &Vec<String>,
    contents: &Vec<TreeEntry>,
    target_exists: bool,
) -> (steps: Vec<InstallStep>)
    ensures
        install_steps_view(steps@) == install_steps_of(
            id@,
            strings_view(root@),
            tree_view(contents@),
            target_exists,
        ),
{
    let target = package_directory(id);
    let mut steps: Vec<InstallStep> = Vec::new();
    if target_exists {
        steps.push(InstallStep::RemoveDirectory(package_directory(id)));
    }
    steps.push(InstallStep::CreateDirectories(lang_directory()));
    steps.push(InstallStep::CreateDirectory(package_directory(id)));
    let ghost fresh = install_steps_view(steps@);
    assert(fresh =~= fresh_directory_steps(id@, target_exists));
    let mut copies = copy_directory_contents(contents, root, &target);
    let ghost copied = install_steps_view(copies@);
    steps.append(&mut copies);
    assert(install_steps_view(steps@) =~= fresh + copied);
    steps
}

/// The plan of an install, or the error in its place.
pub open spec fn plan_view(plan: Result<Vec<InstallStep>, LauncherError>) -> Result<
    Seq<InstallStepView>,
    LauncherErrorView,
> {
    match plan {
        Ok(steps) => Ok(install_steps_view(steps@)),
        Err(e) => Err(e@),
    }
}

/// What installing a package takes once its bundle is unpacked: the steps
/// that replace the installed package by the bundle's language directory,
/// or the reason there is none.
pub open spec fn install_plan_of(
    localization: LocalizationView,
    localize: Option<Seq<LocalizeChildView>>,
    contents: Seq<TreeEntryView>,
    target_exists: bool,
) -> Result<Seq<InstallStepView>, LauncherErrorView> {
    match language_root_of(localization.format, localize) {
        Ok(root) => Ok(install_steps_of(localization.id, root, contents, target_exists)),
        Err(e) => Err(e),
    }
}

/// Plans the install of a package whose bundle is unpacked, given what was
/// found of `Localize` and the listing of the bundle's language directory.
/// Nothing is planned, and so nothing in the game's directory is touched,
/// where the bundle has no language directory or the format is unknown.
pub fn install_localization(
    localization: &Localization,
    localize: &Option<Vec<LocalizeChild>>,
    contents: &Vec<TreeEntry>,
    target_exists: bool,
) -> (plan: Result<Vec<InstallStep>, LauncherError>)
    ensures
        plan_view(plan) == install_plan_of(
            localization@,
            localize_view(*localize),
            tree_view(contents@),
            target_exists,
        ),
        localization@.format matches FormatView::Unknown(tag) ==> plan_view(plan) == Err::<
            Seq<InstallStepView>,
            LauncherErrorView,
        >(LauncherErrorView::UnknownFormat(tag)),
{
    match find_language_directory(&localization.format, localize) {
        Ok(root) => Ok(
            install_to_game_directory(localization.id.as_str(), &root, contents, target_exists),
        ),
        Err(e) => Err(e),
    }
}

/// Plans the removal of the installed package `id`: its directory is
/// removed with everything in it, provided it is there.
pub fn uninstall_localization(id: &str, target_exists: bool) -> (plan: Result<
    InstallStep,
    LauncherError,
>)
    ensures
        match plan {
            Ok(step) => target_exists && step@ == InstallStepView::RemoveDirectory(
                package_path(id@),
            ),
            Err(e) => !target_exists && e@ == LauncherErrorView::NotInstalled(id@),
        },
{
    if target_exists {
        Ok(InstallStep::RemoveDirectory(package_directory(id)))
    } else {
        Err(LauncherError::NotInstalled(id.to_owned()))
    }
}

/// A package of unknown format is never installed, whatever its bundle
/// holds and whatever is installed: the plan is the error that names the
/// tag, and holds no step.
pub proof fn unknown_format_is_rejected(
    localization: LocalizationView,
    localize: Option<Seq<LocalizeChildView>>,
    contents: Seq<TreeEntryView>,
    target_exists: bool,
)
    requires
        localization.format is Unknown,
    ensures
        install_plan_of(localization, localize, contents, target_exists) == Err::<
            Seq<InstallStepView>,
            LauncherErrorView,
        >(LauncherErrorView::UnknownFormat(localization.format->Unknown_0)),
{
}

/// Where a step writes to or removes, below the game's directory.
pub open spec fn touched(step: InstallStepView) -> Seq<Seq<char>> {
    match step {
        InstallStepView::RemoveDirectory(path) => path,
        InstallStepView::CreateDirectories(path) => path,
        InstallStepView::CreateDirectory(path) => path,
        InstallStepView::CopyFile { from, to } => to,
    }
}

/// An install touches nothing but the package's own directory and what is
/// in it, apart from making sure that the directory of installed packages
/// is there; it removes nothing but the package's own directory; and it
/// copies from nowhere but the language directory.
pub proof fn install_stays_in_its_directory(
    id: Seq<char>,
    root: Seq<Seq<char>>,
    contents: Seq<TreeEntryView>,
    target_exists: bool,
    i: int,
)
    requires
        0 <= i < install_steps_of(id, root, contents, target_exists).len(),
    ensures
        ({
            let step = install_steps_of(id, root, contents, target_exists)[i];
            &&& step == InstallStepView::CreateDirectories(lang_path()) || package_path(
                id,
            ).is_prefix_of(touched(step))
            &&& step is RemoveDirectory ==> touched(step) == package_path(id)
            &&& step matches InstallStepView::CopyFile { from, to } ==> root.is_prefix_of(from)
        }),
{
    let fresh = fresh_directory_steps(id, target_exists);
    let target = package_path(id);
    if i >= fresh.len() {
        let entry = contents[i - fresh.len()];
        assert((target + entry.path).subrange(0, target.len() as int) =~= target);
        assert((root + entry.path).subrange(0, root.len() as int) =~= root);
    } else {
        assert(target.subrange(0, target.len() as int) =~= target);
    }
}

/// What is installed under the package's id is removed before anything is
/// written, and what follows is the install into a fresh directory: so
/// nothing of an earlier install stays, and installing twice leaves what
/// installing once leaves.
pub proof fn install_starts_afresh(
    id: Seq<char>,
    root: Seq<Seq<char>>,
    contents: Seq<TreeEntryView>,
)
    ensures
        install_steps_of(id, root, contents, true)[0] == InstallStepView::RemoveDirectory(
            package_path(id),
        ),
        install_steps_of(id, root, contents, true).skip(1) == install_steps_of(
            id,
            root,
            contents,
            false,
        ),
{
}

} // verus!
