//! The build itself, as a sequence of decisions.
//!
//! A [`BuildSystem`] never touches a file or starts a process. It says what has to be done
//! next ([`BuildSystem::request`]), and is told what came of it ([`BuildSystem::step`]). The
//! caller reads directories, runs the compiler and the linker, and prints what the host build
//! system has to hear.
//!
//! A build goes through these requests, in this order:
//!
//! 1. `ReadDirectory`, once for each directory below the place where sources are searched;
//!    none if the source files were named one by one.
//! 2. `CreateDirectory` for the intermediates.
//! 3. `Compile`, once for each source file, in the order in which they were found.
//! 4. `ReadDependencyFile` for the one dependency file that all compiler runs share.
//! 5. `EmitRerunIfChanged` with one line for each dependency.
//! 6. `Link` with the object files, in the order of their sources.
//! 7. `Finished` with the product.
//!
//! Whatever goes wrong ends the build with `Failed`.
use crate::buildkit::{
    clone_paths, BuildSettings, BuildSettingsBuilder, BuildSettingsBuilderView,
    BuildSettingsView, CompileStep, Configuration, ConfigurationError, Environment,
    EnvironmentView, LinkStep, PathType, PathTypeView, SourceFileStrategy,
    SourceFileStrategyView,
};
use crate::command::{ToolCommand, ToolCommandView};
use crate::dependency_parser::{parse_spec, rerun_directives_spec, tell_cargo_about_dependencies};
use crate::path::{BuildPath, PathView};
use vstd::prelude::*;

verus! {

/// What an entry of a directory is.
#[derive(Clone, Copy, Debug, PartialEq, Eq, Structural)]
pub enum EntryKind {
    /// A regular file.
    File,
    /// A directory.
    Directory,
    /// Neither.
    Other,
}

/// One entry of a directory.
#[derive(Debug, PartialEq, Eq)]
pub struct DirectoryEntry {
    pub name: String,
    pub kind: EntryKind,
}

/// What a [`DirectoryEntry`] holds, as contracts speak of it.
pub ghost struct DirectoryEntryView {
    pub name: Seq<char>,
    pub kind: EntryKind,
}

impl View for DirectoryEntry {
    type V = DirectoryEntryView;

    open spec fn view(&self) -> DirectoryEntryView {
        DirectoryEntryView { name: self.name@, kind: self.kind }
    }
}

impl DeepView for DirectoryEntry {
    type V = DirectoryEntryView;

    open spec fn deep_view(&self) -> DirectoryEntryView {
        self@
    }
}

/// What a compiler or linker printed before it ended with an error.
#[derive(Debug, PartialEq, Eq)]
pub struct ToolFailure {
    pub stdout: String,
    pub stderr: String,
}

/// What a [`ToolFailure`] holds, as contracts speak of it.
pub ghost struct ToolFailureView {
    pub stdout: Seq<char>,
    pub stderr: Seq<char>,
}

impl View for ToolFailure {
    type V = ToolFailureView;

    open spec fn view(&self) -> ToolFailureView {
        ToolFailureView { stdout: self.stdout@, stderr: self.stderr@ }
    }
}

impl Clone for ToolFailure {
    fn clone(&self) -> (copy: Self)
        ensures
            copy@ == self@,
    {
        ToolFailure { stdout: self.stdout.clone(), stderr: self.stderr.clone() }
    }
}

/// Why a build ended without a product.
#[derive(Debug, PartialEq, Eq)]
pub enum BuildError {
    /// A value that the build needs is missing, or there is nothing to compile.
    Configuration(ConfigurationError),
    /// This directory could not be read while sources were searched.
    Discovery(BuildPath),
    /// The compiler or the linker ended with an error.
    ExternalTool(ToolFailure),
    /// The dependency file holds an escape that is not understood.
    ParseInvariantViolation,
    /// The build was told of something it had not asked for.
    UnexpectedEvent,
}

/// What a [`BuildError`] holds, as contracts speak of it.
pub ghost enum BuildErrorView {
    Configuration(ConfigurationError),
    Discovery(PathView),
    ExternalTool(ToolFailureView),
    ParseInvariantViolation,
    UnexpectedEvent,
}

impl View for BuildError {
    type V = BuildErrorView;

    open spec fn view(&self) -> BuildErrorView {
        match self {
            BuildError::Configuration(error) => BuildErrorView::Configuration(*error),
            BuildError::Discovery(directory) => BuildErrorView::Discovery(directory@),
            BuildError::ExternalTool(failure) => BuildErrorView::ExternalTool(failure@),
            BuildError::ParseInvariantViolation => BuildErrorView::ParseInvariantViolation,
            BuildError::UnexpectedEvent => BuildErrorView::UnexpectedEvent,
        }
    }
}

impl Clone for BuildError {
    fn clone(&self) -> (copy: Self)
        ensures
            copy@ == self@,
    {
        match self {
            BuildError::Configuration(error) => BuildError::Configuration(*error),
            BuildError::Discovery(directory) => BuildError::Discovery(directory.clone()),
            BuildError::ExternalTool(failure) => BuildError::ExternalTool(failure.clone()),
            BuildError::ParseInvariantViolation => BuildError::ParseInvariantViolation,
            BuildError::UnexpectedEvent => BuildError::UnexpectedEvent,
        }
    }
}

/// What the build asks its caller to do next.
#[derive(Debug, PartialEq, Eq)]
pub enum BuildRequest {
    /// List the entries of this directory.
    ReadDirectory(BuildPath),
    /// Make sure that this directory exists, with all directories above it.
    CreateDirectory(BuildPath),
    /// Compile one source file.
    Compile {
        source: BuildPath,
        intermediate_dir: BuildPath,
        configuration: Configuration,
        dependency_path: BuildPath,
    },
    /// Read this file as text.
    ReadDependencyFile(BuildPath),
    /// Print these lines for the host build system.
    EmitRerunIfChanged(Vec<String>),
    /// Link the object files into the product.
    Link {
        object_files: Vec<BuildPath>,
        out_dir: BuildPath,
        lib_name: String,
        configuration: Configuration,
    },
    /// Nothing: the build is done, and this is its product.
    Finished(BuildPath),
    /// Nothing: the build has failed.
    Failed(BuildError),
}

/// What a [`BuildRequest`] holds, as contracts speak of it.
pub ghost enum BuildRequestView {
    ReadDirectory(PathView),
    CreateDirectory(PathView),
    Compile {
        source: PathView,
        intermediate_dir: PathView,
        configuration: Configuration,
        dependency_path: PathView,
    },
    ReadDependencyFile(PathView),
    EmitRerunIfChanged(Seq<Seq<char>>),
    Link {
        object_files: Seq<PathView>,
        out_dir: PathView,
        lib_name: Seq<char>,
        configuration: Configuration,
    },
    Finished(PathView),
    Failed(BuildErrorView),
}

impl View for BuildRequest {
    type V = BuildRequestView;

    open spec fn view(&self) -> BuildRequestView {
        match self {
            BuildRequest::ReadDirectory(path) => BuildRequestView::ReadDirectory(path@),
            BuildRequest::CreateDirectory(path) => BuildRequestView::CreateDirectory(path@),
            BuildRequest::Compile { source, intermediate_dir, configuration, dependency_path } => {
                BuildRequestView::Compile {
                    source: source@,
                    intermediate_dir: intermediate_dir@,
                    configuration: *configuration,
                    dependency_path: dependency_path@,
                }
            },
            BuildRequest::ReadDependencyFile(path) => BuildRequestView::ReadDependencyFile(path@),
            BuildRequest::EmitRerunIfChanged(lines) => BuildRequestView::EmitRerunIfChanged(
                lines.deep_view(),
            ),
            BuildRequest::Link { object_files, out_dir, lib_name, configuration } => {
                BuildRequestView::Link {
                    object_files: object_files.deep_view(),
                    out_dir: out_dir@,
                    lib_name: lib_name@,
                    configuration: *configuration,
                }
            },
            BuildRequest::Finished(product) => BuildRequestView::Finished(product@),
            BuildRequest::Failed(error) => BuildRequestView::Failed(error@),
        }
    }
}

/// What the caller tells the build.
#[derive(Debug, PartialEq, Eq)]
pub enum BuildEvent {
    /// The directory holds these entries, in the order in which the file system gave them.
    DirectoryListing(Vec<DirectoryEntry>),
    /// The directory could not be read.
    DirectoryUnreadable,
    /// The directory exists now.
    DirectoryCreated,
    /// The compiler has written this object file.
    Compiled(BuildPath),
    /// The dependency file holds this text.
    DependencyFile(String),
    /// The lines are printed.
    RerunIfChangedEmitted,
    /// The linker has written this product.
    Linked(BuildPath),
    /// The compiler or the linker ended with an error.
    ToolFailed(ToolFailure),
}

/// What a [`BuildEvent`] holds, as contracts speak of it.
pub ghost enum BuildEventView {
    DirectoryListing(Seq<DirectoryEntryView>),
    DirectoryUnreadable,
    DirectoryCreated,
    Compiled(PathView),
    DependencyFile(Seq<char>),
    RerunIfChangedEmitted,
    Linked(PathView),
    ToolFailed(ToolFailureView),
}

impl View for BuildEvent {
    type V = BuildEventView;

    open spec fn view(&self) -> BuildEventView {
        match self {
            BuildEvent::DirectoryListing(entries) => BuildEventView::DirectoryListing(
                entries.deep_view(),
            ),
            BuildEvent::DirectoryUnreadable => BuildEventView::DirectoryUnreadable,
            BuildEvent::DirectoryCreated => BuildEventView::DirectoryCreated,
            BuildEvent::Compiled(object_file) => BuildEventView::Compiled(object_file@),
            BuildEvent::DependencyFile(text) => BuildEventView::DependencyFile(text@),
            BuildEvent::RerunIfChangedEmitted => BuildEventView::RerunIfChangedEmitted,
            BuildEvent::Linked(product) => BuildEventView::Linked(product@),
            BuildEvent::ToolFailed(failure) => BuildEventView::ToolFailed(failure@),
        }
    }
}

/// An entry that was listed and waits to be looked at.
#[derive(Debug)]
struct PendingEntry {
    path: BuildPath,
    kind: EntryKind,
}

/// What a [`PendingEntry`] holds, as contracts speak of it.
pub ghost struct PendingEntryView {
    pub path: PathView,
    pub kind: EntryKind,
}

impl View for PendingEntry {
    type V = PendingEntryView;

    closed spec fn view(&self) -> PendingEntryView {
        PendingEntryView { path: self.path@, kind: self.kind }
    }
}

impl DeepView for PendingEntry {
    type V = PendingEntryView;

    closed spec fn deep_view(&self) -> PendingEntryView {
        self@
    }
}

/// Where a build stands.
#[derive(Debug)]
enum Phase {
    Scanning { reading: BuildPath, pending: Vec<PendingEntry>, found: Vec<BuildPath> },
    Preparing { sources: Vec<BuildPath> },
    Compiling { sources: Vec<BuildPath>, object_files: Vec<BuildPath> },
    ReadingDependencies { sources: Vec<BuildPath>, object_files: Vec<BuildPath> },
    Announcing { sources: Vec<BuildPath>, object_files: Vec<BuildPath>, lines: Vec<String> },
    Linking { sources: Vec<BuildPath>, object_files: Vec<BuildPath> },
    Finished { product: BuildPath },
    Failed { error: BuildError },
}

/// Where a build stands.
pub ghost enum PhaseView {
    /// Sources are searched. `reading` is the directory whose entries are awaited, `pending`
    /// holds the entries that were listed and not yet looked at, the next one last, and
    /// `found` the sources found so far.
    Scanning { reading: PathView, pending: Seq<PendingEntryView>, found: Seq<PathView> },
    /// The sources are known, and the directory for intermediates is awaited.
    Preparing { sources: Seq<PathView> },
    /// The object file of the source at position `object_files.len()` is awaited.
    Compiling { sources: Seq<PathView>, object_files: Seq<PathView> },
    /// All sources are compiled, and the text of the dependency file is awaited.
    ReadingDependencies { sources: Seq<PathView>, object_files: Seq<PathView> },
    /// The host build system is being told of the dependencies.
    Announcing { sources: Seq<PathView>, object_files: Seq<PathView>, lines: Seq<Seq<char>> },
    /// The product is awaited.
    Linking { sources: Seq<PathView>, object_files: Seq<PathView> },
    /// The build is done.
    Finished { product: PathView },
    /// The build has failed.
    Failed { error: BuildErrorView },
}

impl View for Phase {
    type V = PhaseView;

    closed spec fn view(&self) -> PhaseView {
        match self {
            Phase::Scanning { reading, pending, found } => PhaseView::Scanning {
                reading: reading@,
                pending: pending.deep_view(),
                found: found.deep_view(),
            },
            Phase::Preparing { sources } => PhaseView::Preparing { sources: sources.deep_view() },
            Phase::Compiling { sources, object_files } => PhaseView::Compiling {
                sources: sources.deep_view(),
                object_files: object_files.deep_view(),
            },
            Phase::ReadingDependencies { sources, object_files } => PhaseView::ReadingDependencies {
                sources: sources.deep_view(),
                object_files: object_files.deep_view(),
            },
            Phase::Announcing { sources, object_files, lines } => PhaseView::Announcing {
                sources: sources.deep_view(),
                object_files: object_files.deep_view(),
                lines: lines.deep_view(),
            },
            Phase::Linking { sources, object_files } => PhaseView::Linking {
                sources: sources.deep_view(),
                object_files: object_files.deep_view(),
            },
            Phase::Finished { product } => PhaseView::Finished { product: product@ },
            Phase::Failed { error } => PhaseView::Failed { error: error@ },
        }
    }
}

/// The entries of the directory `reading` as they are put on top of the pending ones: in
/// reverse, so that the first entry is looked at first.
pub open spec fn listed(reading: PathView, entries: Seq<DirectoryEntryView>) -> Seq<
    PendingEntryView,
> {
    Seq::new(
        entries.len(),
        |i: int|
            PendingEntryView {
                path: reading.child(entries[entries.len() - 1 - i].name),
                kind: entries[entries.len() - 1 - i].kind,
            },
    )
}

/// Looks at the pending entries, the last one first, until a directory has to be read or
/// none is left.
///
/// A regular file whose extension is exactly `extension` is a source. Other files, and what
/// is neither file nor directory, are passed over. A directory is read before the entries
/// that were listed beside it are looked at, so sources are found in the order of a walk
/// that goes into each directory where it meets it.
pub open spec fn discover(
    extension: Seq<char>,
    pending: Seq<PendingEntryView>,
    found: Seq<PathView>,
) -> PhaseView
    decreases pending.len(),
{
    if pending.len() == 0 {
        discovered(found)
    } else {
        let entry = pending.last();
        match entry.kind {
            EntryKind::Directory => PhaseView::Scanning {
                reading: entry.path,
                pending: pending.drop_last(),
                found,
            },
            EntryKind::File => discover(
                extension,
                pending.drop_last(),
                if entry.path.extension() == Some(extension) {
                    found.push(entry.path)
                } else {
                    found
                },
            ),
            EntryKind::Other => discover(extension, pending.drop_last(), found),
        }
    }
}

/// Where a build stands once its sources are known: it has failed if there are none.
pub open spec fn discovered(sources: Seq<PathView>) -> PhaseView {
    if sources.len() == 0 {
        PhaseView::Failed {
            error: BuildErrorView::Configuration(ConfigurationError::NothingToCompile),
        }
    } else {
        PhaseView::Preparing { sources }
    }
}

/// A build: its settings, the extension of its source files, and where it stands.
#[derive(Debug)]
pub struct BuildSystem {
    intermediate_path: BuildPath,
    product_path: BuildPath,
    configuration: Configuration,
    product_name: String,
    extension: String,
    phase: Phase,
}

/// What a [`BuildSystem`] holds, as contracts speak of it.
pub ghost struct BuildSystemView {
    pub intermediate_path: PathView,
    pub product_path: PathView,
    pub configuration: Configuration,
    pub product_name: Seq<char>,
    pub extension: Seq<char>,
    pub phase: PhaseView,
}

impl View for BuildSystem {
    type V = BuildSystemView;

    closed spec fn view(&self) -> BuildSystemView {
        BuildSystemView {
            intermediate_path: self.intermediate_path@,
            product_path: self.product_path@,
            configuration: self.configuration,
            product_name: self.product_name@,
            extension: self.extension@,
            phase: self.phase@,
        }
    }
}

impl BuildSystemView {
    /// A build that starts with `settings`, for source files with `extension`.
    ///
    /// Source files that were named are taken as they are, in their order, with repetitions.
    /// Else the search starts in the directory that the settings name, seen from the
    /// manifest directory.
    pub open spec fn start(
        settings: BuildSettingsView,
        env: EnvironmentView,
        extension: Seq<char>,
    ) -> BuildSystemView {
        BuildSystemView {
            intermediate_path: settings.intermediate_path,
            product_path: settings.product_path,
            configuration: settings.configuration,
            product_name: settings.product_name,
            extension,
            phase: match settings.source_strategy {
                SourceFileStrategyView::SourceFiles(paths) => discovered(paths),
                SourceFileStrategyView::SearchFromManifest(path) => match env.manifest_dir {
                    Some(manifest_dir) => PhaseView::Scanning {
                        reading: manifest_dir.join(path),
                        pending: Seq::empty(),
                        found: Seq::empty(),
                    },
                    None => PhaseView::Failed {
                        error: BuildErrorView::Configuration(ConfigurationError::ManifestDirNotSet),
                    },
                },
            },
        }
    }

    /// The one dependency file of the build. Every compiler run writes it.
    pub open spec fn dependency_path(self) -> PathView {
        self.intermediate_path.child("dependency"@)
    }

    /// What holds of every build: a source is awaited only while one is left to compile, and
    /// what follows the compiling has one object file for each source, of which there is at
    /// least one.
    pub open spec fn wf(self) -> bool {
        match self.phase {
            PhaseView::Scanning { .. } => true,
            PhaseView::Preparing { sources } => sources.len() > 0,
            PhaseView::Compiling { sources, object_files } => object_files.len() < sources.len(),
            PhaseView::ReadingDependencies { sources, object_files } => 0 < sources.len()
                == object_files.len(),
            PhaseView::Announcing { sources, object_files, lines } => 0 < sources.len()
                == object_files.len(),
            PhaseView::Linking { sources, object_files } => 0 < sources.len()
                == object_files.len(),
            PhaseView::Finished { .. } => true,
            PhaseView::Failed { .. } => true,
        }
    }

    /// What the build asks for where it stands.
    pub open spec fn request(self) -> BuildRequestView {
        match self.phase {
            PhaseView::Scanning { reading, pending, found } => BuildRequestView::ReadDirectory(
                reading,
            ),
            PhaseView::Preparing { sources } => BuildRequestView::CreateDirectory(
                self.intermediate_path,
            ),
            PhaseView::Compiling { sources, object_files } => BuildRequestView::Compile {
                source: sources[object_files.len() as int],
                intermediate_dir: self.intermediate_path,
                configuration: self.configuration,
                dependency_path: self.dependency_path(),
            },
            PhaseView::ReadingDependencies {
                sources,
                object_files,
            } => BuildRequestView::ReadDependencyFile(self.dependency_path()),
            PhaseView::Announcing {
                sources,
                object_files,
                lines,
            } => BuildRequestView::EmitRerunIfChanged(lines),
            PhaseView::Linking { sources, object_files } => BuildRequestView::Link {
                object_files,
                out_dir: self.product_path,
                lib_name: self.product_name,
                configuration: self.configuration,
            },
            PhaseView::Finished { product } => BuildRequestView::Finished(product),
            PhaseView::Failed { error } => BuildRequestView::Failed(error),
        }
    }

    /// Where the build stands after `event`.
    ///
    /// A build that is done or has failed stays as it is. Else an event that does not answer
    /// the request fails the build with `UnexpectedEvent`; an unreadable directory fails it
    /// with `Discovery` and the directory; a failed tool fails it with `ExternalTool` and what
    /// the tool printed; and a dependency file that cannot be read as one fails it with
    /// `ParseInvariantViolation`.
    pub open spec fn phase_after(self, event: BuildEventView) -> PhaseView {
        let unexpected = PhaseView::Failed { error: BuildErrorView::UnexpectedEvent };
        match self.phase {
            PhaseView::Scanning { reading, pending, found } => match event {
                BuildEventView::DirectoryListing(entries) => discover(
                    self.extension,
                    pending + listed(reading, entries),
                    found,
                ),
                BuildEventView::DirectoryUnreadable => PhaseView::Failed {
                    error: BuildErrorView::Discovery(reading),
                },
                _ => unexpected,
            },
            PhaseView::Preparing { sources } => match event {
                BuildEventView::DirectoryCreated => PhaseView::Compiling {
                    sources,
                    object_files: Seq::empty(),
                },
                _ => unexpected,
            },
            PhaseView::Compiling { sources, object_files } => match event {
                BuildEventView::Compiled(object_file) => if object_files.len() + 1
                    == sources.len() {
                    PhaseView::ReadingDependencies {
                        sources,
                        object_files: object_files.push(object_file),
                    }
                } else {
                    PhaseView::Compiling { sources, object_files: object_files.push(object_file) }
                },
                BuildEventView::ToolFailed(failure) => PhaseView::Failed {
                    error: BuildErrorView::ExternalTool(failure),
                },
                _ => unexpected,
            },
            PhaseView::ReadingDependencies { sources, object_files } => match event {
                BuildEventView::DependencyFile(text) => match parse_spec(text) {
                    Ok(dependencies) => PhaseView::Announcing {
                        sources,
                        object_files,
                        lines: rerun_directives_spec(dependencies),
                    },
                    Err(_) => PhaseView::Failed {
                        error: BuildErrorView::ParseInvariantViolation,
                    },
                },
                _ => unexpected,
            },
            PhaseView::Announcing { sources, object_files, lines } => match event {
                BuildEventView::RerunIfChangedEmitted => PhaseView::Linking {
                    sources,
                    object_files,
                },
                _ => unexpected,
            },
            PhaseView::Linking { sources, object_files } => match event {
                BuildEventView::Linked(product) => PhaseView::Finished { product },
                BuildEventView::ToolFailed(failure) => PhaseView::Failed {
                    error: BuildErrorView::ExternalTool(failure),
                },
                _ => unexpected,
            },
            PhaseView::Finished { product } => self.phase,
            PhaseView::Failed { error } => self.phase,
        }
    }

    /// The build after `event`.
    pub open spec fn next(self, event: BuildEventView) -> BuildSystemView {
        BuildSystemView { phase: self.phase_after(event), ..self }
    }

    /// The build after `events`, one after the other.
    pub open spec fn run(self, events: Seq<BuildEventView>) -> BuildSystemView
        decreases events.len(),
    {
        if events.len() == 0 {
            self
        } else {
            self.run(events.drop_last()).next(events.last())
        }
    }
}

/// Where a build stands once its sources are known.
fn sources_known(sources: Vec<BuildPath>) -> (phase: Phase)
    ensures
        phase@ == discovered(sources.deep_view()),
{
    if sources.len() == 0 {
        Phase::Failed { error: BuildError::Configuration(ConfigurationError::NothingToCompile) }
    } else {
        Phase::Preparing { sources }
    }
}

/// Whether `path` names a source file: whether its extension is `extension`.
fn has_extension(path: &BuildPath, extension: &String) -> (matches: bool)
    ensures
        matches == (path@.extension() == Some(extension@)),
{
    match path.extension() {
        Some(found) => found == *extension,
        None => false,
    }
}

/// Looks at the pending entries until a directory has to be read or none is left.
fn look_at_pending(extension: &String, pending: Vec<PendingEntry>, found: Vec<BuildPath>) -> (phase:
    Phase)
    ensures
        phase@ == discover(extension@, pending.deep_view(), found.deep_view()),
{
    let mut stack = pending;
    let mut sources = found;
    while stack.len() > 0
        invariant
            discover(extension@, stack.deep_view(), sources.deep_view()) == discover(
                extension@,
                pending.deep_view(),
                found.deep_view(),
            ),
        decreases stack.len(),
    {
        let ghost stack_before = stack.deep_view();
        let ghost sources_before = sources.deep_view();
        let entry = stack.pop().unwrap();
        assert(stack.deep_view() =~= stack_before.drop_last());
        assert(entry@ == stack_before.last());
        match entry.kind {
            EntryKind::Directory => {
                return Phase::Scanning { reading: entry.path, pending: stack, found: sources };
            },
            EntryKind::File => {
                if has_extension(&entry.path, extension) {
                    sources.push(entry.path);
                    assert(sources.deep_view() =~= sources_before.push(entry.path@));
                }
            },
            EntryKind::Other => {},
        }
    }
    sources_known(sources)
}

/// Puts the entries of the directory `reading` on top of the pending ones.
fn list(reading: &BuildPath, entries: &Vec<DirectoryEntry>, pending: Vec<PendingEntry>) -> (all:
    Vec<PendingEntry>)
    ensures
        all.deep_view() == pending.deep_view() + listed(reading@, entries.deep_view()),
{
    let ghost below = pending.deep_view();
    let ghost above = listed(reading@, entries.deep_view());
    let mut all = pending;
    let mut left: usize = entries.len();
    while left > 0
        invariant
            left <= entries.len(),
            above == listed(reading@, entries.deep_view()),
            all.deep_view() == below + above.take(entries.len() - left),
        decreases left,
    {
        let ghost before = all.deep_view();
        left = left - 1;
        let entry = &entries[left];
        let path = reading.child(entry.name.as_str());
        all.push(PendingEntry { path, kind: entry.kind });
        assert(all.deep_view() =~= before.push(above[entries.len() - 1 - left]));
        assert(all.deep_view() =~= below + above.take(entries.len() - left));
    }
    assert(above.take(entries.len() as int) =~= above);
    all
}

impl BuildSystem {
    #[verifier::type_invariant]
    spec fn well_formed(self) -> bool {
        self@.wf()
    }

    /// Starts a build with `settings`, for source files with `extension`.
    ///
    /// The build has failed from the start if no source file was named, or if sources are
    /// to be searched and `env` has no manifest directory.
    pub fn build(settings: &BuildSettings, env: &Environment, extension: &str) -> (system:
        BuildSystem)
        ensures
            system@ == BuildSystemView::start(settings@, env@, extension@),
            system@.wf(),
    {
        let phase = match settings.source_strategy() {
            SourceFileStrategy::SourceFiles(paths) => sources_known(clone_paths(paths)),
            SourceFileStrategy::SearchFromManifest(manifest_path) => {
                match &env.manifest_dir {
                    Some(manifest_dir) => {
                        let pending: Vec<PendingEntry> = Vec::new();
                        let found: Vec<BuildPath> = Vec::new();
                        assert(pending.deep_view() =~= Seq::empty());
                        assert(found.deep_view() =~= Seq::empty());
                        Phase::Scanning { reading: manifest_dir.join(manifest_path), pending, found }
                    },
                    None => Phase::Failed {
                        error: BuildError::Configuration(ConfigurationError::ManifestDirNotSet),
                    },
                }
            },
        };
        BuildSystem {
            intermediate_path: settings.intermediate_path().clone(),
            product_path: settings.product_path().clone(),
            configuration: settings.configuration(),
            product_name: settings.product_name().clone(),
            extension: extension.to_owned(),
            phase,
        }
    }

    /// Starts a build with no special settings: everything comes from `env`, and the product
    /// goes to `exe_path`, seen from the directory three levels above the output directory.
    ///
    /// Fails exactly if `env` lacks a value that the settings need.
    pub fn build_rs(exe_path: BuildPath, env: &Environment, extension: &str) -> (started: Result<
        BuildSystem,
        ConfigurationError,
    >)
        ensures
            match (BuildSettingsBuilderView {
                product_path: Some(PathTypeView::EXERelative(exe_path@)),
                ..BuildSettingsBuilderView::unset()
            }).finish(env@) {
                Ok(settings) => started matches Ok(system) && system@ == BuildSystemView::start(
                    settings,
                    env@,
                    extension@,
                ) && system@.wf(),
                Err(error) => started matches Err(reported) && reported == error,
            },
    {
        let mut builder = BuildSettingsBuilder::new();
        builder.product_path(PathType::EXERelative(exe_path));
        match builder.finish(env) {
            Ok(settings) => Ok(Self::build(&settings, env, extension)),
            Err(error) => Err(error),
        }
    }

    /// Whether the build is done or has failed: whether nothing is left to do.
    pub fn is_over(&self) -> (over: bool)
        ensures
            over == (self@.phase is Finished || self@.phase is Failed),
    {
        match &self.phase {
            Phase::Finished { .. } => true,
            Phase::Failed { .. } => true,
            _ => false,
        }
    }

    /// What has to be done next.
    pub fn request(&self) -> (request: BuildRequest)
        ensures
            request@ == self@.request(),
    {
        proof {
            use_type_invariant(self);
        }
        match &self.phase {
            Phase::Scanning { reading, .. } => BuildRequest::ReadDirectory(reading.clone()),
            Phase::Preparing { .. } => BuildRequest::CreateDirectory(
                self.intermediate_path.clone(),
            ),
            Phase::Compiling { sources, object_files } => {
                assert(sources.deep_view()[object_files.len() as int]
                    == sources[object_files.len() as int]@);
                BuildRequest::Compile {
                    source: sources[object_files.len()].clone(),
                    intermediate_dir: self.intermediate_path.clone(),
                    configuration: self.configuration,
                    dependency_path: self.intermediate_path.child("dependency"),
                }
            },
            Phase::ReadingDependencies { .. } => BuildRequest::ReadDependencyFile(
                self.intermediate_path.child("dependency"),
            ),
            Phase::Announcing { lines, .. } => {
                let copy = lines.clone();
                assert(copy.deep_view() =~= lines.deep_view());
                BuildRequest::EmitRerunIfChanged(copy)
            },
            Phase::Linking { object_files, .. } => BuildRequest::Link {
                object_files: clone_paths(object_files),
                out_dir: self.product_path.clone(),
                lib_name: self.product_name.clone(),
                configuration: self.configuration,
            },
            Phase::Finished { product } => BuildRequest::Finished(product.clone()),
            Phase::Failed { error } => BuildRequest::Failed(error.clone()),
        }
    }

    /// Takes in what came of the last request, and moves on.
    pub fn step(self, event: BuildEvent) -> (next: BuildSystem)
        ensures
            next@ == self@.next(event@),
            next@.wf(),
    {
        proof {
            use_type_invariant(&self);
        }
        let BuildSystem {
            intermediate_path,
            product_path,
            configuration,
            product_name,
            extension,
            phase,
        } = self;
        let phase = match phase {
            Phase::Scanning { reading, pending, found } => match event {
                BuildEvent::DirectoryListing(entries) => {
                    let pending = list(&reading, &entries, pending);
                    look_at_pending(&extension, pending, found)
                },
                BuildEvent::DirectoryUnreadable => Phase::Failed {
                    error: BuildError::Discovery(reading),
                },
                _ => Phase::Failed { error: BuildError::UnexpectedEvent },
            },
            Phase::Preparing { sources } => match event {
                BuildEvent::DirectoryCreated => {
                    let object_files: Vec<BuildPath> = Vec::new();
                    assert(object_files.deep_view() =~= Seq::empty());
                    Phase::Compiling { sources, object_files }
                },
                _ => Phase::Failed { error: BuildError::UnexpectedEvent },
            },
            Phase::Compiling { sources, object_files } => match event {
                BuildEvent::Compiled(object_file) => {
                    let ghost before = object_files.deep_view();
                    let mut object_files = object_files;
                    object_files.push(object_file);
                    assert(object_files.deep_view() =~= before.push(object_file@));
                    assert(sources.deep_view().len() == sources.len());
                    if object_files.len() == sources.len() {
                        Phase::ReadingDependencies { sources, object_files }
                    } else {
                        Phase::Compiling { sources, object_files }
                    }
                },
                BuildEvent::ToolFailed(failure) => Phase::Failed {
                    error: BuildError::ExternalTool(failure),
                },
                _ => Phase::Failed { error: BuildError::UnexpectedEvent },
            },
            Phase::ReadingDependencies { sources, object_files } => match event {
                BuildEvent::DependencyFile(text) => match tell_cargo_about_dependencies(
                    text.as_str(),
                ) {
                    Ok(lines) => Phase::Announcing { sources, object_files, lines },
                    Err(_) => Phase::Failed { error: BuildError::ParseInvariantViolation },
                },
                _ => Phase::Failed { error: BuildError::UnexpectedEvent },
            },
            Phase::Announcing { sources, object_files, lines } => match event {
                BuildEvent::RerunIfChangedEmitted => Phase::Linking { sources, object_files },
                _ => Phase::Failed { error: BuildError::UnexpectedEvent },
            },
            Phase::Linking { sources, object_files } => match event {
                BuildEvent::Linked(product) => Phase::Finished { product },
                BuildEvent::ToolFailed(failure) => Phase::Failed {
                    error: BuildError::ExternalTool(failure),
                },
                _ => Phase::Failed { error: BuildError::UnexpectedEvent },
            },
            Phase::Finished { product } => Phase::Finished { product },
            Phase::Failed { error } => Phase::Failed { error },
        };
        proof {
            lemma_next_wf(self@, event@);
        }
        BuildSystem { intermediate_path, product_path, configuration, product_name, extension, phase }
    }
}

/// The call of the compiler `C` or the linker `L` that `request` asks for.
pub open spec fn tool_command_spec<C: CompileStep, L: LinkStep>(request: BuildRequestView) -> Option<
    ToolCommandView,
> {
    match request {
        BuildRequestView::Compile { source, intermediate_dir, configuration, dependency_path } => {
            if source.components.len() > 0 {
                Some(C::compile_command(source, intermediate_dir, configuration, dependency_path))
            } else {
                None
            }
        },
        BuildRequestView::Link { object_files, out_dir, lib_name, configuration } => Some(
            L::link_command(object_files, out_dir, lib_name, configuration),
        ),
        _ => None,
    }
}

/// The call of the compiler `C` or the linker `L` that `request` asks for.
///
/// There is none if `request` asks for something else, or for the compiling of a path
/// without a name.
pub fn tool_command<C: CompileStep, L: LinkStep>(request: &BuildRequest) -> (command: Option<
    ToolCommand,
>)
    ensures
        command.deep_view() == tool_command_spec::<C, L>(request@),
{
    match request {
        BuildRequest::Compile { source, intermediate_dir, configuration, dependency_path } => {
            if source.components.len() > 0 {
                Some(C::compile_one(source, intermediate_dir, configuration, dependency_path))
            } else {
                None
            }
        },
        BuildRequest::Link { object_files, out_dir, lib_name, configuration } => Some(
            L::link_all(object_files.as_slice(), out_dir, lib_name.as_str(), configuration),
        ),
        _ => None,
    }
}

/// Looking at pending entries never ends in a phase that breaks what holds of every build.
proof fn lemma_discover_wf(
    system: BuildSystemView,
    pending: Seq<PendingEntryView>,
    found: Seq<PathView>,
)
    ensures
        (BuildSystemView { phase: discover(system.extension, pending, found), ..system }).wf(),
    decreases pending.len(),
{
    if pending.len() > 0 {
        let entry = pending.last();
        match entry.kind {
            EntryKind::Directory => {},
            EntryKind::File => {
                lemma_discover_wf(
                    system,
                    pending.drop_last(),
                    if entry.path.extension() == Some(system.extension) {
                        found.push(entry.path)
                    } else {
                        found
                    },
                );
            },
            EntryKind::Other => {
                lemma_discover_wf(system, pending.drop_last(), found);
            },
        }
    }
}

/// What holds of every build holds after each event.
pub proof fn lemma_next_wf(system: BuildSystemView, event: BuildEventView)
    requires
        system.wf(),
    ensures
        system.next(event).wf(),
{
    match system.phase {
        PhaseView::Scanning { reading, pending, found } => {
            match event {
                BuildEventView::DirectoryListing(entries) => {
                    lemma_discover_wf(system, pending + listed(reading, entries), found);
                },
                _ => {},
            }
        },
        _ => {},
    }
}

} // verus!
