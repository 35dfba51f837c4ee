//! What holds of every build, whatever its caller tells it.
use crate::build_system::{
    discover, discovered, lemma_next_wf, listed, BuildErrorView, BuildEventView,
    BuildRequestView, BuildSystemView, DirectoryEntryView, EntryKind, PendingEntryView,
    PhaseView,
};
use crate::buildkit::{
    BuildSettingsView, ConfigurationError, EnvironmentView, SourceFileStrategyView,
};
use crate::dependency_parser::{parse_spec, rerun_directives_spec};
use crate::path::PathView;
use vstd::prelude::*;

verus! {

/// The events of compiler runs that wrote `object_files`, one after the other.
pub open spec fn compiled(object_files: Seq<PathView>) -> Seq<BuildEventView> {
    Seq::new(object_files.len(), |i: int| BuildEventView::Compiled(object_files[i]))
}

/// What holds of every build holds after any number of events.
pub proof fn lemma_run_wf(system: BuildSystemView, events: Seq<BuildEventView>)
    requires
        system.wf(),
    ensures
        system.run(events).wf(),
    decreases events.len(),
{
    if events.len() > 0 {
        lemma_run_wf(system, events.drop_last());
        lemma_next_wf(system.run(events.drop_last()), events.last());
    }
}

/// A build that is done or has failed stays as it is, whatever it is told.
pub proof fn lemma_over_is_over(system: BuildSystemView, events: Seq<BuildEventView>)
    requires
        system.phase is Finished || system.phase is Failed,
    ensures
        system.run(events) == system,
    decreases events.len(),
{
    if events.len() > 0 {
        lemma_over_is_over(system, events.drop_last());
    }
}

/// A build without a source file has failed with `NothingToCompile`, and whatever it is told
/// it asks for nothing else: no compiler and no linker is ever run.
pub proof fn lemma_nothing_to_compile(system: BuildSystemView, events: Seq<BuildEventView>)
    requires
        system.phase == discovered(Seq::empty()),
    ensures
        system.run(events).request() == BuildRequestView::Failed(
            BuildErrorView::Configuration(ConfigurationError::NothingToCompile),
        ),
{
    lemma_over_is_over(system, events);
}

/// A build never asks for a link without object files, nor with another number of object
/// files than it has sources.
pub proof fn lemma_link_has_all_objects(
    settings: BuildSettingsView,
    env: EnvironmentView,
    extension: Seq<char>,
    events: Seq<BuildEventView>,
)
    ensures
        ({
            let system = BuildSystemView::start(settings, env, extension).run(events);
            system.request() matches BuildRequestView::Link { object_files, .. }
                ==> system.phase matches PhaseView::Linking { sources, object_files: linked }
                && linked == object_files && 0 < sources.len() == object_files.len()
        }),
{
    lemma_run_wf(BuildSystemView::start(settings, env, extension), events);
}

/// Source files that were named are the sources of the build: all of them, in their order,
/// whatever the environment holds.
pub proof fn lemma_named_sources(
    settings: BuildSettingsView,
    env: EnvironmentView,
    extension: Seq<char>,
    paths: Seq<PathView>,
)
    requires
        settings.source_strategy == SourceFileStrategyView::SourceFiles(paths),
        paths.len() > 0,
    ensures
        BuildSystemView::start(settings, env, extension).phase == (PhaseView::Preparing {
            sources: paths,
        }),
{
}

/// Once the sources of a build are known no directory is read: a build that is not searching
/// does not start to search.
pub proof fn lemma_no_search_after_discovery(system: BuildSystemView, events: Seq<BuildEventView>)
    requires
        !(system.phase is Scanning),
    ensures
        !(system.run(events).phase is Scanning),
        !(system.run(events).request() is ReadDirectory),
    decreases events.len(),
{
    if events.len() > 0 {
        lemma_no_search_after_discovery(system, events.drop_last());
    }
}

/// While the compiler runs without an error, the build asks for one source after the other.
proof fn lemma_compiling(
    system: BuildSystemView,
    sources: Seq<PathView>,
    object_files: Seq<PathView>,
)
    requires
        system.phase == (PhaseView::Compiling { sources, object_files: Seq::empty() }),
        object_files.len() <= sources.len(),
        0 < sources.len(),
    ensures
        system.run(compiled(object_files)) == (BuildSystemView {
            phase: if object_files.len() < sources.len() {
                PhaseView::Compiling { sources, object_files }
            } else {
                PhaseView::ReadingDependencies { sources, object_files }
            },
            ..system
        }),
    decreases object_files.len(),
{
    if object_files.len() == 0 {
        assert(object_files =~= Seq::empty());
    } else {
        let before = object_files.drop_last();
        lemma_compiling(system, sources, before);
        assert(compiled(object_files).drop_last() =~= compiled(before));
        assert(compiled(object_files).last() == BuildEventView::Compiled(object_files.last()));
        assert(before.push(object_files.last()) =~= object_files);
    }
}

/// A build with n sources asks for n compiler runs, one for each source in the order of the
/// sources, then for the dependency file, and then for one link, of the n object files in
/// the order of their sources.
///
/// This is the course of a build in which no tool fails and the dependency file can be read.
pub proof fn lemma_compile_each_then_link(
    system: BuildSystemView,
    sources: Seq<PathView>,
    object_files: Seq<PathView>,
    dependencies: Seq<char>,
    product: PathView,
)
    requires
        system.phase == (PhaseView::Preparing { sources }),
        0 < sources.len() == object_files.len(),
        parse_spec(dependencies) is Ok,
    ensures
        ({
            let compiling = system.next(BuildEventView::DirectoryCreated);
            let all_compiled = compiling.run(compiled(object_files));
            let announcing = all_compiled.next(BuildEventView::DependencyFile(dependencies));
            let linking = announcing.next(BuildEventView::RerunIfChangedEmitted);
            let finished = linking.next(BuildEventView::Linked(product));
            &&& system.request() == BuildRequestView::CreateDirectory(system.intermediate_path)
            &&& forall|k: int|
                0 <= k < sources.len() ==> compiling.run(
                    compiled(#[trigger] object_files.take(k)),
                ).request() == (BuildRequestView::Compile {
                    source: sources[k],
                    intermediate_dir: system.intermediate_path,
                    configuration: system.configuration,
                    dependency_path: system.dependency_path(),
                })
            &&& all_compiled.request() == BuildRequestView::ReadDependencyFile(
                system.dependency_path(),
            )
            &&& announcing.request() == BuildRequestView::EmitRerunIfChanged(
                rerun_directives_spec(parse_spec(dependencies)->Ok_0),
            )
            &&& linking.request() == (BuildRequestView::Link {
                object_files,
                out_dir: system.product_path,
                lib_name: system.product_name,
                configuration: system.configuration,
            })
            &&& finished.request() == BuildRequestView::Finished(product)
        }),
{
    let compiling = system.next(BuildEventView::DirectoryCreated);
    assert forall|k: int| 0 <= k < sources.len() implies compiling.run(
        compiled(#[trigger] object_files.take(k)),
    ).request() == (BuildRequestView::Compile {
        source: sources[k],
        intermediate_dir: system.intermediate_path,
        configuration: system.configuration,
        dependency_path: system.dependency_path(),
    }) by {
        lemma_compiling(compiling, sources, object_files.take(k));
    }
    lemma_compiling(compiling, sources, object_files);
}

/// What a build is told from the point where its sources are known to the point where it
/// asks for the link: that the directory for intermediates exists, of one object file after
/// the other, what the dependency file holds, and that the host build system has heard of it.
pub open spec fn course_to_link(object_files: Seq<PathView>, dependencies: Seq<char>) -> Seq<
    BuildEventView,
> {
    seq![BuildEventView::DirectoryCreated] + compiled(object_files) + seq![
        BuildEventView::DependencyFile(dependencies),
        BuildEventView::RerunIfChangedEmitted,
    ]
}

/// Whether `events` are the beginning of such a course that leads to `phase`.
spec fn on_course(sources: Seq<PathView>, events: Seq<BuildEventView>, phase: PhaseView) -> bool {
    let n = sources.len() as int;
    let created = seq![BuildEventView::DirectoryCreated];
    match phase {
        PhaseView::Scanning { .. } => false,
        PhaseView::Preparing { sources: known } => known == sources && events.len() == 0,
        PhaseView::Compiling { sources: known, object_files } => known == sources && events
            == created + compiled(object_files),
        PhaseView::ReadingDependencies { sources: known, object_files } => known == sources
            && events == created + compiled(object_files),
        PhaseView::Announcing { sources: known, object_files, lines } => known == sources
            && events.len() == n + 2 && events[n + 1] is DependencyFile && events == created
            + compiled(object_files) + seq![events[n + 1]],
        PhaseView::Linking { sources: known, object_files } => known == sources && events.len()
            == n + 3 && events[n + 1] is DependencyFile && events == course_to_link(
            object_files,
            events[n + 1]->DependencyFile_0,
        ),
        PhaseView::Finished { .. } => true,
        PhaseView::Failed { .. } => true,
    }
}

/// A build whose sources are known stays on its course, or is over.
proof fn lemma_on_course(
    system: BuildSystemView,
    sources: Seq<PathView>,
    events: Seq<BuildEventView>,
)
    requires
        system.phase == (PhaseView::Preparing { sources }),
        0 < sources.len(),
    ensures
        on_course(sources, events, system.run(events).phase),
        system.run(events).wf(),
    decreases events.len(),
{
    lemma_run_wf(system, events);
    if events.len() > 0 {
        let earlier = events.drop_last();
        let event = events.last();
        let before = system.run(earlier);
        lemma_on_course(system, sources, earlier);
        assert(events =~= earlier.push(event));
        let created = seq![BuildEventView::DirectoryCreated];
        let n = sources.len() as int;
        match before.phase {
            PhaseView::Preparing { .. } => {
                if event is DirectoryCreated {
                    assert(events =~= created + compiled(Seq::<PathView>::empty()));
                }
            },
            PhaseView::Compiling { sources: known, object_files } => {
                if let BuildEventView::Compiled(object_file) = event {
                    assert(events =~= created + compiled(object_files.push(object_file)));
                }
            },
            PhaseView::ReadingDependencies { sources: known, object_files } => {
                if event is DependencyFile {
                    assert(events[n + 1] == event);
                    assert(events =~= created + compiled(object_files) + seq![events[n + 1]]);
                }
            },
            PhaseView::Announcing { sources: known, object_files, lines } => {
                if event is RerunIfChangedEmitted {
                    assert(events[n + 1] == earlier[n + 1]);
                    assert(events =~= course_to_link(
                        object_files,
                        events[n + 1]->DependencyFile_0,
                    ));
                }
            },
            _ => {},
        }
    }
}

/// A build asks for the link only at the end of one course: when it has been told of one
/// object file for each of its sources, and of nothing else in between. So whenever the
/// linker is run, the compiler has run exactly once for each source before, and the linker
/// has not.
pub proof fn lemma_link_only_after_all_compiles(
    system: BuildSystemView,
    sources: Seq<PathView>,
    events: Seq<BuildEventView>,
)
    requires
        system.phase == (PhaseView::Preparing { sources }),
        0 < sources.len(),
        system.run(events).request() is Link,
    ensures
        ({
            let object_files = system.run(events).request()->object_files;
            let told = events[sources.len() as int + 1];
            &&& object_files.len() == sources.len()
            &&& events.len() == sources.len() + 3
            &&& told is DependencyFile
            &&& events == course_to_link(object_files, told->DependencyFile_0)
        }),
{
    lemma_on_course(system, sources, events);
}

/// What a directory holds by a name: a regular file, a directory with what it holds in the
/// order in which the file system lists it, or something else.
pub ghost enum Tree {
    File { name: Seq<char> },
    Directory { name: Seq<char>, entries: Seq<Tree> },
    Other { name: Seq<char> },
}

impl Tree {
    /// The name under which the directory above holds this.
    pub open spec fn name(self) -> Seq<char> {
        match self {
            Tree::File { name } => name,
            Tree::Directory { name, .. } => name,
            Tree::Other { name } => name,
        }
    }

    /// What the caller sees this as.
    pub open spec fn kind(self) -> EntryKind {
        match self {
            Tree::File { .. } => EntryKind::File,
            Tree::Directory { .. } => EntryKind::Directory,
            Tree::Other { .. } => EntryKind::Other,
        }
    }
}

/// What the caller reports of a directory that holds `entries`.
pub open spec fn listing(entries: Seq<Tree>) -> Seq<DirectoryEntryView> {
    Seq::new(
        entries.len(),
        |i: int| DirectoryEntryView { name: entries[i].name(), kind: entries[i].kind() },
    )
}

/// The source files in and below `directory`, which holds `entries`: the regular files whose
/// extension is exactly `extension`, in the order of a walk that takes the entries as they
/// are listed and goes into each directory where it meets it.
pub open spec fn sources_below(directory: PathView, entries: Seq<Tree>, extension: Seq<char>) -> Seq<
    PathView,
>
    decreases entries,
{
    if entries.len() == 0 {
        Seq::empty()
    } else {
        let path = directory.child(entries[0].name());
        let first = match entries[0] {
            Tree::File { .. } => if path.extension() == Some(extension) {
                seq![path]
            } else {
                Seq::empty()
            },
            Tree::Directory { entries: inner, .. } => sources_below(path, inner, extension),
            Tree::Other { .. } => Seq::empty(),
        };
        first + sources_below(directory, entries.drop_first(), extension)
    }
}

/// What the caller reports while the directories below `directory` are read, each when the
/// walk meets it.
pub open spec fn listings_below(directory: PathView, entries: Seq<Tree>) -> Seq<BuildEventView>
    decreases entries,
{
    if entries.len() == 0 {
        Seq::empty()
    } else {
        let path = directory.child(entries[0].name());
        let first = match entries[0] {
            Tree::Directory { entries: inner, .. } => seq![
                BuildEventView::DirectoryListing(listing(inner)),
            ] + listings_below(path, inner),
            _ => Seq::empty(),
        };
        first + listings_below(directory, entries.drop_first())
    }
}

/// Telling a build of one event is taking one step.
pub proof fn lemma_run_one(system: BuildSystemView, event: BuildEventView)
    ensures
        system.run(seq![event]) == system.next(event),
{
    let events = seq![event];
    assert(events.drop_last() =~= Seq::empty());
    assert(system.run(events.drop_last()) == system);
    assert(events.last() == event);
}

/// Telling a build of some events and then of others is telling it of all of them.
pub proof fn lemma_run_concat(
    system: BuildSystemView,
    first: Seq<BuildEventView>,
    then: Seq<BuildEventView>,
)
    ensures
        system.run(first + then) == system.run(first).run(then),
    decreases then.len(),
{
    if then.len() == 0 {
        assert(first + then =~= first);
    } else {
        lemma_run_concat(system, first, then.drop_last());
        assert((first + then).drop_last() =~= first + then.drop_last());
        assert((first + then).last() == then.last());
    }
}

/// A build that has `entries` of `directory` on top of its pending entries, and is told
/// what the directories below hold, has found the sources below `directory` when it comes
/// to the pending entries that were there before.
proof fn lemma_walk(
    system: BuildSystemView,
    directory: PathView,
    entries: Seq<Tree>,
    pending: Seq<PendingEntryView>,
    found: Seq<PathView>,
)
    ensures
        (BuildSystemView {
            phase: discover(
                system.extension,
                pending + listed(directory, listing(entries)),
                found,
            ),
            ..system
        }).run(listings_below(directory, entries)).phase == discover(
            system.extension,
            pending,
            found + sources_below(directory, entries, system.extension),
        ),
    decreases entries,
{
    let extension = system.extension;
    if entries.len() == 0 {
        assert(pending + listed(directory, listing(entries)) =~= pending);
        assert(found + sources_below(directory, entries, extension) =~= found);
    } else {
        let rest = entries.drop_first();
        let path = directory.child(entries[0].name());
        let top = PendingEntryView { path, kind: entries[0].kind() };
        let below = pending + listed(directory, listing(rest));
        let all = pending + listed(directory, listing(entries));
        assert(all.last() == top);
        assert(all.drop_last() =~= below);
        let start = BuildSystemView { phase: discover(extension, all, found), ..system };
        match entries[0] {
            Tree::File { .. } => {
                let sources = if path.extension() == Some(extension) {
                    found.push(path)
                } else {
                    found
                };
                assert(discover(extension, all, found) == discover(extension, below, sources));
                lemma_walk(system, directory, rest, pending, sources);
                assert(listings_below(directory, entries) =~= listings_below(directory, rest));
                assert(sources + sources_below(directory, rest, extension) =~= found
                    + sources_below(directory, entries, extension));
            },
            Tree::Other { .. } => {
                assert(discover(extension, all, found) == discover(extension, below, found));
                lemma_walk(system, directory, rest, pending, found);
                assert(listings_below(directory, entries) =~= listings_below(directory, rest));
                assert(found + sources_below(directory, rest, extension) =~= found
                    + sources_below(directory, entries, extension));
            },
            Tree::Directory { entries: inner, .. } => {
                assert(discover(extension, all, found) == (PhaseView::Scanning {
                    reading: path,
                    pending: below,
                    found,
                }));
                let answer = seq![BuildEventView::DirectoryListing(listing(inner))];
                let inside = listings_below(path, inner);
                let after = listings_below(directory, rest);
                assert(listings_below(directory, entries) =~= (answer + inside) + after);
                lemma_run_concat(start, answer + inside, after);
                lemma_run_concat(start, answer, inside);
                lemma_run_one(start, answer[0]);
                let read = BuildSystemView {
                    phase: discover(extension, below + listed(path, listing(inner)), found),
                    ..system
                };
                assert(start.run(answer) == read);
                lemma_walk(system, path, inner, below, found);
                let sources = found + sources_below(path, inner, extension);
                let back = BuildSystemView {
                    phase: discover(extension, below, sources),
                    ..system
                };
                assert(read.run(inside) == back) by {
                    lemma_run_keeps_settings(read, inside);
                }
                lemma_walk(system, directory, rest, pending, sources);
                assert(sources + sources_below(directory, rest, extension) =~= found
                    + sources_below(directory, entries, extension));
            },
        }
    }
}

/// Events change where a build stands and nothing else.
pub proof fn lemma_run_keeps_settings(system: BuildSystemView, events: Seq<BuildEventView>)
    ensures
        system.run(events) == (BuildSystemView { phase: system.run(events).phase, ..system }),
    decreases events.len(),
{
    if events.len() > 0 {
        lemma_run_keeps_settings(system, events.drop_last());
    }
}

/// A search finds the regular files below the directory where it starts whose extension is
/// exactly the one that is sought, each once, in the order of a walk that goes into each
/// directory where it meets it.
///
/// This is the search in which every directory can be read: the build is told what the
/// directory holds where it starts, and then what each directory below holds, as it asks.
pub proof fn lemma_search_finds_sources(
    system: BuildSystemView,
    directory: PathView,
    entries: Seq<Tree>,
)
    requires
        system.phase == (PhaseView::Scanning {
            reading: directory,
            pending: Seq::empty(),
            found: Seq::empty(),
        }),
    ensures
        system.run(
            seq![BuildEventView::DirectoryListing(listing(entries))] + listings_below(
                directory,
                entries,
            ),
        ).phase == discovered(sources_below(directory, entries, system.extension)),
{
    let answer = seq![BuildEventView::DirectoryListing(listing(entries))];
    let below = listings_below(directory, entries);
    let none = Seq::<PendingEntryView>::empty();
    let nothing = Seq::<PathView>::empty();
    lemma_run_concat(system, answer, below);
    lemma_run_one(system, answer[0]);
    lemma_walk(system, directory, entries, none, nothing);
    assert(nothing + sources_below(directory, entries, system.extension) =~= sources_below(
        directory,
        entries,
        system.extension,
    ));
}

} // verus!
