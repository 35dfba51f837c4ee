//! The settings of a build: what to compile, where intermediates and products go, and how a
//! partly filled builder is completed from the values that the host build system provides.
use crate::command::{ToolCommand, ToolCommandView};
use crate::path::{BuildPath, PathView};
use vstd::prelude::*;
use vstd::string::StringExecFns;

verus! {

/// Whether a build keeps debug information or is optimised.
#[derive(Clone, Copy, Debug, PartialEq, Eq, Structural)]
pub enum Configuration {
    Debug,
    Release,
}

/// A compiler: how it is called for one source file.
pub trait CompileStep {
    ///The extension to scan for.
    const SOURCE_FILE_EXTENSION: &'static str;

    /// The call that `compile_one` gives.
    spec fn compile_command(
        path: PathView,
        intermediate_dir: PathView,
        configuration: Configuration,
        dependency_path: PathView,
    ) -> ToolCommandView;

    /// The call that compiles one file, placing the output in the intermediate dir and the
    /// names of the files that the source depends on in the file at `dependency_path`.
    ///
    /// `path` has to name a file: it has at least one component. The command's output is the
    /// compiled object file; it should be located in the intermediate dir.
    fn compile_one(
        path: &BuildPath,
        intermediate_dir: &BuildPath,
        configuration: &Configuration,
        dependency_path: &BuildPath,
    ) -> (command: ToolCommand)
        requires
            path@.components.len() > 0,
        ensures
            command@ == Self::compile_command(
                path@,
                intermediate_dir@,
                *configuration,
                dependency_path@,
            ),
    ;
}

/// A linker: how it is called for all object files of a build.
pub trait LinkStep {
    /// The call that `link_all` gives.
    spec fn link_command(
        object_files: Seq<PathView>,
        out_dir: PathView,
        lib_name: Seq<char>,
        configuration: Configuration,
    ) -> ToolCommandView;

    /// The call that links the object files, in their order, into the product `lib_name` in
    /// `out_dir`. The command's output is the product.
    fn link_all(
        object_files: &[BuildPath],
        out_dir: &BuildPath,
        lib_name: &str,
        configuration: &Configuration,
    ) -> (command: ToolCommand)
        ensures
            command@ == Self::link_command(
                object_files.deep_view(),
                out_dir@,
                lib_name@,
                *configuration,
            ),
    ;
}

/// Why settings could not be completed, or a build could not start.
#[derive(Clone, Copy, Debug, PartialEq, Eq, Structural)]
pub enum ConfigurationError {
    /// The output directory was needed and the environment does not provide it.
    OutDirNotSet,
    /// No configuration was chosen and the environment does not provide the debug flag.
    DebugNotSet,
    /// The environment does not provide the package name.
    PackageNameNotSet,
    /// Sources are to be searched and the environment does not provide the manifest directory.
    ManifestDirNotSet,
    /// There is no source file to compile.
    NothingToCompile,
}

/// The values that the host build system provides to a build script. `None` stands for a
/// variable that is not set.
#[derive(Debug, PartialEq, Eq)]
pub struct Environment {
    /// `OUT_DIR`: the directory for this build script's output.
    pub out_dir: Option<BuildPath>,
    /// `DEBUG`: `1` for a debug build.
    pub debug: Option<String>,
    /// `CARGO_PKG_NAME`: the name of the package that is built.
    pub package_name: Option<String>,
    /// `CARGO_MANIFEST_DIR`: the directory of the package's manifest.
    pub manifest_dir: Option<BuildPath>,
}

/// What an [`Environment`] holds, as contracts speak of it.
pub ghost struct EnvironmentView {
    pub out_dir: Option<PathView>,
    pub debug: Option<Seq<char>>,
    pub package_name: Option<Seq<char>>,
    pub manifest_dir: Option<PathView>,
}

impl View for Environment {
    type V = EnvironmentView;

    open spec fn view(&self) -> EnvironmentView {
        EnvironmentView {
            out_dir: self.out_dir.deep_view(),
            debug: self.debug.deep_view(),
            package_name: self.package_name.deep_view(),
            manifest_dir: self.manifest_dir.deep_view(),
        }
    }
}

impl EnvironmentView {
    /// The configuration that the debug flag stands for.
    pub open spec fn configuration(self) -> Option<Configuration> {
        match self.debug {
            Some(flag) => Some(
                if flag == "1"@ {
                    Configuration::Debug
                } else {
                    Configuration::Release
                },
            ),
            None => None,
        }
    }
}

/// How to find sourcefiles for compiling
#[derive(Debug, PartialEq, Eq)]
pub enum SourceFileStrategy {
    /// Use exactly the sourcefiles specified.
    SourceFiles(Vec<BuildPath>),
    /// Search recursively in this path, starting from the manifest directory, e.g. `src`.
    ///
    /// An absolute path is searched as it is.
    SearchFromManifest(BuildPath),
}

/// What a [`SourceFileStrategy`] holds, as contracts speak of it.
pub ghost enum SourceFileStrategyView {
    SourceFiles(Seq<PathView>),
    SearchFromManifest(PathView),
}

impl View for SourceFileStrategy {
    type V = SourceFileStrategyView;

    open spec fn view(&self) -> SourceFileStrategyView {
        match self {
            SourceFileStrategy::SourceFiles(paths) => SourceFileStrategyView::SourceFiles(
                paths.deep_view(),
            ),
            SourceFileStrategy::SearchFromManifest(path) => {
                SourceFileStrategyView::SearchFromManifest(path@)
            },
        }
    }
}

impl DeepView for SourceFileStrategy {
    type V = SourceFileStrategyView;

    open spec fn deep_view(&self) -> SourceFileStrategyView {
        self@
    }
}

impl SourceFileStrategyView {
    /// Where sources are searched when nothing else was asked for: in `src`, below the
    /// manifest directory.
    pub open spec fn conventional() -> SourceFileStrategyView {
        SourceFileStrategyView::SearchFromManifest(
            PathView { absolute: false, components: seq!["src"@] },
        )
    }
}

/// A copy of `paths`.
pub(crate) fn clone_paths(paths: &Vec<BuildPath>) -> (copy: Vec<BuildPath>)
    ensures
        copy.deep_view() == paths.deep_view(),
{
    let mut copy: Vec<BuildPath> = Vec::new();
    let mut i: usize = 0;
    while i < paths.len()
        invariant
            i <= paths.len(),
            copy.len() == i,
            forall|j: int| 0 <= j < i ==> copy[j]@ == paths[j]@,
        decreases paths.len() - i,
    {
        copy.push(paths[i].clone());
        i = i + 1;
    }
    assert(copy.deep_view() =~= paths.deep_view());
    copy
}

impl Clone for SourceFileStrategy {
    fn clone(&self) -> (copy: Self)
        ensures
            copy@ == self@,
    {
        match self {
            SourceFileStrategy::SourceFiles(paths) => SourceFileStrategy::SourceFiles(
                clone_paths(paths),
            ),
            SourceFileStrategy::SearchFromManifest(path) => SourceFileStrategy::SearchFromManifest(
                path.clone(),
            ),
        }
    }
}

/// Where a product goes.
#[non_exhaustive]
#[derive(Debug, PartialEq, Eq)]
pub enum PathType {
    /// Path will take on some path relative to exe in target directory as part of a build process
    EXERelative(BuildPath),
    ///Path will be as specified
    Exact(BuildPath),
}

/// What a [`PathType`] holds, as contracts speak of it.
pub ghost enum PathTypeView {
    EXERelative(PathView),
    Exact(PathView),
}

impl View for PathType {
    type V = PathTypeView;

    open spec fn view(&self) -> PathTypeView {
        match self {
            PathType::EXERelative(relative) => PathTypeView::EXERelative(relative@),
            PathType::Exact(exact) => PathTypeView::Exact(exact@),
        }
    }
}

impl DeepView for PathType {
    type V = PathTypeView;

    open spec fn deep_view(&self) -> PathTypeView {
        self@
    }
}

impl Clone for PathType {
    fn clone(&self) -> (copy: Self)
        ensures
            copy@ == self@,
    {
        match self {
            PathType::EXERelative(relative) => PathType::EXERelative(relative.clone()),
            PathType::Exact(exact) => PathType::Exact(exact.clone()),
        }
    }
}

impl PathTypeView {
    /// The path that this stands for.
    ///
    /// An exact path stands for itself. A path relative to the executable is taken from the
    /// directory three levels above the output directory: above the output directory itself,
    /// the directory of the build script's run, and the directory that holds all such runs.
    /// That directory stays the same from one build to the next.
    pub open spec fn path(self, env: EnvironmentView) -> Result<PathView, ConfigurationError> {
        match self {
            PathTypeView::Exact(exact) => Ok(exact),
            PathTypeView::EXERelative(relative) => match env.out_dir {
                Some(out_dir) => Ok(out_dir.ancestor(3).join(relative)),
                None => Err(ConfigurationError::OutDirNotSet),
            },
        }
    }
}

impl PathType {
    /// The path that `self` stands for in `env`. Fails with `OutDirNotSet` exactly if the
    /// path is relative to the executable and `env` has no output directory.
    pub fn path(&self, env: &Environment) -> (resolved: Result<BuildPath, ConfigurationError>)
        ensures
            match resolved {
                Ok(path) => self@.path(env@) == Ok::<PathView, ConfigurationError>(path@),
                Err(error) => self@.path(env@) == Err::<PathView, ConfigurationError>(error),
            },
    {
        match self {
            PathType::EXERelative(relative) => {
                match &env.out_dir {
                    None => Err(ConfigurationError::OutDirNotSet),
                    Some(out_dir) => {
                        let mut product_path = out_dir.clone();
                        product_path.pop();
                        product_path.pop();
                        product_path.pop();
                        assert(product_path@.components =~= out_dir@.ancestor(3).components);
                        product_path.push(relative);
                        Ok(product_path)
                    },
                }
            },
            PathType::Exact(exact) => Ok(exact.clone()),
        }
    }
}

/// A path relative to the executable, resolved against an output directory of the form
/// `<root>/build/<id>/out`, is that path below `<root>`.
pub proof fn lemma_exe_relative_path(
    root: PathView,
    build: Seq<char>,
    id: Seq<char>,
    out: Seq<char>,
    relative: PathView,
)
    requires
        !relative.absolute,
    ensures
        PathTypeView::EXERelative(relative).path(
            EnvironmentView {
                out_dir: Some(root.child(build).child(id).child(out)),
                debug: None,
                package_name: None,
                manifest_dir: None,
            },
        ) == Ok::<PathView, ConfigurationError>(root.join(relative)),
{
    let out_dir = root.child(build).child(id).child(out);
    assert(out_dir.ancestor(3).components =~= root.components);
}

/// Everything a build needs to know.
#[derive(Debug, PartialEq, Eq)]
pub struct BuildSettings {
    ///Will scan this path for sourcefiles
    source_strategy: SourceFileStrategy,
    ///Path for output/intermediates
    intermediate_path: BuildPath,
    ///The "final path" for the product
    product_path: BuildPath,
    ///Whether debug/release
    configuration: Configuration,
    ///The product name, e.g. libname or similar
    product_name: String,
}

/// What a [`BuildSettings`] holds, as contracts speak of it.
pub ghost struct BuildSettingsView {
    pub source_strategy: SourceFileStrategyView,
    pub intermediate_path: PathView,
    pub product_path: PathView,
    pub configuration: Configuration,
    pub product_name: Seq<char>,
}

impl View for BuildSettings {
    type V = BuildSettingsView;

    closed spec fn view(&self) -> BuildSettingsView {
        BuildSettingsView {
            source_strategy: self.source_strategy@,
            intermediate_path: self.intermediate_path@,
            product_path: self.product_path@,
            configuration: self.configuration,
            product_name: self.product_name@,
        }
    }
}

impl BuildSettings {
    ///builder-pattern for `BuildSettings`
    pub fn build() -> (builder: BuildSettingsBuilder)
        ensures
            builder@ == BuildSettingsBuilderView::unset(),
    {
        BuildSettingsBuilder::new()
    }

    ///Automatically builds all build settings.
    pub fn auto(env: &Environment) -> (settings: Result<BuildSettings, ConfigurationError>)
        ensures
            match settings {
                Ok(built) => BuildSettingsBuilderView::unset().finish(env@) == Ok::<
                    BuildSettingsView,
                    ConfigurationError,
                >(built@),
                Err(error) => BuildSettingsBuilderView::unset().finish(env@) == Err::<
                    BuildSettingsView,
                    ConfigurationError,
                >(error),
            },
    {
        BuildSettingsBuilder::new().finish(env)
    }

    /// How the sources are found.
    pub fn source_strategy(&self) -> (strategy: &SourceFileStrategy)
        ensures
            strategy@ == self@.source_strategy,
    {
        &self.source_strategy
    }

    /// The directory for intermediates.
    pub fn intermediate_path(&self) -> (path: &BuildPath)
        ensures
            path@ == self@.intermediate_path,
    {
        &self.intermediate_path
    }

    /// The directory for the product.
    pub fn product_path(&self) -> (path: &BuildPath)
        ensures
            path@ == self@.product_path,
    {
        &self.product_path
    }

    /// Whether debug or release.
    pub fn configuration(&self) -> (configuration: Configuration)
        ensures
            configuration == self@.configuration,
    {
        self.configuration
    }

    /// The product's name.
    pub fn product_name(&self) -> (name: &String)
        ensures
            name@ == self@.product_name,
    {
        &self.product_name
    }
}

///Builder pattern for [BuildSettings]
#[derive(Debug, PartialEq, Eq)]
pub struct BuildSettingsBuilder {
    ///Will scan this path for sourcefiles
    source_strategy: Option<SourceFileStrategy>,
    intermediate_path: Option<BuildPath>,
    product_path: Option<PathType>,
    configuration: Option<Configuration>,
}

/// What a [`BuildSettingsBuilder`] holds, as contracts speak of it.
pub ghost struct BuildSettingsBuilderView {
    pub source_strategy: Option<SourceFileStrategyView>,
    pub intermediate_path: Option<PathView>,
    pub product_path: Option<PathTypeView>,
    pub configuration: Option<Configuration>,
}

impl View for BuildSettingsBuilder {
    type V = BuildSettingsBuilderView;

    closed spec fn view(&self) -> BuildSettingsBuilderView {
        BuildSettingsBuilderView {
            source_strategy: self.source_strategy.deep_view(),
            intermediate_path: self.intermediate_path.deep_view(),
            product_path: self.product_path.deep_view(),
            configuration: self.configuration,
        }
    }
}

impl BuildSettingsBuilderView {
    /// The builder in which nothing is set.
    pub open spec fn unset() -> BuildSettingsBuilderView {
        BuildSettingsBuilderView {
            source_strategy: None,
            intermediate_path: None,
            product_path: None,
            configuration: None,
        }
    }

    /// The settings that this builder and `env` give.
    ///
    /// What was set is taken as it is. What was not set comes from `env`: the intermediates
    /// go to the output directory, the product goes three levels above it, the configuration
    /// follows the debug flag, and sources are searched in `src`. The product's name is always
    /// the package's name.
    ///
    /// Of several values that are missing the first in this order is reported: the output
    /// directory, the debug flag, the package name.
    pub open spec fn finish(self, env: EnvironmentView) -> Result<
        BuildSettingsView,
        ConfigurationError,
    > {
        let source_strategy = match self.source_strategy {
            Some(strategy) => strategy,
            None => SourceFileStrategyView::conventional(),
        };
        let intermediate_path = match self.intermediate_path {
            Some(path) => Some(path),
            None => env.out_dir,
        };
        let product_path = match self.product_path {
            Some(path) => path.path(env),
            None => PathTypeView::EXERelative(PathView::empty()).path(env),
        };
        let configuration = match self.configuration {
            Some(configuration) => Some(configuration),
            None => env.configuration(),
        };
        if intermediate_path is None {
            Err(ConfigurationError::OutDirNotSet)
        } else if product_path is Err {
            Err(ConfigurationError::OutDirNotSet)
        } else if configuration is None {
            Err(ConfigurationError::DebugNotSet)
        } else if env.package_name is None {
            Err(ConfigurationError::PackageNameNotSet)
        } else {
            Ok(
                BuildSettingsView {
                    source_strategy,
                    intermediate_path: intermediate_path->0,
                    product_path: product_path->Ok_0,
                    configuration: configuration->0,
                    product_name: env.package_name->0,
                },
            )
        }
    }
}

impl Clone for BuildSettingsBuilder {
    fn clone(&self) -> (copy: Self)
        ensures
            copy@ == self@,
    {
        BuildSettingsBuilder {
            source_strategy: match &self.source_strategy {
                Some(strategy) => Some(strategy.clone()),
                None => None,
            },
            intermediate_path: match &self.intermediate_path {
                Some(path) => Some(path.clone()),
                None => None,
            },
            product_path: match &self.product_path {
                Some(path) => Some(path.clone()),
                None => None,
            },
            configuration: self.configuration,
        }
    }
}

impl BuildSettingsBuilder {
    pub fn new() -> (builder: Self)
        ensures
            builder@ == BuildSettingsBuilderView::unset(),
    {
        BuildSettingsBuilder {
            source_strategy: None,
            configuration: None,
            intermediate_path: None,
            product_path: None,
        }
    }

    pub fn source_strategy(&mut self, strategy: SourceFileStrategy) -> (builder:
        &mut BuildSettingsBuilder)
        ensures
            *final(builder) == *final(self),
            builder@ == (BuildSettingsBuilderView {
                source_strategy: Some(strategy@),
                ..old(self)@
            }),
    {
        self.source_strategy = Some(strategy);
        self
    }

    pub fn configuration(&mut self, configuration: Configuration) -> (builder:
        &mut BuildSettingsBuilder)
        ensures
            *final(builder) == *final(self),
            builder@ == (BuildSettingsBuilderView {
                configuration: Some(configuration),
                ..old(self)@
            }),
    {
        self.configuration = Some(configuration);
        self
    }

    pub fn intermediate_path(&mut self, path: BuildPath) -> (builder: &mut BuildSettingsBuilder)
        ensures
            *final(builder) == *final(self),
            builder@ == (BuildSettingsBuilderView {
                intermediate_path: Some(path@),
                ..old(self)@
            }),
    {
        self.intermediate_path = Some(path);
        self
    }

    ///Specify where products are stored
    pub fn product_path(&mut self, path: PathType) -> (builder: &mut BuildSettingsBuilder)
        ensures
            *final(builder) == *final(self),
            builder@ == (BuildSettingsBuilderView { product_path: Some(path@), ..old(self)@ }),
    {
        self.product_path = Some(path);
        self
    }

    /// Completes the settings from `env`. The builder stays as it is.
    ///
    /// Fails exactly if a value is neither set nor in `env`: with `OutDirNotSet` if the
    /// intermediate path is not set, or the product path is not set or relative to the
    /// executable, and `env` has no output directory; else with `DebugNotSet` if no
    /// configuration is set and `env` has no debug flag; else with `PackageNameNotSet` if
    /// `env` has no package name.
    pub fn finish(&self, env: &Environment) -> (settings: Result<
        BuildSettings,
        ConfigurationError,
    >)
        ensures
            match settings {
                Ok(built) => self@.finish(env@) == Ok::<BuildSettingsView, ConfigurationError>(
                    built@,
                ),
                Err(error) => self@.finish(env@) == Err::<BuildSettingsView, ConfigurationError>(
                    error,
                ),
            },
    {
        let source_strategy = match &self.source_strategy {
            None => {
                let mut components: Vec<String> = Vec::new();
                components.push(String::from_str("src"));
                assert(components.deep_view() =~= seq!["src"@]);
                SourceFileStrategy::SearchFromManifest(BuildPath::new(false, components))
            },
            Some(strategy) => strategy.clone(),
        };

        let intermediate_path = match &self.intermediate_path {
            Some(path) => path.clone(),
            None => {
                match &env.out_dir {
                    Some(out_dir) => out_dir.clone(),
                    None => {
                        return Err(ConfigurationError::OutDirNotSet);
                    },
                }
            },
        };

        let resolved = match &self.product_path {
            Some(path) => path.path(env),
            None => PathType::EXERelative(BuildPath::empty()).path(env),
        };
        let product_path = match resolved {
            Ok(path) => path,
            Err(error) => {
                return Err(error);
            },
        };

        let configuration = match self.configuration {
            Some(config) => config,
            None => {
                match &env.debug {
                    Some(flag) => {
                        let one = String::from_str("1");
                        if *flag == one {
                            Configuration::Debug
                        } else {
                            Configuration::Release
                        }
                    },
                    None => {
                        return Err(ConfigurationError::DebugNotSet);
                    },
                }
            },
        };

        let product_name = match &env.package_name {
            Some(name) => name.clone(),
            None => {
                return Err(ConfigurationError::PackageNameNotSet);
            },
        };
        Ok(
            BuildSettings {
                source_strategy,
                intermediate_path,
                product_path,
                product_name,
                configuration,
            },
        )
    }
}

} // verus!
