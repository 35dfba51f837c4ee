use metalr_build::buildkit::{
    BuildSettings, BuildSettingsBuilder, Configuration, ConfigurationError, Environment, PathType,
    SourceFileStrategy,
};
use metalr_build::path::BuildPath;

fn path(text: &str) -> BuildPath {
    BuildPath::new(
        text.starts_with('/'),
        text.split('/').filter(|c| !c.is_empty()).map(|c| c.to_string()).collect(),
    )
}

fn cargo_env() -> Environment {
    Environment {
        out_dir: Some(path("/proj/target/debug/build/pkg-0123/out")),
        debug: Some("1".to_string()),
        package_name: Some("pkg".to_string()),
        manifest_dir: Some(path("/proj")),
    }
}

fn empty_env() -> Environment {
    Environment { out_dir: None, debug: None, package_name: None, manifest_dir: None }
}

#[test]
fn finish_takes_everything_from_the_environment() {
    let settings = BuildSettingsBuilder::new().finish(&cargo_env()).unwrap();
    assert_eq!(*settings.source_strategy(), SourceFileStrategy::SearchFromManifest(path("src")));
    assert_eq!(*settings.intermediate_path(), path("/proj/target/debug/build/pkg-0123/out"));
    assert_eq!(*settings.product_path(), path("/proj/target/debug"));
    assert_eq!(settings.configuration(), Configuration::Debug);
    assert_eq!(settings.product_name(), "pkg");
}

#[test]
fn auto_is_finish_of_an_empty_builder() {
    assert_eq!(
        BuildSettings::auto(&cargo_env()),
        BuildSettingsBuilder::new().finish(&cargo_env())
    );
    assert_eq!(BuildSettings::auto(&empty_env()), Err(ConfigurationError::OutDirNotSet));
    assert_eq!(BuildSettings::build(), BuildSettingsBuilder::new());
}

#[test]
fn finish_keeps_what_was_set() {
    let mut builder = BuildSettingsBuilder::new();
    builder
        .source_strategy(SourceFileStrategy::SourceFiles(vec![path("a.metal"), path("b.metal")]))
        .intermediate_path(path("/tmp/intermediates"))
        .product_path(PathType::Exact(path("/tmp/products")))
        .configuration(Configuration::Release);
    let settings = builder.finish(&cargo_env()).unwrap();
    assert_eq!(
        *settings.source_strategy(),
        SourceFileStrategy::SourceFiles(vec![path("a.metal"), path("b.metal")])
    );
    assert_eq!(*settings.intermediate_path(), path("/tmp/intermediates"));
    assert_eq!(*settings.product_path(), path("/tmp/products"));
    assert_eq!(settings.configuration(), Configuration::Release);
    assert_eq!(settings.product_name(), "pkg");
}

#[test]
fn finish_needs_only_the_package_name_when_all_is_set() {
    let mut builder = BuildSettingsBuilder::new();
    builder
        .intermediate_path(path("/i"))
        .product_path(PathType::Exact(path("/p")))
        .configuration(Configuration::Debug);
    let env = Environment { package_name: Some("n".to_string()), ..empty_env() };
    let settings = builder.finish(&env).unwrap();
    assert_eq!(settings.product_name(), "n");
    assert_eq!(builder.finish(&empty_env()), Err(ConfigurationError::PackageNameNotSet));
}

#[test]
fn finish_reads_the_debug_flag() {
    let release = Environment { debug: Some("0".to_string()), ..cargo_env() };
    assert_eq!(
        BuildSettingsBuilder::new().finish(&release).unwrap().configuration(),
        Configuration::Release
    );
    let other = Environment { debug: Some("true".to_string()), ..cargo_env() };
    assert_eq!(
        BuildSettingsBuilder::new().finish(&other).unwrap().configuration(),
        Configuration::Release
    );
    let empty = Environment { debug: Some(String::new()), ..cargo_env() };
    assert_eq!(
        BuildSettingsBuilder::new().finish(&empty).unwrap().configuration(),
        Configuration::Release
    );
    assert_eq!(
        BuildSettingsBuilder::new().finish(&cargo_env()).unwrap().configuration(),
        Configuration::Debug
    );
}

#[test]
fn finish_resolves_a_product_path_relative_to_the_executable() {
    let mut builder = BuildSettingsBuilder::new();
    builder.product_path(PathType::EXERelative(path("shaders")));
    let settings = builder.finish(&cargo_env()).unwrap();
    assert_eq!(*settings.product_path(), path("/proj/target/debug/shaders"));
}

#[test]
fn finish_fails_without_out_dir_for_the_intermediates() {
    let env = Environment { out_dir: None, ..cargo_env() };
    let mut builder = BuildSettingsBuilder::new();
    builder.product_path(PathType::Exact(path("/p")));
    assert_eq!(builder.finish(&env), Err(ConfigurationError::OutDirNotSet));
}

#[test]
fn finish_fails_without_out_dir_for_the_product() {
    let env = Environment { out_dir: None, ..cargo_env() };
    let mut builder = BuildSettingsBuilder::new();
    builder.intermediate_path(path("/i"));
    assert_eq!(builder.finish(&env), Err(ConfigurationError::OutDirNotSet));
    builder.product_path(PathType::EXERelative(path("x")));
    assert_eq!(builder.finish(&env), Err(ConfigurationError::OutDirNotSet));
    builder.product_path(PathType::Exact(path("/p")));
    assert!(builder.finish(&env).is_ok());
}

#[test]
fn finish_fails_without_the_debug_flag() {
    let env = Environment { debug: None, ..cargo_env() };
    assert_eq!(BuildSettingsBuilder::new().finish(&env), Err(ConfigurationError::DebugNotSet));
    let mut builder = BuildSettingsBuilder::new();
    builder.configuration(Configuration::Release);
    assert_eq!(builder.finish(&env).unwrap().configuration(), Configuration::Release);
}

#[test]
fn finish_fails_without_the_package_name() {
    let env = Environment { package_name: None, ..cargo_env() };
    assert_eq!(
        BuildSettingsBuilder::new().finish(&env),
        Err(ConfigurationError::PackageNameNotSet)
    );
}

#[test]
fn finish_reports_the_first_missing_value() {
    assert_eq!(
        BuildSettingsBuilder::new().finish(&empty_env()),
        Err(ConfigurationError::OutDirNotSet)
    );
    let env = Environment { out_dir: Some(path("/a/b/c/d")), ..empty_env() };
    assert_eq!(BuildSettingsBuilder::new().finish(&env), Err(ConfigurationError::DebugNotSet));
}

#[test]
fn finish_does_not_need_the_manifest_dir() {
    let env = Environment { manifest_dir: None, ..cargo_env() };
    assert!(BuildSettingsBuilder::new().finish(&env).is_ok());
}

#[test]
fn clones_of_a_builder_finish_on_their_own() {
    let mut base = BuildSettingsBuilder::new();
    base.source_strategy(SourceFileStrategy::SearchFromManifest(path("tests")))
        .intermediate_path(path("/tmp/t_build"));
    let before = base.clone();

    let mut debug = base.clone();
    debug.configuration(Configuration::Debug);
    let mut release = base.clone();
    release.configuration(Configuration::Release).intermediate_path(path("/tmp/release"));

    assert_eq!(base, before);
    let env = Environment { debug: None, ..cargo_env() };
    assert_eq!(base.finish(&env), Err(ConfigurationError::DebugNotSet));
    let debug_settings = debug.finish(&env).unwrap();
    let release_settings = release.finish(&env).unwrap();
    assert_eq!(debug_settings.configuration(), Configuration::Debug);
    assert_eq!(release_settings.configuration(), Configuration::Release);
    assert_eq!(*debug_settings.intermediate_path(), path("/tmp/t_build"));
    assert_eq!(*release_settings.intermediate_path(), path("/tmp/release"));
    assert_eq!(
        *debug_settings.source_strategy(),
        SourceFileStrategy::SearchFromManifest(path("tests"))
    );
    assert_eq!(debug_settings.source_strategy(), release_settings.source_strategy());
}

#[test]
fn setters_replace_an_earlier_value() {
    let mut builder = BuildSettingsBuilder::new();
    builder.configuration(Configuration::Debug).configuration(Configuration::Release);
    builder.intermediate_path(path("/one")).intermediate_path(path("/two"));
    builder.product_path(PathType::Exact(path("/p")));
    let settings = builder.finish(&cargo_env()).unwrap();
    assert_eq!(settings.configuration(), Configuration::Release);
    assert_eq!(*settings.intermediate_path(), path("/two"));
}

#[test]
fn strategy_and_path_type_clone_equal() {
    let files = SourceFileStrategy::SourceFiles(vec![path("/a"), path("b/c")]);
    assert_eq!(files.clone(), files);
    let search = SourceFileStrategy::SearchFromManifest(path("src"));
    assert_eq!(search.clone(), search);
    let relative = PathType::EXERelative(path("x"));
    assert_eq!(relative.clone(), relative);
    let exact = PathType::Exact(path("/x"));
    assert_eq!(exact.clone(), exact);
}
