use metalr_build::build_system::{tool_command, BuildRequest};
use metalr_build::buildkit::{CompileStep, Configuration, LinkStep};
use metalr_build::command::{ToolArgument, ToolCommand};
use metalr_build::compile::MetalCompiler;
use metalr_build::link::MetalLinker;
use metalr_build::path::BuildPath;

fn path(text: &str) -> BuildPath {
    BuildPath::new(
        text.starts_with('/'),
        text.split('/').filter(|c| !c.is_empty()).map(|c| c.to_string()).collect(),
    )
}

fn text(text: &str) -> ToolArgument {
    ToolArgument::Text(text.to_string())
}

#[test]
fn metal_sources_end_in_metal() {
    assert_eq!(MetalCompiler::SOURCE_FILE_EXTENSION, "metal");
}

#[test]
fn arguments_are_made_from_text_and_paths() {
    assert_eq!(ToolArgument::text("-c"), text("-c"));
    assert_eq!(ToolArgument::path(&path("/a/b")), ToolArgument::Path(path("/a/b")));
}

#[test]
fn compile_command_for_a_debug_build() {
    let command = MetalCompiler::compile_one(
        &path("/src/shaders/blur.metal"),
        &path("/out/intermediates"),
        &Configuration::Debug,
        &path("/out/intermediates/dependency"),
    );
    assert_eq!(
        command,
        ToolCommand {
            program: "xcrun".to_string(),
            arguments: vec![
                text("-sdk"),
                text("macosx"),
                text("metal"),
                text("-c"),
                text("-target"),
                text("air64-apple-macos12.1"),
                text("-gline-tables-only"),
                text("-MO"),
                text("-ffast-math"),
                text("-o"),
                ToolArgument::Path(path("/out/intermediates/blur.air")),
                text("-MMD"),
                text("-MT"),
                text("blur.metal"),
                text("-MF"),
                ToolArgument::Path(path("/out/intermediates/dependency")),
                ToolArgument::Path(path("/src/shaders/blur.metal")),
            ],
            output: path("/out/intermediates/blur.air"),
        }
    );
}

#[test]
fn compile_command_for_a_release_build() {
    let command = MetalCompiler::compile_one(
        &path("a.b.metal"),
        &path("i"),
        &Configuration::Release,
        &path("i/dependency"),
    );
    assert_eq!(
        command.arguments,
        vec![
            text("-sdk"),
            text("macosx"),
            text("metal"),
            text("-c"),
            text("-target"),
            text("air64-apple-macos12.1"),
            text("-ffast-math"),
            text("-o"),
            ToolArgument::Path(path("i/a.b.air")),
            text("-MMD"),
            text("-MT"),
            text("a.b.metal"),
            text("-MF"),
            ToolArgument::Path(path("i/dependency")),
            ToolArgument::Path(path("a.b.metal")),
        ]
    );
    assert_eq!(command.output, path("i/a.b.air"));
}

#[test]
fn object_file_of_a_source_without_extension() {
    let command = MetalCompiler::compile_one(
        &path("/s/noext"),
        &path("/i"),
        &Configuration::Release,
        &path("/i/dependency"),
    );
    assert_eq!(command.output, path("/i/noext.air"));
    let hidden = MetalCompiler::compile_one(
        &path("/s/.metal"),
        &path("/i"),
        &Configuration::Release,
        &path("/i/dependency"),
    );
    assert_eq!(hidden.output, path("/i/.metal.air"));
}

#[test]
fn link_command_for_a_debug_build() {
    let objects = vec![path("/i/a.air"), path("/i/b.air")];
    let command = MetalLinker::link_all(&objects, &path("/products"), "shaders", &Configuration::Debug);
    assert_eq!(
        command,
        ToolCommand {
            program: "xcrun".to_string(),
            arguments: vec![
                text("-sdk"),
                text("macosx"),
                text("metal"),
                text("-target"),
                text("air64-apple-macos11.3"),
                text("-MO"),
                text("-o"),
                ToolArgument::Path(path("/products/shaders.metallib")),
                ToolArgument::Path(path("/i/a.air")),
                ToolArgument::Path(path("/i/b.air")),
            ],
            output: path("/products/shaders.metallib"),
        }
    );
}

#[test]
fn link_command_for_a_release_build() {
    let command = MetalLinker::link_all(&[], &path("p"), "n", &Configuration::Release);
    assert_eq!(
        command.arguments,
        vec![
            text("-sdk"),
            text("macosx"),
            text("metal"),
            text("-target"),
            text("air64-apple-macos11.3"),
            text("-o"),
            ToolArgument::Path(path("p/n.metallib")),
        ]
    );
    assert_eq!(command.output, path("p/n.metallib"));
}

#[test]
fn tool_command_is_the_call_that_a_request_asks_for() {
    let compile = BuildRequest::Compile {
        source: path("/s/a.metal"),
        intermediate_dir: path("/i"),
        configuration: Configuration::Release,
        dependency_path: path("/i/dependency"),
    };
    assert_eq!(
        tool_command::<MetalCompiler, MetalLinker>(&compile),
        Some(MetalCompiler::compile_one(
            &path("/s/a.metal"),
            &path("/i"),
            &Configuration::Release,
            &path("/i/dependency"),
        ))
    );
    let link = BuildRequest::Link {
        object_files: vec![path("/i/a.air")],
        out_dir: path("/p"),
        lib_name: "lib".to_string(),
        configuration: Configuration::Debug,
    };
    assert_eq!(
        tool_command::<MetalCompiler, MetalLinker>(&link),
        Some(MetalLinker::link_all(&[path("/i/a.air")], &path("/p"), "lib", &Configuration::Debug))
    );
}

#[test]
fn tool_command_of_other_requests_is_none() {
    assert_eq!(
        tool_command::<MetalCompiler, MetalLinker>(&BuildRequest::CreateDirectory(path("/i"))),
        None
    );
    assert_eq!(
        tool_command::<MetalCompiler, MetalLinker>(&BuildRequest::Finished(path("/p"))),
        None
    );
    let nameless = BuildRequest::Compile {
        source: path("/"),
        intermediate_dir: path("/i"),
        configuration: Configuration::Release,
        dependency_path: path("/i/dependency"),
    };
    assert_eq!(tool_command::<MetalCompiler, MetalLinker>(&nameless), None);
}
