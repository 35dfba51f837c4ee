//! How the Metal compiler is called for one source file.
use crate::buildkit::{CompileStep, Configuration};
use crate::command::{ToolArgument, ToolArgumentView, ToolCommand, ToolCommandView};
use crate::path::{name_stem, BuildPath, PathView};
use vstd::prelude::*;
use vstd::string::StringExecFns;

verus! {

/// The Metal compiler.
pub struct MetalCompiler;

/// The object file for the source file `path`: in `intermediate_dir`, under the source's name
/// with `.air` in place of its extension.
pub open spec fn object_file(path: PathView, intermediate_dir: PathView) -> PathView {
    intermediate_dir.child(name_stem(path.components.last()) + ".air"@)
}

/// What makes the compiler keep the lines and the sources for a debugger.
pub open spec fn debug_arguments(configuration: Configuration) -> Seq<ToolArgumentView> {
    match configuration {
        Configuration::Debug => seq![
            ToolArgumentView::Text("-gline-tables-only"@),
            ToolArgumentView::Text("-MO"@),
        ],
        Configuration::Release => Seq::empty(),
    }
}

impl CompileStep for MetalCompiler {
    const SOURCE_FILE_EXTENSION: &'static str = "metal";

    /// The call that compiles `path` into its object file and writes the files it depends on,
    /// under the source's file name as the target, to `dependency_path`.
    open spec fn compile_command(
        path: PathView,
        intermediate_dir: PathView,
        configuration: Configuration,
        dependency_path: PathView,
    ) -> ToolCommandView {
        ToolCommandView {
            program: "xcrun"@,
            arguments: seq![
                ToolArgumentView::Text("-sdk"@),
                ToolArgumentView::Text("macosx"@),
                ToolArgumentView::Text("metal"@),
                ToolArgumentView::Text("-c"@),
                ToolArgumentView::Text("-target"@),
                ToolArgumentView::Text("air64-apple-macos12.1"@),
            ] + debug_arguments(configuration) + seq![
                ToolArgumentView::Text("-ffast-math"@),
                ToolArgumentView::Text("-o"@),
                ToolArgumentView::Path(object_file(path, intermediate_dir)),
                ToolArgumentView::Text("-MMD"@),
                ToolArgumentView::Text("-MT"@),
                ToolArgumentView::Text(path.components.last()),
                ToolArgumentView::Text("-MF"@),
                ToolArgumentView::Path(dependency_path),
                ToolArgumentView::Path(path),
            ],
            output: object_file(path, intermediate_dir),
        }
    }

    fn compile_one(
        path: &BuildPath,
        intermediate_dir: &BuildPath,
        configuration: &Configuration,
        dependency_path: &BuildPath,
    ) -> (command: ToolCommand) {
        let file_with_extension = path.file_name().unwrap();
        let mut new_name = path.file_stem().unwrap();
        new_name.append(".air");
        let new_file = intermediate_dir.child(new_name.as_str());
        let mut arguments: Vec<ToolArgument> = Vec::new();
        arguments.push(ToolArgument::text("-sdk"));
        arguments.push(ToolArgument::text("macosx"));
        arguments.push(ToolArgument::text("metal"));
        arguments.push(ToolArgument::text("-c"));
        arguments.push(ToolArgument::text("-target"));
        arguments.push(ToolArgument::text("air64-apple-macos12.1"));
        match configuration {
            Configuration::Debug => {
                arguments.push(ToolArgument::text("-gline-tables-only"));
                arguments.push(ToolArgument::text("-MO"));
            },
            Configuration::Release => {},
        }
        arguments.push(ToolArgument::text("-ffast-math"));
        arguments.push(ToolArgument::text("-o"));
        arguments.push(ToolArgument::path(&new_file));
        arguments.push(ToolArgument::text("-MMD"));
        arguments.push(ToolArgument::text("-MT"));
        arguments.push(ToolArgument::text(file_with_extension.as_str()));
        arguments.push(ToolArgument::text("-MF"));
        arguments.push(ToolArgument::path(dependency_path));
        arguments.push(ToolArgument::path(path));
        assert(arguments.deep_view() =~= Self::compile_command(
            path@,
            intermediate_dir@,
            *configuration,
            dependency_path@,
        ).arguments);
        ToolCommand { program: String::from_str("xcrun"), arguments, output: new_file }
    }
}

} // verus!
