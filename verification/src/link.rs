//! How the Metal linker is called for the object files of a build.
use crate::buildkit::{Configuration, LinkStep};
use crate::command::{ToolArgument, ToolArgumentView, ToolCommand, ToolCommandView};
use crate::path::{BuildPath, PathView};
use vstd::prelude::*;
use vstd::string::StringExecFns;

verus! {

/// The Metal linker.
pub struct MetalLinker {}

/// The library that is linked: in `out_dir`, under the library's name with the extension
/// `.metallib`.
pub open spec fn library_file(out_dir: PathView, lib_name: Seq<char>) -> PathView {
    out_dir.child(lib_name + ".metallib"@)
}

/// What makes the linker keep the sources for a debugger.
pub open spec fn debug_arguments(configuration: Configuration) -> Seq<ToolArgumentView> {
    match configuration {
        Configuration::Debug => seq![ToolArgumentView::Text("-MO"@)],
        Configuration::Release => Seq::empty(),
    }
}

/// The object files as arguments, in their order.
pub open spec fn object_arguments(object_files: Seq<PathView>) -> Seq<ToolArgumentView> {
    Seq::new(object_files.len(), |i: int| ToolArgumentView::Path(object_files[i]))
}

impl LinkStep for MetalLinker {
    /// The call that links `object_files` into the library.
    open spec fn link_command(
        object_files: Seq<PathView>,
        out_dir: PathView,
        lib_name: Seq<char>,
        configuration: Configuration,
    ) -> ToolCommandView {
        ToolCommandView {
            program: "xcrun"@,
            arguments: seq![
                ToolArgumentView::Text("-sdk"@),
                ToolArgumentView::Text("macosx"@),
                ToolArgumentView::Text("metal"@),
                ToolArgumentView::Text("-target"@),
                ToolArgumentView::Text("air64-apple-macos11.3"@),
            ] + debug_arguments(configuration) + seq![
                ToolArgumentView::Text("-o"@),
                ToolArgumentView::Path(library_file(out_dir, lib_name)),
            ] + object_arguments(object_files),
            output: library_file(out_dir, lib_name),
        }
    }

    fn link_all(
        object_files: &[BuildPath],
        out_dir: &BuildPath,
        lib_name: &str,
        configuration: &Configuration,
    ) -> (command: ToolCommand) {
        let mut metallib_nameonly = String::from_str(lib_name);
        metallib_nameonly.append(".metallib");
        let metallib_file = out_dir.child(metallib_nameonly.as_str());
        let mut arguments: Vec<ToolArgument> = Vec::new();
        arguments.push(ToolArgument::text("-sdk"));
        arguments.push(ToolArgument::text("macosx"));
        arguments.push(ToolArgument::text("metal"));
        arguments.push(ToolArgument::text("-target"));
        arguments.push(ToolArgument::text("air64-apple-macos11.3"));
        match configuration {
            Configuration::Debug => {
                arguments.push(ToolArgument::text("-MO"));
            },
            Configuration::Release => {},
        }
        arguments.push(ToolArgument::text("-o"));
        arguments.push(ToolArgument::path(&metallib_file));
        let ghost fixed = arguments.deep_view();
        let ghost objects = object_arguments(object_files.deep_view());
        let mut i: usize = 0;
        while i < object_files.len()
            invariant
                i <= object_files.len(),
                objects == object_arguments(object_files.deep_view()),
                arguments.deep_view() == fixed + objects.take(i as int),
            decreases object_files.len() - i,
        {
            let ghost before = arguments.deep_view();
            arguments.push(ToolArgument::path(&object_files[i]));
            assert(arguments.deep_view() =~= before.push(objects[i as int]));
            assert(arguments.deep_view() =~= fixed + objects.take(i + 1));
            i = i + 1;
        }
        assert(objects.take(i as int) =~= objects);
        assert(fixed =~= seq![
            ToolArgumentView::Text("-sdk"@),
            ToolArgumentView::Text("macosx"@),
            ToolArgumentView::Text("metal"@),
            ToolArgumentView::Text("-target"@),
            ToolArgumentView::Text("air64-apple-macos11.3"@),
        ] + debug_arguments(*configuration) + seq![
            ToolArgumentView::Text("-o"@),
            ToolArgumentView::Path(library_file(out_dir@, lib_name@)),
        ]);
        ToolCommand { program: String::from_str("xcrun"), arguments, output: metallib_file }
    }
}

} // verus!
