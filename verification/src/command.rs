//! A call of an outside tool, written down: the program, its arguments, and the file that it
//! is to write. Whoever runs it turns each path into what the operating system takes.
use crate::path::{BuildPath, PathView};
use vstd::prelude::*;
use vstd::string::StringExecFns;

verus! {

/// One argument of a command.
#[derive(Debug, PartialEq, Eq)]
pub enum ToolArgument {
    /// Text that is passed as it is.
    Text(String),
    /// A path.
    Path(BuildPath),
}

/// What a [`ToolArgument`] holds, as contracts speak of it.
pub ghost enum ToolArgumentView {
    Text(Seq<char>),
    Path(PathView),
}

impl View for ToolArgument {
    type V = ToolArgumentView;

    open spec fn view(&self) -> ToolArgumentView {
        match self {
            ToolArgument::Text(text) => ToolArgumentView::Text(text@),
            ToolArgument::Path(path) => ToolArgumentView::Path(path@),
        }
    }
}

impl DeepView for ToolArgument {
    type V = ToolArgumentView;

    open spec fn deep_view(&self) -> ToolArgumentView {
        self@
    }
}

impl ToolArgument {
    /// The argument that is `text`.
    pub fn text(text: &str) -> (argument: ToolArgument)
        ensures
            argument@ == ToolArgumentView::Text(text@),
    {
        ToolArgument::Text(String::from_str(text))
    }

    /// The argument that is `path`.
    pub fn path(path: &BuildPath) -> (argument: ToolArgument)
        ensures
            argument@ == ToolArgumentView::Path(path@),
    {
        ToolArgument::Path(path.clone())
    }
}

/// A call of an outside tool.
#[derive(Debug, PartialEq, Eq)]
pub struct ToolCommand {
    /// The program to run.
    pub program: String,
    /// Its arguments, in order.
    pub arguments: Vec<ToolArgument>,
    /// The file that the program writes.
    pub output: BuildPath,
}

/// What a [`ToolCommand`] holds, as contracts speak of it.
pub ghost struct ToolCommandView {
    pub program: Seq<char>,
    pub arguments: Seq<ToolArgumentView>,
    pub output: PathView,
}

impl DeepView for ToolCommand {
    type V = ToolCommandView;

    open spec fn deep_view(&self) -> ToolCommandView {
        self@
    }
}

impl View for ToolCommand {
    type V = ToolCommandView;

    open spec fn view(&self) -> ToolCommandView {
        ToolCommandView {
            program: self.program@,
            arguments: self.arguments.deep_view(),
            output: self.output@,
        }
    }
}

} // verus!
