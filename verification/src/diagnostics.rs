//! What a compiler or linker wrote to its error stream, line by line: a line that bears a
//! warning goes to the host build system, which shows it as a warning of the build; every
//! other line goes on to the build script's own error stream.
use crate::text::characters;
use vstd::prelude::*;
use vstd::string::StringExecFns;

verus! {

/// Where one line of a tool's error stream goes.
#[derive(Debug, PartialEq, Eq)]
pub enum Diagnostic {
    /// To the host build system. This is the line to print for it.
    Warning(String),
    /// To the error stream, as it is.
    PassedOn(String),
}

/// What a [`Diagnostic`] holds, as contracts speak of it.
pub ghost enum DiagnosticView {
    Warning(Seq<char>),
    PassedOn(Seq<char>),
}

impl View for Diagnostic {
    type V = DiagnosticView;

    open spec fn view(&self) -> DiagnosticView {
        match self {
            Diagnostic::Warning(line) => DiagnosticView::Warning(line@),
            Diagnostic::PassedOn(line) => DiagnosticView::PassedOn(line@),
        }
    }
}

impl DeepView for Diagnostic {
    type V = DiagnosticView;

    open spec fn deep_view(&self) -> DiagnosticView {
        self@
    }
}

/// Whether `word` stands in `line` at `position`.
pub open spec fn occurs_at(line: Seq<char>, word: Seq<char>, position: int) -> bool {
    0 <= position && position + word.len() <= line.len() && line.subrange(
        position,
        position + word.len(),
    ) == word
}

/// Whether `word` stands somewhere in `line`.
pub open spec fn occurs(line: Seq<char>, word: Seq<char>) -> bool {
    exists|position: int| occurs_at(line, word, position)
}

/// Whether a line bears a warning: whether it holds the word `warning`.
pub open spec fn bears_warning(line: Seq<char>) -> bool {
    occurs(line, "warning"@)
}

/// Where `line` goes, and as what.
pub open spec fn routed(line: Seq<char>) -> DiagnosticView {
    if bears_warning(line) {
        DiagnosticView::Warning("cargo:warning="@ + line)
    } else {
        DiagnosticView::PassedOn(line)
    }
}

/// The lines of a text that are complete, and the line that is not.
pub ghost struct Lines {
    pub complete: Seq<Seq<char>>,
    pub open: Seq<char>,
}

/// The lines of `text`, cut behind each line feed.
pub open spec fn cut(text: Seq<char>) -> Lines
    decreases text.len(),
{
    if text.len() == 0 {
        Lines { complete: Seq::empty(), open: Seq::empty() }
    } else {
        let before = cut(text.drop_last());
        if text.last() == '\n' {
            Lines { complete: before.complete.push(before.open), open: Seq::empty() }
        } else {
            Lines { complete: before.complete, open: before.open.push(text.last()) }
        }
    }
}

/// The lines of `text`, without their line feeds. The text behind the last line feed is a
/// line if it is not empty.
pub open spec fn lines_of(text: Seq<char>) -> Seq<Seq<char>> {
    let lines = cut(text);
    if lines.open.len() == 0 {
        lines.complete
    } else {
        lines.complete.push(lines.open)
    }
}

/// Where the lines of `text` go, in their order.
pub open spec fn route_spec(text: Seq<char>) -> Seq<DiagnosticView> {
    Seq::new(lines_of(text).len(), |i: int| routed(lines_of(text)[i]))
}

/// Whether `word` stands in `line` at `position`.
fn stands_at(line: &Vec<char>, word: &Vec<char>, position: usize) -> (found: bool)
    requires
        position + word.len() <= line.len(),
    ensures
        found == occurs_at(line@, word@, position as int),
{
    let mut k: usize = 0;
    while k < word.len()
        invariant
            k <= word.len(),
            position + word.len() <= line.len(),
            forall|j: int| 0 <= j < k ==> line@[position + j] == word@[j],
        decreases word.len() - k,
    {
        if line[position + k] != word[k] {
            assert(line@.subrange(position as int, position + word.len())[k as int]
                == line@[position + k]);
            return false;
        }
        k = k + 1;
    }
    assert(line@.subrange(position as int, position + word.len()) =~= word@);
    true
}

/// Whether `word` stands somewhere in `line`.
pub fn contains_word(line: &Vec<char>, word: &Vec<char>) -> (found: bool)
    ensures
        found == occurs(line@, word@),
{
    if word.len() > line.len() {
        return false;
    }
    let last = line.len() - word.len();
    let mut position: usize = 0;
    loop
        invariant
            last == line.len() - word.len(),
            word.len() <= line.len(),
            position <= last,
            forall|p: int| 0 <= p < position ==> !occurs_at(line@, word@, p),
        decreases last - position,
    {
        if stands_at(line, word, position) {
            return true;
        }
        if position == last {
            return false;
        }
        position = position + 1;
    }
}

/// Where `line` goes, and as what.
fn route_line(line: String, word: &Vec<char>) -> (diagnostic: Diagnostic)
    requires
        word@ == "warning"@,
    ensures
        diagnostic@ == routed(line@),
{
    let chars = characters(line.as_str());
    if contains_word(&chars, word) {
        let mut warning = String::from_str("cargo:warning=");
        warning.append(line.as_str());
        Diagnostic::Warning(warning)
    } else {
        Diagnostic::PassedOn(line)
    }
}

/// Says of each line of a tool's error stream where it goes: a line that holds the word
/// `warning` becomes a warning for the host build system, every other line is passed on.
pub fn route_diagnostics(stderr: &str) -> (diagnostics: Vec<Diagnostic>)
    ensures
        diagnostics.deep_view() == route_spec(stderr@),
{
    broadcast use vstd::string::group_string_axioms;

    let word = characters("warning");
    let ghost text = stderr@;
    let mut diagnostics: Vec<Diagnostic> = Vec::new();
    let mut line = String::new();
    for c in it: stderr.chars()
        invariant
            it.seq() == text,
            text == stderr@,
            word@ == "warning"@,
            line@ == cut(text.take(it.index())).open,
            diagnostics.len() == cut(text.take(it.index())).complete.len(),
            forall|i: int|
                0 <= i < diagnostics.len() ==> diagnostics[i]@ == routed(
                    cut(text.take(it.index())).complete[i],
                ),
    {
        proof {
            let seen = text.take(it.index() + 1);
            assert(seen.drop_last() =~= text.take(it.index()));
            assert(seen.last() == c);
        }
        if c == '\n' {
            diagnostics.push(route_line(line, &word));
            line = String::new();
        } else {
            line.push(c);
        }
    }
    assert(text.take(text.len() as int) =~= text);
    if !line.as_str().is_empty() {
        diagnostics.push(route_line(line, &word));
    }
    assert(diagnostics.deep_view() =~= route_spec(text));
    diagnostics
}

} // verus!
