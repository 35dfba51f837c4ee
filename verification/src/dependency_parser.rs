//! The dependency file that a compiler writes beside its output: a target, a colon, and the
//! files the target was made from, in the form that `make` reads.
//!
//! ```text
//! shader.metal: /src/shader.metal \
//!   /src/common.h \
//!   /src/with\ space.h
//! ```
//!
//! Entries are separated by spaces, a space inside an entry is written as backslash and space,
//! and a backslash at the end of a line continues the list on the next line.
use vstd::prelude::*;
use vstd::string::StringExecFns;

verus! {

/// The text holds a backslash in front of something other than a space or a line end.
#[derive(Clone, Copy, Debug, PartialEq, Eq, Structural)]
pub struct ParseInvariantViolation;

/// What the scanner remembers between two characters.
pub ghost struct ScanState {
    /// The entries that are complete.
    pub entries: Seq<Seq<char>>,
    /// The entry that is being read.
    pub current: Seq<char>,
    /// Whether the character before was a backslash that still waits for its space.
    pub escaped: bool,
}

/// The scanner's state in front of the first entry.
pub open spec fn scan_start() -> ScanState {
    ScanState { entries: Seq::empty(), current: Seq::empty(), escaped: false }
}

/// Whether `c` may follow in `state`: after a backslash only a space, a line end or another
/// backslash may.
pub open spec fn scan_accepts(state: ScanState, c: char) -> bool {
    state.escaped ==> c == ' ' || c == '\\' || c == '\n'
}

/// The scanner's state after `c`.
///
/// A space in front of an entry is skipped and leaves a pending backslash pending. A space
/// after a backslash belongs to the entry; any other space ends it. A line end only takes the
/// pending backslash away: it does not end an entry.
pub open spec fn scan_char(state: ScanState, c: char) -> ScanState {
    if c == ' ' {
        if state.current.len() == 0 {
            state
        } else if state.escaped {
            ScanState {
                entries: state.entries,
                current: state.current.push(' '),
                escaped: false,
            }
        } else {
            ScanState {
                entries: state.entries.push(state.current),
                current: Seq::empty(),
                escaped: false,
            }
        }
    } else if c == '\\' {
        ScanState { entries: state.entries, current: state.current, escaped: true }
    } else if c == '\n' {
        ScanState { entries: state.entries, current: state.current, escaped: false }
    } else {
        ScanState { entries: state.entries, current: state.current.push(c), escaped: state.escaped }
    }
}

/// The scanner's state after all of `chars`, read from `start`; `None` if one of them was not
/// accepted.
pub open spec fn scan_from(start: ScanState, chars: Seq<char>) -> Option<ScanState>
    decreases chars.len(),
{
    if chars.len() == 0 {
        Some(start)
    } else {
        match scan_from(start, chars.drop_last()) {
            Some(state) => if scan_accepts(state, chars.last()) {
                Some(scan_char(state, chars.last()))
            } else {
                None
            },
            None => None,
        }
    }
}

/// What follows the first `mark` in `text`; nothing if `text` holds no `mark`.
pub open spec fn after_first(text: Seq<char>, mark: char) -> Seq<char> {
    match text.index_of_first(mark) {
        Some(i) => text.skip(i + 1),
        None => Seq::empty(),
    }
}

/// The list of entries in a dependency file: what follows the first space after the first
/// colon.
pub open spec fn entry_list(text: Seq<char>) -> Seq<char> {
    after_first(after_first(text, ':'), ' ')
}

/// The dependencies that `text` names, in the order in which it names them.
///
/// The entry that is open when the text ends is always part of the result: a text that ends
/// behind a separator, or names nothing at all, yields an empty last entry.
pub open spec fn parse_spec(text: Seq<char>) -> Result<Seq<Seq<char>>, ParseInvariantViolation> {
    match scan_from(scan_start(), entry_list(text)) {
        Some(state) => Ok(state.entries.push(state.current)),
        None => Err(ParseInvariantViolation),
    }
}

/// Reading `chars` and then `c` is reading `chars` and taking one more step.
proof fn lemma_scan_push(start: ScanState, chars: Seq<char>, c: char)
    ensures
        scan_from(start, chars.push(c)) == match scan_from(start, chars) {
            Some(state) => if scan_accepts(state, c) {
                Some(scan_char(state, c))
            } else {
                None
            },
            None => None,
        },
{
    assert(chars.push(c).drop_last() =~= chars);
}

/// Reading `head + tail` is reading `head` and going on with `tail`.
proof fn lemma_scan_concat(start: ScanState, head: Seq<char>, tail: Seq<char>)
    ensures
        scan_from(start, head + tail) == match scan_from(start, head) {
            Some(middle) => scan_from(middle, tail),
            None => None,
        },
    decreases tail.len(),
{
    if tail.len() == 0 {
        assert(head + tail =~= head);
    } else {
        lemma_scan_concat(start, head, tail.drop_last());
        assert((head + tail).drop_last() =~= head + tail.drop_last());
        assert((head + tail).last() == tail.last());
    }
}

/// `text.skip(from)` is what follows the first `mark`, if the first `mark` stands just
/// before `from`.
proof fn lemma_after_first(text: Seq<char>, mark: char, from: int)
    requires
        0 < from <= text.len(),
        text[from - 1] == mark,
        forall|j: int| 0 <= j < from - 1 ==> text[j] != mark,
    ensures
        after_first(text, mark) == text.skip(from),
{
    text.index_of_first_ensures(mark);
    assert(text.contains(mark));
    let found = text.index_of_first(mark).unwrap();
    assert(found == from - 1) by {
        if found < from - 1 {
            assert(text[found] != mark);
        }
        if from - 1 < found {
            assert(text[from - 1] != mark);
        }
    }
}

/// Nothing follows the first `mark` in a text without `mark`.
proof fn lemma_after_first_absent(text: Seq<char>, mark: char)
    requires
        forall|j: int| 0 <= j < text.len() ==> text[j] != mark,
    ensures
        after_first(text, mark) == Seq::<char>::empty(),
{
    text.index_of_first_ensures(mark);
}

/// An entry as a dependency file writes it: with a backslash in front of each space.
pub open spec fn escape_spaces(entry: Seq<char>) -> Seq<char>
    decreases entry.len(),
{
    if entry.len() == 0 {
        Seq::empty()
    } else if entry.last() == ' ' {
        escape_spaces(entry.drop_last()).push('\\').push(' ')
    } else {
        escape_spaces(entry.drop_last()).push(entry.last())
    }
}

/// What stands between two entries: a space, or a space, a backslash, a line end and two
/// spaces where the line is wrapped.
pub open spec fn separator(wrapped: bool) -> Seq<char> {
    if wrapped {
        seq![' ', '\\', '\n', ' ', ' ']
    } else {
        seq![' ']
    }
}

/// The entries as a dependency file lists them. `wrapped` holds the positions of the entries
/// behind which the line is wrapped.
pub open spec fn write_entries(entries: Seq<Seq<char>>, wrapped: Set<int>) -> Seq<char>
    decreases entries.len(),
{
    if entries.len() == 0 {
        Seq::empty()
    } else if entries.len() == 1 {
        escape_spaces(entries[0])
    } else {
        write_entries(entries.drop_last(), wrapped) + separator(
            wrapped.contains(entries.len() - 2),
        ) + escape_spaces(entries.last())
    }
}

/// A dependency file for `target`.
pub open spec fn write_depfile(
    target: Seq<char>,
    entries: Seq<Seq<char>>,
    wrapped: Set<int>,
) -> Seq<char> {
    target + seq![':', ' '] + write_entries(entries, wrapped)
}

/// What a dependency file can hold as an entry and give back unchanged: a name that is not
/// empty, does not begin with a space, and holds neither a backslash nor a line end.
pub open spec fn writable_entry(entry: Seq<char>) -> bool {
    &&& entry.len() > 0
    &&& entry[0] != ' '
    &&& forall|k: int| 0 <= k < entry.len() ==> entry[k] != '\\' && entry[k] != '\n'
}

/// Reading an escaped entry appends the entry to the one that is being read.
proof fn lemma_scan_escaped(start: ScanState, entry: Seq<char>)
    requires
        !start.escaped,
        forall|k: int| 0 <= k < entry.len() ==> entry[k] != '\\' && entry[k] != '\n',
        start.current.len() > 0 || entry.len() == 0 || entry[0] != ' ',
    ensures
        scan_from(start, escape_spaces(entry)) == Some(
            ScanState {
                entries: start.entries,
                current: start.current + entry,
                escaped: false,
            },
        ),
    decreases entry.len(),
{
    if entry.len() == 0 {
        assert(start.current + entry =~= start.current);
    } else {
        let front = entry.drop_last();
        let c = entry.last();
        lemma_scan_escaped(start, front);
        let middle = ScanState {
            entries: start.entries,
            current: start.current + front,
            escaped: false,
        };
        assert(middle.current.push(c) =~= start.current + entry);
        if c == ' ' {
            assert(middle.current.len() > 0) by {
                if start.current.len() == 0 {
                    assert(entry[0] != ' ');
                    assert(front.len() > 0);
                }
            }
            lemma_scan_push(start, escape_spaces(front), '\\');
            lemma_scan_push(start, escape_spaces(front).push('\\'), ' ');
        } else {
            lemma_scan_push(start, escape_spaces(front), c);
        }
    }
}

/// Reading a separator ends the entry that is being read.
proof fn lemma_scan_separator(start: ScanState, wrapped: bool)
    requires
        !start.escaped,
        start.current.len() > 0,
    ensures
        scan_from(start, separator(wrapped)) == Some(
            ScanState {
                entries: start.entries.push(start.current),
                current: Seq::empty(),
                escaped: false,
            },
        ),
{
    let none = Seq::<char>::empty();
    lemma_scan_push(start, none, ' ');
    assert(none.push(' ') =~= seq![' ']);
    if wrapped {
        lemma_scan_push(start, seq![' '], '\\');
        lemma_scan_push(start, seq![' '].push('\\'), '\n');
        lemma_scan_push(start, seq![' '].push('\\').push('\n'), ' ');
        lemma_scan_push(start, seq![' '].push('\\').push('\n').push(' '), ' ');
        assert(seq![' '].push('\\').push('\n').push(' ').push(' ') =~= separator(true));
    }
}

/// Reading a written list leaves its last entry open and all others complete.
proof fn lemma_scan_written(entries: Seq<Seq<char>>, wrapped: Set<int>)
    requires
        entries.len() > 0,
        forall|i: int| 0 <= i < entries.len() ==> writable_entry(#[trigger] entries[i]),
    ensures
        scan_from(scan_start(), write_entries(entries, wrapped)) == Some(
            ScanState { entries: entries.drop_last(), current: entries.last(), escaped: false },
        ),
    decreases entries.len(),
{
    let last = entries.last();
    assert(writable_entry(last));
    if entries.len() == 1 {
        lemma_scan_escaped(scan_start(), last);
        assert(scan_start().current + last =~= last);
        assert(entries.drop_last() =~= Seq::empty());
    } else {
        let front = entries.drop_last();
        assert forall|i: int| 0 <= i < front.len() implies writable_entry(#[trigger] front[i]) by {
            assert(front[i] == entries[i]);
        }
        lemma_scan_written(front, wrapped);
        let gap = separator(wrapped.contains(entries.len() - 2));
        let head = write_entries(front, wrapped);
        let open = ScanState { entries: front.drop_last(), current: front.last(), escaped: false };
        assert(writable_entry(front.last()));
        lemma_scan_separator(open, wrapped.contains(entries.len() - 2));
        let closed = ScanState { entries: front, current: Seq::empty(), escaped: false };
        assert(front.drop_last().push(front.last()) =~= front);
        lemma_scan_concat(scan_start(), head, gap);
        lemma_scan_escaped(closed, last);
        assert(closed.current + last =~= last);
        lemma_scan_concat(scan_start(), head + gap, escape_spaces(last));
    }
}

/// Writing a list of dependencies and reading it back gives the same list: each entry once,
/// in order, with its spaces.
///
/// This holds of every target without a colon and of every list that is not empty and holds
/// only names that are not empty, do not begin with a space, and are free of backslashes and
/// line ends. Lines may be wrapped behind any of the entries.
pub proof fn lemma_parse_written(target: Seq<char>, entries: Seq<Seq<char>>, wrapped: Set<int>)
    requires
        !target.contains(':'),
        entries.len() > 0,
        forall|i: int| 0 <= i < entries.len() ==> writable_entry(#[trigger] entries[i]),
    ensures
        parse_spec(write_depfile(target, entries, wrapped)) == Ok::<
            Seq<Seq<char>>,
            ParseInvariantViolation,
        >(entries),
{
    let list = write_entries(entries, wrapped);
    let text = write_depfile(target, entries, wrapped);
    assert(text[target.len() as int] == ':');
    assert forall|j: int| 0 <= j < target.len() implies text[j] != ':' by {
        assert(text[j] == target[j]);
    }
    let start: int = target.len() as int + 1;
    lemma_after_first(text, ':', start);
    let tail = text.skip(start);
    assert(tail[0] == ' ');
    lemma_after_first(tail, ' ', 1);
    assert(tail.skip(1) =~= list);
    lemma_scan_written(entries, wrapped);
    assert(entries.drop_last().push(entries.last()) =~= entries);
}

/// Where the scanner is in the text.
#[derive(Clone, Copy, PartialEq, Eq, Structural)]
enum Section {
    /// In the target, in front of the colon.
    Target,
    /// Behind the colon, in front of the space that starts the list.
    Colon,
    /// In the list of entries.
    Entries,
}

/// Reads a dependency file and returns the dependencies it names, in order and with
/// repetitions. Fails if a backslash stands in front of anything but a space, a line end or
/// another backslash.
pub fn parse(parse_me: &str) -> (result: Result<Vec<String>, ParseInvariantViolation>)
    ensures
        match result {
            Ok(dependencies) => parse_spec(parse_me@) == Ok::<
                Seq<Seq<char>>,
                ParseInvariantViolation,
            >(dependencies.deep_view()),
            Err(violation) => parse_spec(parse_me@) == Err::<
                Seq<Seq<char>>,
                ParseInvariantViolation,
            >(violation),
        },
{
    broadcast use vstd::string::group_string_axioms;

    let ghost text = parse_me@;
    let mut section = Section::Target;
    // Where the part of the text that `section` speaks of begins.
    let ghost mut from: int = 0;
    let mut out: Vec<String> = Vec::new();
    let mut escaped = false;
    let mut current_str = String::new();
    assert(out.deep_view() =~= Seq::empty());
    for c in it: parse_me.chars()
        invariant
            it.seq() == text,
            text == parse_me@,
            0 <= from <= it.index(),
            match section {
                Section::Target => from == 0 && forall|j: int|
                    0 <= j < it.index() ==> text[j] != ':',
                Section::Colon => after_first(text, ':') == text.skip(from) && forall|j: int|
                    from <= j < it.index() ==> text[j] != ' ',
                Section::Entries => entry_list(text) == text.skip(from),
            },
            section != Section::Entries ==> out.deep_view() == Seq::<Seq<char>>::empty()
                && current_str@ == Seq::<char>::empty() && !escaped,
            section == Section::Entries ==> scan_from(
                scan_start(),
                text.subrange(from, it.index()),
            ) == Some(
                ScanState { entries: out.deep_view(), current: current_str@, escaped },
            ),
    {
        let ghost i = it.index();
        match section {
            Section::Target => {
                if c == ':' {
                    section = Section::Colon;
                    proof {
                        from = i + 1;
                        lemma_after_first(text, ':', from);
                    }
                }
            },
            Section::Colon => {
                if c == ' ' {
                    section = Section::Entries;
                    proof {
                        let rest = text.skip(from);
                        lemma_after_first(rest, ' ', i + 1 - from);
                        assert(rest.skip(i + 1 - from) =~= text.skip(i + 1));
                        from = i + 1;
                        assert(text.subrange(from, i + 1) =~= Seq::empty());
                    }
                }
            },
            Section::Entries => {
                let ghost before = ScanState {
                    entries: out.deep_view(),
                    current: current_str@,
                    escaped,
                };
                proof {
                    assert(text.subrange(from, i + 1) =~= text.subrange(from, i).push(c));
                    lemma_scan_push(scan_start(), text.subrange(from, i), c);
                }
                if c == ' ' {
                    if current_str.as_str().is_empty() {
                    } else if escaped {
                        current_str.push(c);
                        escaped = false;
                    } else {
                        out.push(current_str);
                        current_str = String::new();
                        assert(out.deep_view() =~= before.entries.push(before.current));
                    }
                } else if c == '\\' {
                    escaped = true;
                } else if c == '\n' {
                    escaped = false;
                } else {
                    if escaped {
                        proof {
                            let seen = text.subrange(from, i + 1);
                            let rest = text.skip(i + 1);
                            assert(text.skip(from) =~= seen + rest);
                            lemma_scan_concat(scan_start(), seen, rest);
                        }
                        return Err(ParseInvariantViolation);
                    }
                    current_str.push(c);
                }
            },
        }
    }
    proof {
        match section {
            Section::Target => {
                lemma_after_first_absent(text, ':');
                lemma_after_first_absent(Seq::<char>::empty(), ' ');
            },
            Section::Colon => {
                lemma_after_first_absent(text.skip(from), ' ');
            },
            Section::Entries => {
                assert(text.subrange(from, text.len() as int) =~= text.skip(from));
            },
        }
    }
    let ghost complete = out.deep_view();
    out.push(current_str);
    assert(out.deep_view() =~= complete.push(current_str@));
    Ok(out)
}

/// The line that tells the host build system to run the build again when `dependency`
/// changes.
pub open spec fn rerun_if_changed(dependency: Seq<char>) -> Seq<char> {
    "cargo:rerun-if-changed='"@ + dependency + "'"@
}

/// One such line for each of `dependencies`, in their order.
pub open spec fn rerun_directives_spec(dependencies: Seq<Seq<char>>) -> Seq<Seq<char>> {
    Seq::new(dependencies.len(), |i: int| rerun_if_changed(dependencies[i]))
}

/// The line that tells the host build system to run the build again when `dependency`
/// changes.
pub fn rerun_directive(dependency: &str) -> (line: String)
    ensures
        line@ == rerun_if_changed(dependency@),
{
    let mut line = String::from_str("cargo:rerun-if-changed='");
    line.append(dependency);
    line.append("'");
    line
}

/// The lines that tell the host build system about `dependencies`, one for each, in their
/// order.
pub fn rerun_directives(dependencies: &Vec<String>) -> (lines: Vec<String>)
    ensures
        lines.deep_view() == rerun_directives_spec(dependencies.deep_view()),
{
    let mut lines: Vec<String> = Vec::new();
    let mut i: usize = 0;
    while i < dependencies.len()
        invariant
            i <= dependencies.len(),
            lines.len() == i,
            forall|j: int| 0 <= j < i ==> lines[j]@ == rerun_if_changed(dependencies[j]@),
        decreases dependencies.len() - i,
    {
        lines.push(rerun_directive(dependencies[i].as_str()));
        i = i + 1;
    }
    assert(lines.deep_view() =~= rerun_directives_spec(dependencies.deep_view()));
    lines
}

/// What the host build system has to be told about a dependency file with this text: for
/// each file that it names, the line that makes the build run again when the file changes.
///
/// Fails exactly if the text cannot be read as a dependency file.
pub fn tell_cargo_about_dependencies(dependency_file: &str) -> (told: Result<
    Vec<String>,
    ParseInvariantViolation,
>)
    ensures
        match told {
            Ok(lines) => parse_spec(dependency_file@) matches Ok(dependencies) && lines.deep_view()
                == rerun_directives_spec(dependencies),
            Err(violation) => parse_spec(dependency_file@) is Err,
        },
{
    match parse(dependency_file) {
        Ok(dependencies) => Ok(rerun_directives(&dependencies)),
        Err(violation) => Err(violation),
    }
}

} // verus!
