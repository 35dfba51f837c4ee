//! Paths as the build logic sees them: a flag that says whether the path starts at the
//! file system's root, and the names of its components in order.
//!
//! Nothing here touches a file system. A caller that holds a `std::path::PathBuf` converts it
//! component by component.
use vstd::prelude::*;

verus! {

/// What a path is, mathematically: the root flag and the sequence of component names.
pub ghost struct PathView {
    pub absolute: bool,
    pub components: Seq<Seq<char>>,
}

impl PathView {
    /// The relative path without components.
    pub open spec fn empty() -> PathView {
        PathView { absolute: false, components: Seq::empty() }
    }

    /// The path without its last component. A path without components is its own parent.
    pub open spec fn parent(self) -> PathView {
        if self.components.len() == 0 {
            self
        } else {
            PathView { absolute: self.absolute, components: self.components.drop_last() }
        }
    }

    /// The path without its last `levels` components, or without any if it has fewer.
    pub open spec fn ancestor(self, levels: nat) -> PathView {
        let keep = if levels <= self.components.len() {
            self.components.len() - levels
        } else {
            0
        };
        PathView { absolute: self.absolute, components: self.components.take(keep) }
    }

    /// `other` seen from `self`: an absolute `other` stands for itself, a relative one is
    /// appended.
    pub open spec fn join(self, other: PathView) -> PathView {
        if other.absolute {
            other
        } else {
            PathView {
                absolute: self.absolute,
                components: self.components + other.components,
            }
        }
    }

    /// The entry `name` of the directory `self`.
    pub open spec fn child(self, name: Seq<char>) -> PathView {
        PathView { absolute: self.absolute, components: self.components.push(name) }
    }

    /// The last component, if there is one.
    pub open spec fn file_name(self) -> Option<Seq<char>> {
        if self.components.len() == 0 {
            None
        } else {
            Some(self.components.last())
        }
    }

    /// The extension of the last component, if it has one.
    pub open spec fn extension(self) -> Option<Seq<char>> {
        match self.file_name() {
            Some(name) => name_extension(name),
            None => None,
        }
    }

    /// The last component without its extension.
    pub open spec fn file_stem(self) -> Option<Seq<char>> {
        match self.file_name() {
            Some(name) => Some(name_stem(name)),
            None => None,
        }
    }
}

/// Where a file name splits into stem and extension: at its last dot, unless that dot is the
/// name's first character or the name has no dot.
pub open spec fn extension_dot(name: Seq<char>) -> Option<int> {
    match name.index_of_last('.') {
        Some(i) => if i > 0 {
            Some(i)
        } else {
            None
        },
        None => None,
    }
}

/// The part of a file name after the dot that `extension_dot` finds.
pub open spec fn name_extension(name: Seq<char>) -> Option<Seq<char>> {
    match extension_dot(name) {
        Some(i) => Some(name.skip(i + 1)),
        None => None,
    }
}

/// The part of a file name before the dot that `extension_dot` finds, or all of it.
pub open spec fn name_stem(name: Seq<char>) -> Seq<char> {
    match extension_dot(name) {
        Some(i) => name.take(i),
        None => name,
    }
}

/// `extension_dot` is `Some(i)` exactly for the one position that holds the name's last dot,
/// if that position is not the first.
proof fn lemma_extension_dot(name: Seq<char>, i: int)
    requires
        0 <= i < name.len(),
        name[i] == '.',
        forall|j: int| i < j < name.len() ==> name[j] != '.',
    ensures
        extension_dot(name) == (if i > 0 {
            Some(i)
        } else {
            None
        }),
{
    name.index_of_last_ensures('.');
    assert(name.contains('.'));
    let found = name.index_of_last('.').unwrap();
    assert(found == i) by {
        if found < i {
            assert(name[i] != '.');
        }
        if i < found {
            assert(name[found] != '.');
        }
    }
}

/// A name without a dot has no extension.
proof fn lemma_extension_dot_none(name: Seq<char>)
    requires
        forall|j: int| 0 <= j < name.len() ==> name[j] != '.',
    ensures
        extension_dot(name) is None,
{
    name.index_of_last_ensures('.');
}

/// A path of the build: absolute or relative, and its component names in order.
#[derive(Debug, PartialEq, Eq)]
pub struct BuildPath {
    pub absolute: bool,
    pub components: Vec<String>,
}

impl View for BuildPath {
    type V = PathView;

    open spec fn view(&self) -> PathView {
        PathView { absolute: self.absolute, components: self.components.deep_view() }
    }
}

impl DeepView for BuildPath {
    type V = PathView;

    open spec fn deep_view(&self) -> PathView {
        self@
    }
}

impl Clone for BuildPath {
    fn clone(&self) -> (copy: Self)
        ensures
            copy@ == self@,
    {
        let components = self.components.clone();
        assert(components.deep_view() =~= self.components.deep_view());
        BuildPath { absolute: self.absolute, components }
    }
}

impl BuildPath {
    /// A path from its parts.
    pub fn new(absolute: bool, components: Vec<String>) -> (path: BuildPath)
        ensures
            path@ == (PathView { absolute, components: components.deep_view() }),
    {
        BuildPath { absolute, components }
    }

    /// The relative path without components.
    pub fn empty() -> (path: BuildPath)
        ensures
            path@ == PathView::empty(),
    {
        let path = BuildPath { absolute: false, components: Vec::new() };
        assert(path.components.deep_view() =~= Seq::empty());
        path
    }

    /// Removes the last component. Returns `false`, and changes nothing, if there is none.
    pub fn pop(&mut self) -> (removed: bool)
        ensures
            final(self)@ == old(self)@.parent(),
            removed == (old(self)@.components.len() > 0),
    {
        match self.components.pop() {
            Some(_) => {
                assert(self.components.deep_view() =~= old(self).components.deep_view().drop_last());
                true
            },
            None => false,
        }
    }

    /// Extends `self` with `path`. An absolute `path` replaces `self`.
    pub fn push(&mut self, path: &BuildPath)
        ensures
            final(self)@ == old(self)@.join(path@),
    {
        if path.absolute {
            self.absolute = true;
            self.components = Vec::new();
        }
        let ghost start = self.components.deep_view();
        let mut i: usize = 0;
        while i < path.components.len()
            invariant
                i <= path.components.len(),
                self.absolute == (old(self).absolute || path.absolute),
                self.components.deep_view() == start + path.components.deep_view().take(i as int),
            decreases path.components.len() - i,
        {
            let ghost before = self.components.deep_view();
            self.components.push(path.components[i].clone());
            assert(self.components.deep_view() =~= before.push(path.components[i as int]@));
            assert(path.components.deep_view().take(i + 1) =~= path.components.deep_view().take(
                i as int,
            ).push(path.components[i as int]@));
            assert(self.components.deep_view() =~= start + path.components.deep_view().take(i + 1));
            i = i + 1;
        }
        assert(path.components.deep_view().take(i as int) =~= path.components.deep_view());
        assert(start =~= if path.absolute {
            Seq::empty()
        } else {
            old(self).components.deep_view()
        });
        assert(Seq::<Seq<char>>::empty() + path.components.deep_view()
            =~= path.components.deep_view());
    }

    /// `path` seen from `self`, as a new path.
    pub fn join(&self, path: &BuildPath) -> (joined: BuildPath)
        ensures
            joined@ == self@.join(path@),
    {
        let mut joined = self.clone();
        joined.push(path);
        joined
    }

    /// The entry `name` of the directory `self`.
    pub fn child(&self, name: &str) -> (entry: BuildPath)
        ensures
            entry@ == self@.child(name@),
    {
        let mut entry = self.clone();
        let ghost before = entry.components.deep_view();
        entry.components.push(name.to_owned());
        assert(entry.components.deep_view() =~= before.push(name@));
        entry
    }

    /// The last component, if there is one.
    pub fn file_name(&self) -> (name: Option<&String>)
        ensures
            name.deep_view() == self@.file_name(),
    {
        let n = self.components.len();
        if n == 0 {
            None
        } else {
            Some(&self.components[n - 1])
        }
    }

    /// The extension of the last component: what follows its last dot, unless the name has no
    /// dot or only one in front.
    pub fn extension(&self) -> (ext: Option<String>)
        ensures
            ext.deep_view() == self@.extension(),
    {
        match self.file_name() {
            None => None,
            Some(name) => {
                match find_extension_dot(name.as_str()) {
                    None => None,
                    Some(dot) => {
                        let len = name.as_str().unicode_len();
                        let tail = name.as_str().substring_char(dot + 1, len);
                        Some(tail.to_owned())
                    },
                }
            },
        }
    }

    /// The last component without its extension.
    pub fn file_stem(&self) -> (stem: Option<String>)
        ensures
            stem.deep_view() == self@.file_stem(),
    {
        match self.file_name() {
            None => None,
            Some(name) => {
                match find_extension_dot(name.as_str()) {
                    None => Some(name.clone()),
                    Some(dot) => {
                        let head = name.as_str().substring_char(0, dot);
                        Some(head.to_owned())
                    },
                }
            },
        }
    }
}

/// Finds the dot that separates a file name's stem from its extension.
fn find_extension_dot(name: &str) -> (dot: Option<usize>)
    ensures
        dot is Some <==> extension_dot(name@) is Some,
        dot matches Some(i) ==> extension_dot(name@) == Some(i as int) && 0 < i < name@.len(),
{
    broadcast use vstd::string::group_string_axioms;

    let len = name.unicode_len();
    let mut last: Option<usize> = None;
    let mut position: usize = 0;
    for c in it: name.chars()
        invariant
            it.seq() == name@,
            position == it.index(),
            position <= name@.len() == len,
            match last {
                Some(i) => i < position && name@[i as int] == '.' && forall|j: int|
                    i < j < position ==> name@[j] != '.',
                None => forall|j: int| 0 <= j < position ==> name@[j] != '.',
            },
    {
        if c == '.' {
            last = Some(position);
        }
        position = position + 1;
    }
    match last {
        Some(i) => {
            proof {
                lemma_extension_dot(name@, i as int);
            }
            if i > 0 {
                Some(i)
            } else {
                None
            }
        },
        None => {
            proof {
                lemma_extension_dot_none(name@);
            }
            None
        },
    }
}

} // verus!
