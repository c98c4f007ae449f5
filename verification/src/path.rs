//! Filesystem paths on either side of the sandbox boundary, the standard places inside
//! the sandbox, and the file name of a path.

use vstd::prelude::*;

verus! {

/// Directory that holds executables inside the sandbox.
pub const FHS_EXE: &'static str = "/usr/bin";

/// Directory that holds shared libraries inside the sandbox.
pub const FHS_SO: &'static str = "/usr/lib";

/// The character that separates the components of a path.
pub const SEPARATOR: char = '/';

/// A path on the host, outside the sandbox.
#[derive(Debug)]
pub struct HostPath(pub String);

/// A path as seen from inside the sandbox.
#[derive(Debug)]
pub struct SbxPath(pub String);

impl View for HostPath {
    type V = Seq<char>;

    open spec fn view(&self) -> Seq<char> {
        self.0@
    }
}

impl DeepView for HostPath {
    type V = Seq<char>;

    open spec fn deep_view(&self) -> Seq<char> {
        self.0@
    }
}

impl View for SbxPath {
    type V = Seq<char>;

    open spec fn view(&self) -> Seq<char> {
        self.0@
    }
}

impl DeepView for SbxPath {
    type V = Seq<char>;

    open spec fn deep_view(&self) -> Seq<char> {
        self.0@
    }
}

impl HostPath {
    /// A host path with the characters of `path`.
    pub fn new(path: &str) -> (host: HostPath)
        ensures
            host@ == path@,
    {
        HostPath(path.to_owned())
    }
}

impl SbxPath {
    /// A sandbox path with the characters of `path`.
    pub fn new(path: &str) -> (sbx: SbxPath)
        ensures
            sbx@ == path@,
    {
        SbxPath(path.to_owned())
    }
}

impl Clone for HostPath {
    fn clone(&self) -> (copy: HostPath)
        ensures
            copy@ == self@,
    {
        HostPath(self.0.clone())
    }
}

impl Clone for SbxPath {
    fn clone(&self) -> (copy: SbxPath)
        ensures
            copy@ == self@,
    {
        SbxPath(self.0.clone())
    }
}

impl From<String> for HostPath {
    fn from(value: String) -> (host: HostPath) {
        HostPath(value)
    }
}

impl vstd::std_specs::convert::FromSpecImpl<String> for HostPath {
    open spec fn obeys_from_spec() -> bool {
        true
    }

    open spec fn from_spec(value: String) -> HostPath {
        HostPath(value)
    }
}

impl From<String> for SbxPath {
    fn from(value: String) -> (sbx: SbxPath) {
        SbxPath(value)
    }
}

impl vstd::std_specs::convert::FromSpecImpl<String> for SbxPath {
    open spec fn obeys_from_spec() -> bool {
        true
    }

    open spec fn from_spec(value: String) -> SbxPath {
        SbxPath(value)
    }
}

/// A standard sandbox location that a host artifact is mounted under.
#[derive(Clone, Copy, Debug, PartialEq, Eq, Structural)]
pub enum StdMountLocation {
    /// An executable, found under `/usr/bin`.
    UserExe,
    /// A shared library, found under `/usr/lib`.
    UserSo,
}

impl DeepView for StdMountLocation {
    type V = StdMountLocation;

    open spec fn deep_view(&self) -> StdMountLocation {
        *self
    }
}

impl StdMountLocation {
    /// The directory of this location, as a sequence of characters.
    pub open spec fn directory(self) -> Seq<char> {
        match self {
            StdMountLocation::UserExe => FHS_EXE@,
            StdMountLocation::UserSo => FHS_SO@,
        }
    }

    /// The absolute sandbox directory of this location.
    pub fn to_absolute_path(&self) -> (dir: String)
        ensures
            dir@ == self.directory(),
    {
        match self {
            StdMountLocation::UserExe => FHS_EXE.to_owned(),
            StdMountLocation::UserSo => FHS_SO.to_owned(),
        }
    }

    /// The absolute sandbox directory of this location, consuming it.
    pub fn into_absolute_path(self) -> (dir: String)
        ensures
            dir@ == self.directory(),
    {
        self.to_absolute_path()
    }
}

/// Where the component that `path` ends in begins: just behind the last separator, or
/// at the very end where `path` is empty or ends in a separator.
pub open spec fn component_start(path: Seq<char>) -> int
    decreases path.len(),
{
    if path.len() == 0 || path.last() == SEPARATOR {
        path.len() as int
    } else {
        component_start(path.drop_last())
    }
}

/// The last component of `path` that names something: trailing separators and
/// trailing `.` components are passed over. Empty where there is no such component.
pub open spec fn last_component(path: Seq<char>) -> Seq<char>
    decreases path.len(),
{
    if path.len() == 0 {
        seq![]
    } else if path.last() == SEPARATOR {
        last_component(path.drop_last())
    } else if path.last() == '.' && (path.len() == 1 || path[path.len() - 2] == SEPARATOR) {
        last_component(path.drop_last())
    } else {
        path.skip(component_start(path))
    }
}

/// The file name of `path`: its last component, unless there is none or it is `..`.
pub open spec fn file_name(path: Seq<char>) -> Option<Seq<char>> {
    let name = last_component(path);
    if name.len() == 0 || name == seq!['.', '.'] {
        None
    } else {
        Some(name)
    }
}

impl HostPath {
    /// The file name of this path, if it has one.
    pub fn file_name(&self) -> (name: Option<String>)
        ensures
            name.deep_view() == file_name(self@),
    {
        let path = self.0.as_str();
        let len = path.unicode_len();
        let mut start: usize = 0;
        let mut from: usize = 0;
        let mut to: usize = 0;
        let mut i: usize = 0;
        for c in it: path.chars()
            invariant
                it.seq() == path@,
                len == path@.len(),
                i == it.index(),
                start == component_start(path@.take(i as int)),
                from <= to <= i,
                path@.subrange(from as int, to as int) == last_component(path@.take(i as int)),
        {
            proof {
                let seen = path@.take(i as int);
                let next = path@.take(i + 1);
                assert(next.drop_last() == seen);
                lemma_component_start_bounds(seen);
                lemma_component_start_bounds(next);
                assert(next.skip(component_start(next)) == path@.subrange(
                    component_start(next),
                    i + 1,
                ));
            }
            if c == SEPARATOR {
                start = i + 1;
            } else if c == '.' && start == i {
            } else {
                from = start;
                to = i + 1;
            }
            i += 1;
        }
        proof {
            assert(path@.take(len as int) == path@);
        }
        if from == to {
            return None;
        }
        let name = path.substring_char(from, to);
        if to - from == 2 && name.get_char(0) == '.' && name.get_char(1) == '.' {
            assert(name@ == seq!['.', '.']);
            return None;
        }
        Some(name.to_owned())
    }
}

/// The component that a path ends in begins inside the path, and strictly before its
/// end unless the path is empty or ends in a separator.
pub proof fn lemma_component_start_bounds(path: Seq<char>)
    ensures
        0 <= component_start(path) <= path.len(),
        component_start(path) == path.len() <==> path.len() == 0 || path.last() == SEPARATOR,
    decreases path.len(),
{
    if path.len() != 0 && path.last() != SEPARATOR {
        lemma_component_start_bounds(path.drop_last());
    }
}

/// The component that a path ends in holds no separator.
pub proof fn lemma_component_is_plain(path: Seq<char>)
    ensures
        !path.skip(component_start(path)).contains(SEPARATOR),
    decreases path.len(),
{
    lemma_component_start_bounds(path);
    if path.len() != 0 && path.last() != SEPARATOR {
        let shorter = path.drop_last();
        lemma_component_is_plain(shorter);
        lemma_component_start_bounds(shorter);
        let start = component_start(path);
        assert forall|i: int| 0 <= i < path.len() - start implies path.skip(start)[i]
            != SEPARATOR by {
            if i < shorter.len() - start {
                assert(shorter.skip(start)[i] == path[start + i]);
            }
        }
    }
}

/// Characters that are no separators, put behind a path, leave the beginning of its
/// last component where it was.
pub proof fn lemma_component_start_extends(path: Seq<char>, more: Seq<char>)
    requires
        !more.contains(SEPARATOR),
    ensures
        more.len() > 0 ==> component_start(path + more) == component_start(path),
    decreases more.len(),
{
    if more.len() > 0 {
        let longer = path + more;
        assert(longer.last() == more.last());
        assert(more.contains(more.last()));
        assert(longer.drop_last() == path + more.drop_last());
        assert forall|i: int| 0 <= i < more.drop_last().len() implies more.drop_last()[i]
            != SEPARATOR by {
            assert(more.contains(more[i]));
        }
        if more.len() > 1 {
            lemma_component_start_extends(path, more.drop_last());
        } else {
            assert(path + more.drop_last() == path);
        }
    }
}

/// What a path is named by holds no separator and is not `.`.
pub proof fn lemma_last_component_is_plain(path: Seq<char>)
    ensures
        !last_component(path).contains(SEPARATOR),
        last_component(path) != seq!['.'],
    decreases path.len(),
{
    if path.len() == 0 {
        assert(seq!['.'].len() == 1);
    } else if path.last() == SEPARATOR {
        lemma_last_component_is_plain(path.drop_last());
    } else if path.last() == '.' && (path.len() == 1 || path[path.len() - 2] == SEPARATOR) {
        lemma_last_component_is_plain(path.drop_last());
    } else {
        lemma_component_is_plain(path);
        lemma_component_start_bounds(path);
        lemma_component_start_bounds(path.drop_last());
        let name = path.skip(component_start(path));
        if name == seq!['.'] {
            assert(seq!['.'].len() == 1);
            assert(name[0] == '.');
        }
    }
}

/// A file name is a single component: not empty, free of separators, and neither `.`
/// nor `..`.
pub proof fn lemma_file_name_is_component(path: Seq<char>)
    requires
        file_name(path) is Some,
    ensures
        file_name(path)->0.len() > 0,
        !file_name(path)->0.contains(SEPARATOR),
        file_name(path)->0 != seq!['.'],
        file_name(path)->0 != seq!['.', '.'],
{
    lemma_last_component_is_plain(path);
}

/// A single component put behind a directory and a separator is the file name of the
/// path so made.
pub proof fn lemma_file_name_of_joined(dir: Seq<char>, name: Seq<char>)
    requires
        name.len() > 0,
        !name.contains(SEPARATOR),
        name != seq!['.'],
        name != seq!['.', '.'],
    ensures
        file_name(dir + seq![SEPARATOR] + name) == Some(name),
{
    let stem = dir + seq![SEPARATOR];
    let path = stem + name;
    assert(path.last() == name.last());
    assert(name.contains(name.last()));
    if name.len() == 1 {
        assert(name == seq![name[0]]);
    } else {
        assert(path[path.len() - 2] == name[name.len() - 2]);
        assert(name.contains(name[name.len() - 2]));
    }
    lemma_component_start_extends(stem, name);
    assert(component_start(stem) == stem.len());
    assert(path.skip(stem.len() as int) == name);
}

} // verus!
