//! From a declared dependency to the mount that brings it into the sandbox.
//!
//! A dependency is a host artifact and its role. Before anything is mounted the caller
//! resolves each host path to its real location, free of symlinks, so that the sandbox
//! never depends on a symlink of the host staying in place. A dependency comes here as
//! the path that was declared, with that location, or with none where the path could
//! not be resolved. What is bound is the real location; the name under which it appears
//! in the sandbox is that of the path as it was declared.

use vstd::prelude::*;
use crate::mount::{Mount, MountView};
use crate::path::{
    HostPath, SbxPath, StdMountLocation, SEPARATOR, file_name, lemma_file_name_is_component,
    lemma_file_name_of_joined,
};

verus! {

/// The mount that makes a host artifact visible at its standard place in the sandbox:
/// a read-only bind of `resolved`, the real location of the artifact, at the directory
/// of `location`, under the file name of `declared`, the path by which the artifact
/// was declared.
pub open spec fn dependency_mount(
    declared: Seq<char>,
    resolved: Seq<char>,
    location: StdMountLocation,
) -> MountView
    recommends
        file_name(declared) is Some,
{
    MountView::Fs {
        readonly: true,
        host_path: resolved,
        sbx_path: location.directory() + seq![SEPARATOR] + file_name(declared)->0,
    }
}

/// Whether a dependency can be mounted: its host path was resolved, and the path as it
/// was declared has a file name.
pub open spec fn mountable(dep: (Seq<char>, Option<Seq<char>>, StdMountLocation)) -> bool {
    dep.1 is Some && file_name(dep.0) is Some
}

/// The mounts of a list of dependencies, one for each and in the order of the list.
pub open spec fn dependency_mounts(
    deps: Seq<(Seq<char>, Option<Seq<char>>, StdMountLocation)>,
) -> Seq<MountView>
    recommends
        forall|i: int| 0 <= i < deps.len() ==> mountable(deps[i]),
{
    Seq::new(deps.len(), |i: int| dependency_mount(deps[i].0, deps[i].1->0, deps[i].2))
}

/// Why a list of dependencies gave no mounts.
#[derive(Clone, Copy, Debug, PartialEq, Eq, Structural)]
pub enum DerivationError {
    /// The host path of the dependency at `index` could not be resolved.
    Unresolved { index: usize },
    /// The host path of the dependency at `index` has no file name to mount it under.
    NoFileName { index: usize },
}

impl DerivationError {
    /// The place in the list of the dependency that cannot be mounted.
    pub open spec fn at(self) -> usize {
        match self {
            DerivationError::Unresolved { index } => index,
            DerivationError::NoFileName { index } => index,
        }
    }

    /// The place in the list of the dependency that cannot be mounted.
    pub fn index(self) -> (index: usize)
        ensures
            index == self.at(),
    {
        match self {
            DerivationError::Unresolved { index } => index,
            DerivationError::NoFileName { index } => index,
        }
    }
}

impl Mount {
    /// The mount of the host artifact declared as `declared` and found at `resolved`,
    /// at `location`; nothing where `declared` has no file name.
    pub fn try_at_location(
        declared: &HostPath,
        resolved: HostPath,
        location: StdMountLocation,
    ) -> (mount: Option<Mount>)
        ensures
            file_name(declared@) is None ==> mount is None,
            file_name(declared@) is Some ==> mount is Some && mount->0@ == dependency_mount(
                declared@,
                resolved@,
                location,
            ),
    {
        match declared.file_name() {
            None => None,
            Some(name) => {
                let mut sbx = location.into_absolute_path();
                sbx.append("/");
                sbx.append(name.as_str());
                proof {
                    reveal_strlit("/");
                    assert("/"@ == seq![SEPARATOR]);
                }
                Some(Mount::Fs { readonly: true, host_path: resolved, sbx_path: SbxPath(sbx) })
            },
        }
    }

    /// The mount of the host artifact declared as `declared` and found at `resolved`,
    /// at `location`.
    pub fn at_location(declared: &HostPath, resolved: HostPath, location: StdMountLocation) -> (mount:
        Mount)
        requires
            file_name(declared@) is Some,
        ensures
            mount@ == dependency_mount(declared@, resolved@, location),
    {
        Mount::try_at_location(declared, resolved, location).unwrap()
    }
}

/// The mounts of `deps`, one for each and in their order. Each dependency is the path
/// that was declared, what it was resolved to, if anything, and its role. Fails at the
/// first dependency that cannot be mounted, and gives no mount at all then: no sandbox
/// is set up from a part of what was declared.
pub fn derive_mounts(deps: &Vec<(HostPath, Option<HostPath>, StdMountLocation)>) -> (res: Result<
    Vec<Mount>,
    DerivationError,
>)
    ensures
        match res {
            Ok(mounts) => {
                &&& forall|i: int| 0 <= i < deps.len() ==> mountable(#[trigger] deps.deep_view()[i])
                &&& mounts.deep_view() == dependency_mounts(deps.deep_view())
            },
            Err(error) => {
                let index = error.at() as int;
                &&& index < deps.len()
                &&& forall|i: int| 0 <= i < index ==> mountable(#[trigger] deps.deep_view()[i])
                &&& match error {
                    DerivationError::Unresolved { .. } => deps.deep_view()[index].1 is None,
                    DerivationError::NoFileName { .. } => {
                        &&& deps.deep_view()[index].1 is Some
                        &&& file_name(deps.deep_view()[index].0) is None
                    },
                }
            },
        },
{
    let ghost all = deps.deep_view();
    let mut mounts: Vec<Mount> = Vec::new();
    let mut i: usize = 0;
    while i < deps.len()
        invariant
            i <= deps.len(),
            all == deps.deep_view(),
            forall|j: int| 0 <= j < i ==> mountable(#[trigger] all[j]),
            mounts.deep_view() == dependency_mounts(all.take(i as int)),
        decreases deps.len() - i,
    {
        let ghost before = mounts.deep_view();
        let resolved = match &deps[i].1 {
            Some(resolved) => resolved.clone(),
            None => {
                return Err(DerivationError::Unresolved { index: i });
            },
        };
        match Mount::try_at_location(&deps[i].0, resolved, deps[i].2) {
            Some(mount) => {
                mounts.push(mount);
                assert(mounts.deep_view() =~= before.push(mount@));
            },
            None => {
                return Err(DerivationError::NoFileName { index: i });
            },
        }
        assert(mounts.deep_view() =~= dependency_mounts(all.take(i + 1)));
        i += 1;
    }
    assert(all.take(deps.len() as int) == all);
    Ok(mounts)
}

/// Dependency derivation is role-correct: the mount of a dependency is a read-only bind
/// of the real location of the artifact, and the sandbox path is the directory of the
/// dependency's role, a separator and the file name of the path as it was declared,
/// whatever the artifact is called where it really lies. So the artifact stands
/// directly in that directory, under the name by which it was declared.
pub proof fn law_derivation_role_correct(
    declared: Seq<char>,
    resolved: Seq<char>,
    location: StdMountLocation,
)
    requires
        file_name(declared) is Some,
    ensures
        ({
            let dir = location.directory();
            let at = dir.len() as int;
            &&& dependency_mount(declared, resolved, location) matches MountView::Fs {
                readonly,
                host_path,
                sbx_path,
            }
            &&& readonly
            &&& host_path == resolved
            &&& sbx_path.take(at) == dir
            &&& sbx_path[at] == SEPARATOR
            &&& sbx_path.skip(at + 1) == file_name(declared)->0
            &&& !sbx_path.skip(at + 1).contains(SEPARATOR)
            &&& file_name(sbx_path) == file_name(declared)
        }),
{
    let dir = location.directory();
    let at = dir.len() as int;
    let name = file_name(declared)->0;
    let sbx_path = dir + seq![SEPARATOR] + name;
    lemma_file_name_is_component(declared);
    lemma_file_name_of_joined(dir, name);
    assert(sbx_path.take(at) == dir);
    assert(sbx_path.skip(at + 1) == name);
}

} // verus!
