//! What is put into a sandbox: directories, bind mounts and symlinks, and the launcher
//! arguments that ask for them.

use vstd::prelude::*;
use crate::path::{HostPath, SbxPath};

verus! {

/// One filesystem operation applied while the sandbox is set up.
#[derive(Debug)]
pub enum Mount {
    /// An empty directory with no host backing.
    Touch { sbx_path: SbxPath },
    /// A host path made visible at a sandbox path.
    Fs { readonly: bool, host_path: HostPath, sbx_path: SbxPath },
}

/// A symlink created inside the sandbox once all mounts are in place.
#[derive(Debug)]
pub struct Symlink {
    /// Where the symlink is created.
    pub dest: SbxPath,
    /// Where the symlink points to.
    pub src: SbxPath,
}

/// The mathematical value of a [`Mount`].
pub enum MountView {
    Touch { sbx_path: Seq<char> },
    Fs { readonly: bool, host_path: Seq<char>, sbx_path: Seq<char> },
}

/// The mathematical value of a [`Symlink`].
pub struct SymlinkView {
    pub dest: Seq<char>,
    pub src: Seq<char>,
}

impl View for Mount {
    type V = MountView;

    open spec fn view(&self) -> MountView {
        match *self {
            Mount::Touch { sbx_path } => MountView::Touch { sbx_path: sbx_path@ },
            Mount::Fs { readonly, host_path, sbx_path } => MountView::Fs {
                readonly,
                host_path: host_path@,
                sbx_path: sbx_path@,
            },
        }
    }
}

impl DeepView for Mount {
    type V = MountView;

    open spec fn deep_view(&self) -> MountView {
        self@
    }
}

impl View for Symlink {
    type V = SymlinkView;

    open spec fn view(&self) -> SymlinkView {
        SymlinkView { dest: self.dest@, src: self.src@ }
    }
}

impl DeepView for Symlink {
    type V = SymlinkView;

    open spec fn deep_view(&self) -> SymlinkView {
        self@
    }
}

/// A host path and the sandbox path at which it is to be seen make a read-only bind.
impl From<(HostPath, SbxPath)> for Mount {
    fn from(pair: (HostPath, SbxPath)) -> (mount: Mount) {
        Mount::Fs { readonly: true, host_path: pair.0, sbx_path: pair.1 }
    }
}

impl vstd::std_specs::convert::FromSpecImpl<(HostPath, SbxPath)> for Mount {
    open spec fn obeys_from_spec() -> bool {
        true
    }

    open spec fn from_spec(pair: (HostPath, SbxPath)) -> Mount {
        Mount::Fs { readonly: true, host_path: pair.0, sbx_path: pair.1 }
    }
}

impl MountView {
    /// The launcher arguments that request this mount: the flag, then its paths.
    pub open spec fn args(self) -> Seq<Seq<char>> {
        match self {
            MountView::Touch { sbx_path } => seq!["--dir"@, sbx_path],
            MountView::Fs { readonly, host_path, sbx_path } => seq![
                if readonly { "--ro-bind"@ } else { "--bind"@ },
                host_path,
                sbx_path,
            ],
        }
    }
}

impl SymlinkView {
    /// The launcher arguments that request this symlink: the flag, the target, the link.
    pub open spec fn args(self) -> Seq<Seq<char>> {
        seq!["--symlink"@, self.src, self.dest]
    }
}

/// The launcher arguments of a list of mounts, each mount's in the order of the list.
pub open spec fn mounts_args(mounts: Seq<MountView>) -> Seq<Seq<char>>
    decreases mounts.len(),
{
    if mounts.len() == 0 {
        seq![]
    } else {
        mounts_args(mounts.drop_last()) + mounts.last().args()
    }
}

/// The launcher arguments of a list of symlinks, each symlink's in the order of the list.
pub open spec fn symlinks_args(symlinks: Seq<SymlinkView>) -> Seq<Seq<char>>
    decreases symlinks.len(),
{
    if symlinks.len() == 0 {
        seq![]
    } else {
        symlinks_args(symlinks.drop_last()) + symlinks.last().args()
    }
}

impl Mount {
    /// Appends the launcher arguments of this mount to `args`.
    pub fn push_args(&self, args: &mut Vec<String>)
        ensures
            final(args).deep_view() == old(args).deep_view() + self@.args(),
    {
        match self {
            Mount::Touch { sbx_path } => {
                args.push("--dir".to_owned());
                args.push(sbx_path.0.clone());
            },
            Mount::Fs { readonly, host_path, sbx_path } => {
                if *readonly {
                    args.push("--ro-bind".to_owned());
                } else {
                    args.push("--bind".to_owned());
                }
                args.push(host_path.0.clone());
                args.push(sbx_path.0.clone());
            },
        }
    }
}

impl Symlink {
    /// Appends the launcher arguments of this symlink to `args`.
    pub fn push_args(&self, args: &mut Vec<String>)
        ensures
            final(args).deep_view() == old(args).deep_view() + self@.args(),
    {
        args.push("--symlink".to_owned());
        args.push(self.src.0.clone());
        args.push(self.dest.0.clone());
    }
}

/// Appends the launcher arguments of `mounts` to `args`, mount by mount.
pub fn push_mounts_args(mounts: &Vec<Mount>, args: &mut Vec<String>)
    ensures
        final(args).deep_view() == old(args).deep_view() + mounts_args(mounts.deep_view()),
{
    let ghost before = args.deep_view();
    let ghost all = mounts.deep_view();
    let mut i: usize = 0;
    while i < mounts.len()
        invariant
            i <= mounts.len(),
            all == mounts.deep_view(),
            args.deep_view() == before + mounts_args(all.take(i as int)),
        decreases mounts.len() - i,
    {
        mounts[i].push_args(args);
        proof {
            assert(all.take(i + 1).drop_last() == all.take(i as int));
            assert(all.take(i + 1).last() == mounts[i as int]@);
        }
        i += 1;
    }
    proof {
        assert(all.take(mounts.len() as int) == all);
    }
}

/// Appends the launcher arguments of `symlinks` to `args`, symlink by symlink.
pub fn push_symlinks_args(symlinks: &Vec<Symlink>, args: &mut Vec<String>)
    ensures
        final(args).deep_view() == old(args).deep_view() + symlinks_args(symlinks.deep_view()),
{
    let ghost before = args.deep_view();
    let ghost all = symlinks.deep_view();
    let mut i: usize = 0;
    while i < symlinks.len()
        invariant
            i <= symlinks.len(),
            all == symlinks.deep_view(),
            args.deep_view() == before + symlinks_args(all.take(i as int)),
        decreases symlinks.len() - i,
    {
        symlinks[i].push_args(args);
        proof {
            assert(all.take(i + 1).drop_last() == all.take(i as int));
            assert(all.take(i + 1).last() == symlinks[i as int]@);
        }
        i += 1;
    }
    proof {
        assert(all.take(symlinks.len() as int) == all);
    }
}

/// Where the arguments of the mount at `i` begin among the arguments of `mounts`.
pub open spec fn mount_offset(mounts: Seq<MountView>, i: int) -> int {
    mounts_args(mounts.take(i)).len() as int
}

/// The arguments of two lists of mounts, one behind the other, are the arguments of
/// the first followed by those of the second.
pub proof fn lemma_mounts_args_concat(first: Seq<MountView>, second: Seq<MountView>)
    ensures
        mounts_args(first + second) == mounts_args(first) + mounts_args(second),
    decreases second.len(),
{
    if second.len() == 0 {
        assert(first + second == first);
    } else {
        lemma_mounts_args_concat(first, second.drop_last());
        assert((first + second).drop_last() == first + second.drop_last());
    }
}

/// Mounts keep their order: in the arguments of a list of mounts, those of each mount
/// stand as one run, and the run of a later mount begins where that of the mount
/// before it ends.
pub proof fn law_mount_order(mounts: Seq<MountView>, i: int)
    requires
        0 <= i < mounts.len(),
    ensures
        0 <= mount_offset(mounts, i) < mount_offset(mounts, i + 1) <= mounts_args(mounts).len(),
        mount_offset(mounts, i + 1) == mount_offset(mounts, i) + mounts[i].args().len(),
        mounts_args(mounts).subrange(mount_offset(mounts, i), mount_offset(mounts, i + 1))
            == mounts[i].args(),
{
    let upto = mounts.take(i + 1);
    assert(upto.drop_last() == mounts.take(i));
    assert(upto.last() == mounts[i]);
    assert(mounts == upto + mounts.skip(i + 1));
    lemma_mounts_args_concat(upto, mounts.skip(i + 1));
}

} // verus!
