//! The sandbox that every build runs in: what it always holds, exactly once each, and
//! what is added for the build at hand.

use vstd::prelude::*;
use crate::mount::{Mount, MountView, Symlink, SymlinkView};
use crate::path::{HostPath, SbxPath};
use crate::sandbox::{Bubblewrap, BubblewrapView, EnvVarsView, Invocation, InvocationView};

verus! {

/// Where the dynamic linker is found on the host.
pub const INTERPRETER_HOST: &'static str = "/lib64/ld-linux-x86-64.so.2";

/// Where the dynamic linker is found inside the sandbox.
pub const SBX_LD_LINUX: &'static str = "/usr/lib/ld-linux-x86-64.so.2";

/// The tool that rewrites the interpreter of a binary.
pub const PATCHER: &'static str = "patchelf";

/// The directories that exist in every sandbox, even if empty, so that later binds
/// have a parent to mount into.
pub open spec fn essential_directories() -> Seq<MountView> {
    seq![
        MountView::Touch { sbx_path: "/usr/sbin"@ },
        MountView::Touch { sbx_path: "/usr/bin"@ },
    ]
}

/// The read-only bind of the host's dynamic linker at its place in the sandbox.
pub open spec fn interpreter_mount() -> MountView {
    MountView::Fs { readonly: true, host_path: INTERPRETER_HOST@, sbx_path: SBX_LD_LINUX@ }
}

/// The symlinks that let binaries built for either filesystem layout find their
/// interpreter, libraries and programs.
pub open spec fn compatibility_symlinks() -> Seq<SymlinkView> {
    seq![
        SymlinkView { src: SBX_LD_LINUX@, dest: "/usr/lib64/ld-linux-x86-64.so.2"@ },
        SymlinkView { src: "/usr/lib"@, dest: "/lib"@ },
        SymlinkView { src: "/usr/lib64"@, dest: "/lib64"@ },
        SymlinkView { src: "/usr/bin"@, dest: "/bin"@ },
        SymlinkView { src: "/usr/sbin"@, dest: "/sbin"@ },
    ]
}

/// Whether `mount` is one of the directives that every sandbox holds.
pub open spec fn is_baseline(mount: MountView) -> bool {
    mount == essential_directories()[0] || mount == essential_directories()[1] || mount
        == interpreter_mount()
}

/// The mounts of `mounts` that are not already part of every sandbox, in their order.
pub open spec fn beyond_baseline(mounts: Seq<MountView>) -> Seq<MountView> {
    mounts.filter(|mount: MountView| !is_baseline(mount))
}

/// The sandbox that runs `program` with `mounts` added to what every sandbox holds:
/// the essential directories first, then those of `mounts` that are not directives of
/// every sandbox themselves, then the interpreter; the compatibility symlinks; an
/// explicit, empty environment.
pub open spec fn baseline(program: Seq<char>, mounts: Seq<MountView>) -> BubblewrapView {
    BubblewrapView {
        mounts: essential_directories() + beyond_baseline(mounts) + seq![interpreter_mount()],
        symlinks: compatibility_symlinks(),
        program: Some(program),
        envvars: EnvVarsView::Explicit(seq![]),
        ..BubblewrapView::empty()
    }
}

/// Whether `text` holds the characters of `literal`.
fn reads(text: &String, literal: &str) -> (same: bool)
    ensures
        same == (text@ == literal@),
{
    *text == literal.to_owned()
}

impl Mount {
    /// Whether this mount is one of the directives that every sandbox holds.
    pub fn is_baseline(&self) -> (yes: bool)
        ensures
            yes == is_baseline(self@),
    {
        match self {
            Mount::Touch { sbx_path } => reads(&sbx_path.0, "/usr/sbin") || reads(
                &sbx_path.0,
                "/usr/bin",
            ),
            Mount::Fs { readonly, host_path, sbx_path } => *readonly && reads(
                &host_path.0,
                INTERPRETER_HOST,
            ) && reads(&sbx_path.0, SBX_LD_LINUX),
        }
    }
}

/// The builder of the sandbox that runs `program` with `mounts` added to what every
/// sandbox holds. A supplied mount that is itself one of the directives of every
/// sandbox is left out, so that each of those stands once; the other supplied mounts
/// are taken as they come, also where they repeat one another.
pub fn baseline_sandbox(program: &str, mounts: Vec<Mount>) -> (builder: Bubblewrap)
    ensures
        builder@ == baseline(program@, mounts.deep_view()),
{
    let mut builder = Bubblewrap::new();
    builder.add_mount(Mount::Touch { sbx_path: SbxPath::new("/usr/sbin") });
    builder.add_mount(Mount::Touch { sbx_path: SbxPath::new("/usr/bin") });
    let ghost supplied = mounts.deep_view();
    assert(builder@.mounts =~= essential_directories() + beyond_baseline(supplied.take(0))) by {
        reveal(Seq::filter);
    }
    for mount in it: mounts
        invariant
            it.seq().len() == supplied.len(),
            forall|j: int| 0 <= j < supplied.len() ==> (#[trigger] it.seq()[j])@ == supplied[j],
            builder@ == (BubblewrapView {
                mounts: essential_directories() + beyond_baseline(supplied.take(it.index() as int)),
                ..BubblewrapView::empty()
            }),
    {
        proof {
            lemma_beyond_baseline_push(supplied.take(it.index() as int), mount@);
            assert(supplied.take(it.index() + 1) == supplied.take(it.index() as int).push(mount@));
        }
        if !mount.is_baseline() {
            builder.add_mount(mount);
        }
    }
    assert(supplied.take(supplied.len() as int) == supplied);
    builder.add_mount(
        Mount::Fs {
            readonly: true,
            host_path: HostPath::new(INTERPRETER_HOST),
            sbx_path: SbxPath::new(SBX_LD_LINUX),
        },
    );
    let mut symlinks: Vec<Symlink> = Vec::new();
    symlinks.push(
        Symlink {
            src: SbxPath::new(SBX_LD_LINUX),
            dest: SbxPath::new("/usr/lib64/ld-linux-x86-64.so.2"),
        },
    );
    symlinks.push(Symlink { src: SbxPath::new("/usr/lib"), dest: SbxPath::new("/lib") });
    symlinks.push(Symlink { src: SbxPath::new("/usr/lib64"), dest: SbxPath::new("/lib64") });
    symlinks.push(Symlink { src: SbxPath::new("/usr/bin"), dest: SbxPath::new("/bin") });
    symlinks.push(Symlink { src: SbxPath::new("/usr/sbin"), dest: SbxPath::new("/sbin") });
    assert(symlinks.deep_view() =~= compatibility_symlinks());
    builder.add_symlinks(symlinks);
    let builder = builder.with_program(program.to_owned()).with_inherit_env(false);
    assert(builder@.mounts =~= baseline(program@, supplied).mounts);
    assert(builder@.symlinks =~= baseline(program@, supplied).symlinks);
    builder
}

/// The invocation that launches `program` in the sandbox that holds `mounts` besides
/// what every sandbox holds, each directive of every sandbox exactly once.
pub fn launch_bubblewrap(program: &str, mounts: Vec<Mount>) -> (launch: Invocation)
    ensures
        launch@ == baseline(program@, mounts.deep_view()).invocation(),
{
    match baseline_sandbox(program, mounts).finalize() {
        Ok(launch) => launch,
        Err(_) => vstd::pervasive::unreached(),
    }
}

/// The invocation that sets the interpreter of the binary `program` to the dynamic
/// linker's place in the sandbox.
pub open spec fn interpreter_patch(program: Seq<char>) -> InvocationView {
    InvocationView {
        tool: PATCHER@,
        args: seq!["--set-interpreter"@, SBX_LD_LINUX@, program],
        detach_output: false,
        warnings: seq![],
    }
}

/// The invocation that makes the binary `program`, built for the host, look for its
/// interpreter where the sandbox has it.
pub fn patch_noncompliant(program: &str) -> (patch: Invocation)
    ensures
        patch@ == interpreter_patch(program@),
{
    let mut args: Vec<String> = Vec::new();
    args.push("--set-interpreter".to_owned());
    args.push(SBX_LD_LINUX.to_owned());
    args.push(program.to_owned());
    let patch = Invocation {
        tool: PATCHER.to_owned(),
        args,
        detach_output: false,
        warnings: Vec::new(),
    };
    assert(patch@.args =~= interpreter_patch(program@).args);
    assert(patch@.warnings =~= interpreter_patch(program@).warnings);
    patch
}

/// How often `mount` stands in `mounts`.
pub open spec fn occurrences(mounts: Seq<MountView>, mount: MountView) -> nat
    decreases mounts.len(),
{
    if mounts.len() == 0 {
        0
    } else {
        occurrences(mounts.drop_last(), mount) + if mounts.last() == mount {
            1nat
        } else {
            0nat
        }
    }
}

/// A mount put behind a list is kept or left out by what it is alone.
pub proof fn lemma_beyond_baseline_push(mounts: Seq<MountView>, mount: MountView)
    ensures
        beyond_baseline(mounts.push(mount)) == if is_baseline(mount) {
            beyond_baseline(mounts)
        } else {
            beyond_baseline(mounts).push(mount)
        },
{
    reveal(Seq::filter);
    assert(mounts.push(mount).drop_last() == mounts);
}

/// Leaving out the directives of every sandbox leaves out nothing else: every other
/// mount stays as often as it was there, and none of those directives stays.
pub proof fn lemma_beyond_baseline_occurrences(mounts: Seq<MountView>, mount: MountView)
    ensures
        occurrences(beyond_baseline(mounts), mount) == if is_baseline(mount) {
            0
        } else {
            occurrences(mounts, mount)
        },
    decreases mounts.len(),
{
    if mounts.len() == 0 {
        reveal(Seq::filter);
    } else {
        lemma_beyond_baseline_occurrences(mounts.drop_last(), mount);
        lemma_beyond_baseline_push(mounts.drop_last(), mounts.last());
        assert(mounts.drop_last().push(mounts.last()) == mounts);
        let kept = beyond_baseline(mounts.drop_last());
        assert(kept.push(mounts.last()).drop_last() == kept);
    }
}

/// A list that holds none of the directives of every sandbox stays as it is.
pub proof fn lemma_beyond_baseline_keeps(mounts: Seq<MountView>)
    requires
        forall|i: int| 0 <= i < mounts.len() ==> !is_baseline(#[trigger] mounts[i]),
    ensures
        beyond_baseline(mounts) == mounts,
    decreases mounts.len(),
{
    if mounts.len() == 0 {
        reveal(Seq::filter);
    } else {
        lemma_beyond_baseline_keeps(mounts.drop_last());
        lemma_beyond_baseline_push(mounts.drop_last(), mounts.last());
        assert(mounts.drop_last().push(mounts.last()) == mounts);
    }
}

/// A mount stands in two lists, one behind the other, as often as in both together.
pub proof fn lemma_occurrences_concat(first: Seq<MountView>, second: Seq<MountView>, mount: MountView)
    ensures
        occurrences(first + second, mount) == occurrences(first, mount) + occurrences(
            second,
            mount,
        ),
    decreases second.len(),
{
    if second.len() == 0 {
        assert(first + second == first);
    } else {
        lemma_occurrences_concat(first, second.drop_last(), mount);
        assert((first + second).drop_last() == first + second.drop_last());
    }
}

/// Baseline completeness: whatever mounts are supplied, the sandbox holds the two
/// essential directories and the interpreter exactly once each, also where they were
/// supplied again. Between them stand the supplied mounts that are none of these three,
/// in their order, each as often as it was supplied.
pub proof fn law_baseline_complete(program: Seq<char>, mounts: Seq<MountView>)
    ensures
        ({
            let held = baseline(program, mounts).mounts;
            &&& held.subrange(0, 2) == essential_directories()
            &&& held.subrange(2, held.len() - 1) == beyond_baseline(mounts)
            &&& held.last() == interpreter_mount()
            &&& occurrences(held, essential_directories()[0]) == 1
            &&& occurrences(held, essential_directories()[1]) == 1
            &&& occurrences(held, interpreter_mount()) == 1
            &&& forall|mount: MountView|
                !is_baseline(mount) ==> #[trigger] occurrences(held, mount) == occurrences(
                    mounts,
                    mount,
                )
            &&& (forall|i: int| 0 <= i < mounts.len() ==> !is_baseline(#[trigger] mounts[i]))
                ==> beyond_baseline(mounts) == mounts
        }),
{
    let kept = beyond_baseline(mounts);
    let held = baseline(program, mounts).mounts;
    let sbin = essential_directories()[0];
    let bin = essential_directories()[1];
    let interpreter = interpreter_mount();
    assert(held.subrange(0, 2) == essential_directories());
    assert(held.subrange(2, held.len() - 1) == kept);
    assert(sbin != bin) by {
        reveal_strlit("/usr/sbin");
        reveal_strlit("/usr/bin");
        assert("/usr/sbin"@.len() != "/usr/bin"@.len());
    }
    reveal_with_fuel(occurrences, 3);
    assert(essential_directories().drop_last() == seq![sbin]);
    assert(seq![sbin].drop_last() == Seq::<MountView>::empty());
    assert(seq![interpreter].drop_last() == Seq::<MountView>::empty());
    assert forall|mount: MountView| #[trigger]
        occurrences(held, mount) == occurrences(essential_directories(), mount) + occurrences(
            kept,
            mount,
        ) + occurrences(seq![interpreter], mount) by {
        lemma_occurrences_concat(essential_directories(), kept, mount);
        lemma_occurrences_concat(essential_directories() + kept, seq![interpreter], mount);
    }
    assert forall|mount: MountView| #[trigger]
        occurrences(kept, mount) == if is_baseline(mount) {
            0
        } else {
            occurrences(mounts, mount)
        } by {
        lemma_beyond_baseline_occurrences(mounts, mount);
    }
    if forall|i: int| 0 <= i < mounts.len() ==> !is_baseline(#[trigger] mounts[i]) {
        lemma_beyond_baseline_keeps(mounts);
    }
}

} // verus!
