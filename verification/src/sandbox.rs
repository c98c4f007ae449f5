//! The sandbox builder: accumulates what a sandbox holds and turns it into one
//! launcher invocation.

use vstd::prelude::*;
use crate::mount::{
    Mount, MountView, Symlink, SymlinkView, law_mount_order, mount_offset, mounts_args,
    push_mounts_args, push_symlinks_args, symlinks_args,
};

verus! {

/// The program that sets up the namespaces and runs the target inside them.
pub const LAUNCHER: &'static str = "bwrap";

/// What the sandboxed process finds in its environment.
#[derive(Debug)]
pub enum EnvVars {
    /// Every variable of the host.
    Inherit,
    /// Nothing but the listed variables, each a name and a value.
    Explicit(Vec<(String, String)>),
}

/// The mathematical value of an [`EnvVars`].
pub enum EnvVarsView {
    Inherit,
    Explicit(Seq<(Seq<char>, Seq<char>)>),
}

impl View for EnvVars {
    type V = EnvVarsView;

    open spec fn view(&self) -> EnvVarsView {
        match *self {
            EnvVars::Inherit => EnvVarsView::Inherit,
            EnvVars::Explicit(list) => EnvVarsView::Explicit(list.deep_view()),
        }
    }
}

/// The launcher arguments that set the listed variables, in the order of the list.
pub open spec fn setenv_args(list: Seq<(Seq<char>, Seq<char>)>) -> Seq<Seq<char>>
    decreases list.len(),
{
    if list.len() == 0 {
        seq![]
    } else {
        setenv_args(list.drop_last()) + seq!["--setenv"@, list.last().0, list.last().1]
    }
}

impl EnvVarsView {
    /// The launcher arguments of this policy: nothing when the host environment is
    /// inherited, else the request to clear it followed by the explicit variables.
    pub open spec fn args(self) -> Seq<Seq<char>> {
        match self {
            EnvVarsView::Inherit => seq![],
            EnvVarsView::Explicit(list) => seq!["--clearenv"@] + setenv_args(list),
        }
    }
}

impl EnvVars {
    /// The list of explicit variables, for changing it in place.
    pub fn set_mut(&mut self) -> (list: &mut Vec<(String, String)>)
        requires
            old(self)@ is Explicit,
        ensures
            list.deep_view() == old(self)@->Explicit_0,
            final(self)@ == EnvVarsView::Explicit(final(list).deep_view()),
    {
        match self {
            EnvVars::Inherit => vstd::pervasive::unreached(),
            EnvVars::Explicit(list) => list,
        }
    }

    /// Appends the launcher arguments of this policy to `args`.
    pub fn push_args(&self, args: &mut Vec<String>)
        ensures
            final(args).deep_view() == old(args).deep_view() + self@.args(),
    {
        match self {
            EnvVars::Inherit => {},
            EnvVars::Explicit(list) => {
                args.push("--clearenv".to_owned());
                let ghost vars = list.deep_view();
                let ghost before = args.deep_view();
                let mut i: usize = 0;
                while i < list.len()
                    invariant
                        i <= list.len(),
                        vars == list.deep_view(),
                        args.deep_view() == before + setenv_args(vars.take(i as int)),
                    decreases list.len() - i,
                {
                    let ghost so_far = args.deep_view();
                    args.push("--setenv".to_owned());
                    args.push(list[i].0.clone());
                    args.push(list[i].1.clone());
                    proof {
                        let done = vars.take(i + 1);
                        let var = (list[i as int].0@, list[i as int].1@);
                        assert(done.drop_last() == vars.take(i as int));
                        assert(done.last() == var);
                        assert(setenv_args(done) == setenv_args(vars.take(i as int)) + seq![
                            "--setenv"@,
                            var.0,
                            var.1,
                        ]);
                        assert(args.deep_view() =~= so_far + seq!["--setenv"@, var.0, var.1]);
                    }
                    i += 1;
                }
                proof {
                    assert(vars.take(list.len() as int) == vars);
                }
            },
        }
    }
}

/// An advisory remark on a sandbox; none of them stops the launch.
#[derive(Clone, Copy, Debug, PartialEq, Eq, Structural)]
pub enum Warning {
    /// A new session was requested, which breaks job control.
    JobControlBroken,
    /// The sandboxed process sees the whole host environment.
    EnvironmentInherited,
    /// The sandboxed process can control the invoking terminal.
    TerminalControllable,
}

impl Warning {
    /// What the remark says, as a sequence of characters.
    pub open spec fn text(self) -> Seq<char> {
        match self {
            Warning::JobControlBroken => "setsid will break job control."@,
            Warning::EnvironmentInherited => "environment variables are inherited"@,
            Warning::TerminalControllable =>
                "sandbox escape may be possible because process can control terminal."@,
        }
    }

    /// What the remark says.
    pub fn message(self) -> (text: &'static str)
        ensures
            text@ == self.text(),
    {
        match self {
            Warning::JobControlBroken => "setsid will break job control.",
            Warning::EnvironmentInherited => "environment variables are inherited",
            Warning::TerminalControllable => {
                "sandbox escape may be possible because process can control terminal."
            },
        }
    }
}

/// Why a builder could not be turned into an invocation.
#[derive(Clone, Copy, Debug, PartialEq, Eq, Structural)]
pub enum ConfigError {
    /// No program to run in the sandbox was ever set.
    NoProgram,
}

/// One call of the launcher, ready to be spawned.
#[derive(Debug)]
pub struct Invocation {
    /// The launcher to run.
    pub tool: String,
    /// Its arguments, in order; the sandboxed program is the last one.
    pub args: Vec<String>,
    /// Whether the child's standard output and error go to a null sink.
    pub detach_output: bool,
    /// Remarks to show to the user before the launch.
    pub warnings: Vec<Warning>,
}

/// The mathematical value of an [`Invocation`].
pub struct InvocationView {
    pub tool: Seq<char>,
    pub args: Seq<Seq<char>>,
    pub detach_output: bool,
    pub warnings: Seq<Warning>,
}

impl View for Invocation {
    type V = InvocationView;

    open spec fn view(&self) -> InvocationView {
        InvocationView {
            tool: self.tool@,
            args: self.args.deep_view(),
            detach_output: self.detach_output,
            warnings: self.warnings@,
        }
    }
}

/// The sandbox builder.
#[derive(Debug)]
pub struct Bubblewrap {
    mounts: Vec<Mount>,
    symlinks: Vec<Symlink>,
    path: Option<String>,
    chdir: Option<String>,
    unshare_pid: bool,
    new_session: bool,
    detach_output: bool,
    program: Option<String>,
    envvars: EnvVars,
}

/// The mathematical value of a [`Bubblewrap`].
pub struct BubblewrapView {
    pub mounts: Seq<MountView>,
    pub symlinks: Seq<SymlinkView>,
    pub path: Option<Seq<char>>,
    pub chdir: Option<Seq<char>>,
    pub unshare_pid: bool,
    pub new_session: bool,
    pub detach_output: bool,
    pub program: Option<Seq<char>>,
    pub envvars: EnvVarsView,
}

impl View for Bubblewrap {
    type V = BubblewrapView;

    closed spec fn view(&self) -> BubblewrapView {
        BubblewrapView {
            mounts: self.mounts.deep_view(),
            symlinks: self.symlinks.deep_view(),
            path: self.path.deep_view(),
            chdir: self.chdir.deep_view(),
            unshare_pid: self.unshare_pid,
            new_session: self.new_session,
            detach_output: self.detach_output,
            program: self.program.deep_view(),
            envvars: self.envvars@,
        }
    }
}

impl BubblewrapView {
    /// A builder to which nothing has been added: no mount, no symlink, no program,
    /// every flag off, the host environment inherited.
    pub open spec fn empty() -> BubblewrapView {
        BubblewrapView {
            mounts: seq![],
            symlinks: seq![],
            path: None,
            chdir: None,
            unshare_pid: false,
            new_session: false,
            detach_output: false,
            program: None,
            envvars: EnvVarsView::Inherit,
        }
    }

    /// The arguments that override `PATH` inside the sandbox.
    pub open spec fn path_args(self) -> Seq<Seq<char>> {
        match self.path {
            Some(path) => seq!["--set-env"@, "PATH"@, path],
            None => seq![],
        }
    }

    /// The arguments that change the working directory.
    pub open spec fn chdir_args(self) -> Seq<Seq<char>> {
        match self.chdir {
            Some(dir) => seq!["--chdir"@, dir],
            None => seq![],
        }
    }

    /// The arguments that unshare namespaces and sessions.
    pub open spec fn isolation_args(self) -> Seq<Seq<char>> {
        (if self.unshare_pid {
            seq!["--unshare-pid"@]
        } else {
            seq![]
        }) + (if self.new_session {
            seq!["--new-session"@]
        } else {
            seq![]
        })
    }

    /// The arguments that set the sandbox up, short of its environment: the mounts in
    /// the order in which they were added, the symlinks likewise, the `PATH` override,
    /// the working directory, the PID namespace, the session.
    pub open spec fn setup_args(self) -> Seq<Seq<char>> {
        mounts_args(self.mounts) + symlinks_args(self.symlinks) + self.path_args()
            + self.chdir_args() + self.isolation_args()
    }

    /// Everything that precedes the program in the argument list: the setup, then the
    /// environment policy.
    pub open spec fn options(self) -> Seq<Seq<char>> {
        self.setup_args() + self.envvars.args()
    }

    /// This builder after `add_mount` was called on it with each of `added` in turn.
    pub open spec fn add_mount_each(self, added: Seq<MountView>) -> BubblewrapView
        decreases added.len(),
    {
        if added.len() == 0 {
            self
        } else {
            let before = self.add_mount_each(added.drop_last());
            BubblewrapView { mounts: before.mounts.push(added.last()), ..before }
        }
    }

    /// The remarks that the launch of this sandbox calls for.
    pub open spec fn warnings(self) -> Seq<Warning> {
        (if self.new_session {
            seq![Warning::JobControlBroken]
        } else {
            seq![]
        }) + (if self.envvars is Inherit {
            seq![Warning::EnvironmentInherited]
        } else {
            seq![]
        }) + (if !self.new_session && !self.detach_output {
            seq![Warning::TerminalControllable]
        } else {
            seq![]
        })
    }

    /// The invocation that this builder stands for, once a program is set.
    pub open spec fn invocation(self) -> InvocationView
        recommends
            self.program is Some,
    {
        InvocationView {
            tool: LAUNCHER@,
            args: self.options().push(self.program->0),
            detach_output: self.detach_output,
            warnings: self.warnings(),
        }
    }
}

/// Calls of `add_mount` change nothing but the list of mounts, which they extend at its
/// end in the order of the calls.
pub proof fn lemma_add_mount_each(builder: BubblewrapView, added: Seq<MountView>)
    ensures
        builder.add_mount_each(added) == (BubblewrapView {
            mounts: builder.mounts + added,
            ..builder
        }),
    decreases added.len(),
{
    if added.len() == 0 {
        assert(builder.mounts + added == builder.mounts);
    } else {
        lemma_add_mount_each(builder, added.drop_last());
        assert((builder.mounts + added.drop_last()).push(added.last()) == builder.mounts + added);
    }
}

/// Mount ordering is preserved: whatever sequence of mounts is added to a builder by
/// calls of `add_mount`, the arguments of the launch begin with the flags of the mounts
/// that the builder held before and go on with those of the added mounts, each mount's
/// flags as one run and the runs in the order of the calls.
pub proof fn law_mount_ordering_preserved(builder: BubblewrapView, added: Seq<MountView>, i: int)
    requires
        builder.program is Some,
        0 <= i < added.len(),
    ensures
        ({
            let after = builder.add_mount_each(added);
            let args = after.invocation().args;
            let at = builder.mounts.len() + i;
            &&& after.mounts == builder.mounts + added
            &&& mount_offset(after.mounts, at) < mount_offset(after.mounts, at + 1) < args.len()
            &&& args.subrange(mount_offset(after.mounts, at), mount_offset(after.mounts, at + 1))
                == added[i].args()
        }),
{
    let after = builder.add_mount_each(added);
    let at = builder.mounts.len() + i;
    lemma_add_mount_each(builder, added);
    law_mount_order(after.mounts, at);
    assert(after.invocation().args.subrange(0, mounts_args(after.mounts).len() as int)
        == mounts_args(after.mounts));
    assert(after.invocation().args.subrange(
        mount_offset(after.mounts, at),
        mount_offset(after.mounts, at + 1),
    ) == mounts_args(after.mounts).subrange(
        mount_offset(after.mounts, at),
        mount_offset(after.mounts, at + 1),
    ));
}

/// Environment policy exclusivity: a launch with an explicit environment asks the
/// launcher to clear the host environment before anything is set, and is not remarked
/// on as inheriting it; with the empty explicit environment that request is all the
/// policy contributes. A launch that inherits the environment makes no such request.
pub proof fn law_environment_policy_exclusive(builder: BubblewrapView)
    requires
        builder.program is Some,
    ensures
        builder.envvars is Explicit ==> {
            &&& builder.invocation().args[builder.setup_args().len() as int] == "--clearenv"@
            &&& !builder.invocation().warnings.contains(Warning::EnvironmentInherited)
        },
        builder.envvars == EnvVarsView::Explicit(seq![]) ==> builder.envvars.args() == seq![
            "--clearenv"@,
        ],
        builder.envvars is Inherit ==> {
            &&& builder.envvars.args() == Seq::<Seq<char>>::empty()
            &&& builder.invocation().warnings.contains(Warning::EnvironmentInherited)
        },
{
    if builder.envvars is Explicit {
        assert(builder.envvars.args()[0] == "--clearenv"@);
        assert(builder.options()[builder.setup_args().len() as int] == builder.envvars.args()[0]);
    }
    if builder.envvars == EnvVarsView::Explicit(seq![]) {
        assert(setenv_args(seq![]) == Seq::<Seq<char>>::empty());
    }
    if builder.envvars is Inherit {
        let found = if builder.new_session { 1int } else { 0int };
        assert(builder.warnings()[found] == Warning::EnvironmentInherited);
    }
}

impl Bubblewrap {
    /// A builder to which nothing has been added.
    pub fn new() -> (builder: Bubblewrap)
        ensures
            builder@ == BubblewrapView::empty(),
    {
        let builder = Bubblewrap {
            mounts: Vec::new(),
            symlinks: Vec::new(),
            path: None,
            chdir: None,
            unshare_pid: false,
            new_session: false,
            detach_output: false,
            program: None,
            envvars: EnvVars::Inherit,
        };
        assert(builder@.mounts =~= seq![]);
        assert(builder@.symlinks =~= seq![]);
        builder
    }

    /// Adds `mount` behind the mounts added so far.
    pub fn add_mount(&mut self, mount: Mount) -> (this: &mut Bubblewrap)
        ensures
            this@ == (BubblewrapView { mounts: old(self)@.mounts.push(mount@), ..old(self)@ }),
            *final(self) == *final(this),
    {
        self.mounts.push(mount);
        assert(self@.mounts =~= old(self)@.mounts.push(mount@));
        self
    }

    /// This builder with `mount` behind the mounts added so far.
    pub fn with_mount(self, mount: Mount) -> (builder: Bubblewrap)
        ensures
            builder@ == (BubblewrapView { mounts: self@.mounts.push(mount@), ..self@ }),
    {
        let mut this = self;
        this.add_mount(mount);
        this
    }

    /// Adds `mounts`, in their order, behind the mounts added so far.
    pub fn add_mounts(&mut self, mounts: Vec<Mount>)
        ensures
            final(self)@ == (BubblewrapView {
                mounts: old(self)@.mounts + mounts.deep_view(),
                ..old(self)@
            }),
    {
        let mut rest = mounts;
        self.mounts.append(&mut rest);
        assert(self@.mounts =~= old(self)@.mounts + mounts.deep_view());
    }

    /// This builder with `mounts`, in their order, behind the mounts added so far.
    pub fn with_mounts(self, mounts: Vec<Mount>) -> (builder: Bubblewrap)
        ensures
            builder@ == (BubblewrapView { mounts: self@.mounts + mounts.deep_view(), ..self@ }),
    {
        let mut this = self;
        this.add_mounts(mounts);
        this
    }

    /// Adds `symlink` behind the symlinks added so far.
    pub fn add_symlink(&mut self, symlink: Symlink) -> (this: &mut Bubblewrap)
        ensures
            this@ == (BubblewrapView {
                symlinks: old(self)@.symlinks.push(symlink@),
                ..old(self)@
            }),
            *final(self) == *final(this),
    {
        self.symlinks.push(symlink);
        assert(self@.symlinks =~= old(self)@.symlinks.push(symlink@));
        self
    }

    /// This builder with `symlink` behind the symlinks added so far.
    pub fn with_symlink(self, symlink: Symlink) -> (builder: Bubblewrap)
        ensures
            builder@ == (BubblewrapView { symlinks: self@.symlinks.push(symlink@), ..self@ }),
    {
        let mut this = self;
        this.add_symlink(symlink);
        this
    }

    /// Adds `symlinks`, in their order, behind the symlinks added so far.
    pub fn add_symlinks(&mut self, symlinks: Vec<Symlink>) -> (this: &mut Bubblewrap)
        ensures
            this@ == (BubblewrapView {
                symlinks: old(self)@.symlinks + symlinks.deep_view(),
                ..old(self)@
            }),
            *final(self) == *final(this),
    {
        let mut rest = symlinks;
        self.symlinks.append(&mut rest);
        assert(self@.symlinks =~= old(self)@.symlinks + symlinks.deep_view());
        self
    }

    /// This builder with `symlinks`, in their order, behind the symlinks added so far.
    pub fn with_symlinks(self, symlinks: Vec<Symlink>) -> (builder: Bubblewrap)
        ensures
            builder@ == (BubblewrapView {
                symlinks: self@.symlinks + symlinks.deep_view(),
                ..self@
            }),
    {
        let mut this = self;
        this.add_symlinks(symlinks);
        this
    }

    /// Sets the program to run in the sandbox, in place of any set before.
    pub fn set_program(&mut self, program: String) -> (this: &mut Bubblewrap)
        ensures
            this@ == (BubblewrapView { program: Some(program@), ..old(self)@ }),
            *final(self) == *final(this),
    {
        self.program = Some(program);
        self
    }

    /// This builder with `program` to run in the sandbox, in place of any set before.
    pub fn with_program(self, program: String) -> (builder: Bubblewrap)
        ensures
            builder@ == (BubblewrapView { program: Some(program@), ..self@ }),
    {
        let mut this = self;
        this.set_program(program);
        this
    }

    /// This builder with standard output and error sent to a null sink, or not.
    pub fn with_detach_stdout(self, detach_stdout: bool) -> (builder: Bubblewrap)
        ensures
            builder@ == (BubblewrapView { detach_output: detach_stdout, ..self@ }),
    {
        let mut this = self;
        this.detach_output = detach_stdout;
        this
    }

    /// This builder with the sandboxed process in a session of its own, or not.
    pub fn with_new_session(self, setsid: bool) -> (builder: Bubblewrap)
        ensures
            builder@ == (BubblewrapView { new_session: setsid, ..self@ }),
    {
        let mut this = self;
        this.new_session = setsid;
        this
    }

    /// This builder with the sandboxed process in a PID namespace of its own, or not.
    pub fn with_unshare_pid(self, unshare: bool) -> (builder: Bubblewrap)
        ensures
            builder@ == (BubblewrapView { unshare_pid: unshare, ..self@ }),
    {
        let mut this = self;
        this.unshare_pid = unshare;
        this
    }

    /// This builder with `path` as the value of `PATH` inside the sandbox.
    pub fn with_path(self, path: String) -> (builder: Bubblewrap)
        ensures
            builder@ == (BubblewrapView { path: Some(path@), ..self@ }),
    {
        let mut this = self;
        this.path = Some(path);
        this
    }

    /// This builder with `dir` as the working directory of the sandboxed process.
    pub fn with_chdir(self, dir: String) -> (builder: Bubblewrap)
        ensures
            builder@ == (BubblewrapView { chdir: Some(dir@), ..self@ }),
    {
        let mut this = self;
        this.chdir = Some(dir);
        this
    }

    /// This builder with the host environment inherited, or with an empty explicit
    /// environment. Variables added before are forgotten either way.
    pub fn with_inherit_env(self, inherit: bool) -> (builder: Bubblewrap)
        ensures
            builder@ == (BubblewrapView {
                envvars: if inherit {
                    EnvVarsView::Inherit
                } else {
                    EnvVarsView::Explicit(seq![])
                },
                ..self@
            }),
    {
        let mut this = self;
        this.envvars = if inherit {
            EnvVars::Inherit
        } else {
            EnvVars::Explicit(Vec::new())
        };
        assert(!inherit ==> this.envvars@->Explicit_0 =~= seq![]);
        this
    }

    /// Whether the sandboxed process inherits the host environment.
    pub fn inherits_env(&self) -> (inherit: bool)
        ensures
            inherit == (self@.envvars is Inherit),
    {
        match self.envvars {
            EnvVars::Inherit => true,
            EnvVars::Explicit(_) => false,
        }
    }

    /// Adds the variable `id` with `value` behind the explicit variables added so far.
    pub fn add_envvar(&mut self, id: String, value: String) -> (this: &mut Bubblewrap)
        requires
            old(self)@.envvars is Explicit,
        ensures
            this@ == (BubblewrapView {
                envvars: EnvVarsView::Explicit(old(self)@.envvars->Explicit_0.push((id@, value@))),
                ..old(self)@
            }),
            *final(self) == *final(this),
    {
        let list = self.envvars.set_mut();
        let ghost before = list.deep_view();
        list.push((id, value));
        assert(list.deep_view() =~= before.push((id@, value@)));
        self
    }

    /// This builder with the variable `id` with `value` behind the explicit variables
    /// added so far.
    pub fn with_envvar(self, id: String, value: String) -> (builder: Bubblewrap)
        requires
            self@.envvars is Explicit,
        ensures
            builder@ == (BubblewrapView {
                envvars: EnvVarsView::Explicit(self@.envvars->Explicit_0.push((id@, value@))),
                ..self@
            }),
    {
        let mut this = self;
        this.add_envvar(id, value);
        this
    }

    /// Turns the builder into the one launcher invocation that it stands for. Fails,
    /// and yields nothing to spawn, exactly when no program was set. The builder is
    /// taken by value: nothing is left of it to change or to finalize again.
    pub fn finalize(self) -> (res: Result<Invocation, ConfigError>)
        ensures
            self@.program is None ==> res == Err::<Invocation, ConfigError>(ConfigError::NoProgram),
            self@.program is Some ==> res is Ok && res->Ok_0@ == self@.invocation(),
    {
        let ghost spec = self@;
        let Bubblewrap {
            mounts,
            symlinks,
            path,
            chdir,
            unshare_pid,
            new_session,
            detach_output,
            program,
            envvars,
        } = self;
        let program = match program {
            Some(program) => program,
            None => {
                return Err(ConfigError::NoProgram);
            },
        };
        let mut args: Vec<String> = Vec::new();
        let mut warnings: Vec<Warning> = Vec::new();
        assert(args.deep_view() =~= seq![]);
        push_mounts_args(&mounts, &mut args);
        push_symlinks_args(&symlinks, &mut args);
        if let Some(path) = path {
            args.push("--set-env".to_owned());
            args.push("PATH".to_owned());
            args.push(path);
        }
        assert(args.deep_view() =~= mounts_args(spec.mounts) + symlinks_args(spec.symlinks)
            + spec.path_args());
        if let Some(dir) = chdir {
            args.push("--chdir".to_owned());
            args.push(dir);
        }
        assert(args.deep_view() =~= mounts_args(spec.mounts) + symlinks_args(spec.symlinks)
            + spec.path_args() + spec.chdir_args());
        if unshare_pid {
            args.push("--unshare-pid".to_owned());
        }
        if new_session {
            warnings.push(Warning::JobControlBroken);
            args.push("--new-session".to_owned());
        }
        assert(args.deep_view() =~= spec.setup_args());
        if let EnvVars::Inherit = envvars {
            warnings.push(Warning::EnvironmentInherited);
        }
        envvars.push_args(&mut args);
        if !new_session && !detach_output {
            warnings.push(Warning::TerminalControllable);
        }
        assert(warnings@ =~= spec.warnings());
        assert(args.deep_view() =~= spec.options());
        args.push(program);
        assert(args.deep_view() =~= spec.options().push(spec.program->0));
        Ok(Invocation { tool: LAUNCHER.to_owned(), args, detach_output, warnings })
    }
}

} // verus!