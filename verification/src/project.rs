//! Projects, their dependencies and the commands that build them.

use vstd::prelude::*;

verus! {

/// The name of a project, in reverse domain name notation.
#[derive(Debug, Hash)]
pub struct ProjectId(pub String);

impl View for ProjectId {
    type V = Seq<char>;

    open spec fn view(&self) -> Seq<char> {
        self.0@
    }
}

impl DeepView for ProjectId {
    type V = Seq<char>;

    open spec fn deep_view(&self) -> Seq<char> {
        self.0@
    }
}

impl PartialEq for ProjectId {
    fn eq(&self, other: &ProjectId) -> (equal: bool) {
        self.0 == other.0
    }
}

impl Eq for ProjectId {

}

impl vstd::std_specs::cmp::PartialEqSpecImpl for ProjectId {
    open spec fn obeys_eq_spec() -> bool {
        true
    }

    open spec fn eq_spec(&self, other: &ProjectId) -> bool {
        self@ == other@
    }
}

impl Clone for ProjectId {
    fn clone(&self) -> (copy: ProjectId)
        ensures
            copy@ == self@,
    {
        ProjectId(self.0.clone())
    }
}

impl From<String> for ProjectId {
    fn from(other: String) -> (id: ProjectId) {
        ProjectId(other)
    }
}

impl vstd::std_specs::convert::FromSpecImpl<String> for ProjectId {
    open spec fn obeys_from_spec() -> bool {
        true
    }

    open spec fn from_spec(other: String) -> ProjectId {
        ProjectId(other)
    }
}

impl ProjectId {
    /// The project name with the characters of `name`.
    pub fn new(name: &str) -> (id: ProjectId)
        ensures
            id@ == name@,
    {
        ProjectId(name.to_owned())
    }

    /// Whether this project is one of `list`.
    pub fn is_among(&self, list: &Vec<ProjectId>) -> (found: bool)
        ensures
            found == list.deep_view().contains(self@),
    {
        let mut i: usize = 0;
        while i < list.len()
            invariant
                i <= list.len(),
                forall|j: int| 0 <= j < i ==> list.deep_view()[j] != self@,
            decreases list.len() - i,
        {
            if list[i] == *self {
                assert(list.deep_view()[i as int] == self@);
                return true;
            }
            i += 1;
        }
        false
    }
}

/// One external command of a build: a program and its arguments, handed on as they
/// stand.
#[derive(Debug)]
pub struct BuildCmd {
    /// The program to run.
    pub program: String,
    /// Its arguments, each handed on as one argument.
    pub arguments: Vec<String>,
}

/// The mathematical value of a [`BuildCmd`].
pub struct BuildCmdView {
    pub program: Seq<char>,
    pub arguments: Seq<Seq<char>>,
}

impl View for BuildCmd {
    type V = BuildCmdView;

    open spec fn view(&self) -> BuildCmdView {
        BuildCmdView { program: self.program@, arguments: self.arguments.deep_view() }
    }
}

impl DeepView for BuildCmd {
    type V = BuildCmdView;

    open spec fn deep_view(&self) -> BuildCmdView {
        self@
    }
}

/// How a project is built.
#[derive(Debug)]
pub enum BuildProcess {
    /// By running commands one after the other.
    Cmds(Vec<BuildCmd>),
}

impl View for BuildProcess {
    type V = Seq<BuildCmdView>;

    open spec fn view(&self) -> Seq<BuildCmdView> {
        match *self {
            BuildProcess::Cmds(cmds) => cmds.deep_view(),
        }
    }
}

/// Why a project description was turned down.
#[derive(Clone, Copy, Debug, PartialEq, Eq, Structural)]
pub enum ProjectError {
    /// The project names itself among its own dependencies.
    DependsOnItself,
}

/// A project that is built from source.
#[derive(Debug)]
pub struct SourceProject {
    id: ProjectId,
    build: BuildProcess,
    rdeps: Vec<ProjectId>,
    bdeps: Vec<ProjectId>,
}

/// The mathematical value of a [`SourceProject`].
pub struct SourceProjectView {
    pub id: Seq<char>,
    pub build: Seq<BuildCmdView>,
    pub rdeps: Seq<Seq<char>>,
    pub bdeps: Seq<Seq<char>>,
}

impl SourceProjectView {
    /// No project depends on itself, neither to run nor to be built.
    pub open spec fn well_formed(self) -> bool {
        !self.rdeps.contains(self.id) && !self.bdeps.contains(self.id)
    }
}

impl View for SourceProject {
    type V = SourceProjectView;

    closed spec fn view(&self) -> SourceProjectView {
        SourceProjectView {
            id: self.id@,
            build: self.build@,
            rdeps: self.rdeps.deep_view(),
            bdeps: self.bdeps.deep_view(),
        }
    }
}

impl SourceProject {
    #[verifier::type_invariant]
    spec fn independent(self) -> bool {
        self@.well_formed()
    }

    /// The project `id`, built by `build`, which needs `rdeps` to run and `bdeps` to be
    /// built. Turned down exactly when `id` is among its own dependencies.
    pub fn new(
        id: ProjectId,
        build: BuildProcess,
        rdeps: Vec<ProjectId>,
        bdeps: Vec<ProjectId>,
    ) -> (res: Result<SourceProject, ProjectError>)
        ensures
            match res {
                Ok(project) => {
                    &&& project@ == (SourceProjectView {
                        id: id@,
                        build: build@,
                        rdeps: rdeps.deep_view(),
                        bdeps: bdeps.deep_view(),
                    })
                    &&& project@.well_formed()
                },
                Err(ProjectError::DependsOnItself) => {
                    rdeps.deep_view().contains(id@) || bdeps.deep_view().contains(id@)
                },
            },
    {
        if id.is_among(&rdeps) || id.is_among(&bdeps) {
            Err(ProjectError::DependsOnItself)
        } else {
            Ok(SourceProject { id, build, rdeps, bdeps })
        }
    }

    /// The name of the project.
    pub fn id(&self) -> (id: &ProjectId)
        ensures
            id@ == self@.id,
    {
        &self.id
    }

    /// How the project is built.
    pub fn build_process(&self) -> (build: &BuildProcess)
        ensures
            build@ == self@.build,
    {
        &self.build
    }

    /// The projects that this one needs at run time.
    pub fn rdeps(&self) -> (rdeps: &Vec<ProjectId>)
        ensures
            rdeps.deep_view() == self@.rdeps,
            !rdeps.deep_view().contains(self@.id),
    {
        proof {
            use_type_invariant(self);
        }
        &self.rdeps
    }

    /// The projects that this one needs only while it is built.
    pub fn bdeps(&self) -> (bdeps: &Vec<ProjectId>)
        ensures
            bdeps.deep_view() == self@.bdeps,
            !bdeps.deep_view().contains(self@.id),
    {
        proof {
            use_type_invariant(self);
        }
        &self.bdeps
    }
}

} // verus!
