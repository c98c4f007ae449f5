use unpak::execution::{BuildState, CmdOutcome, SpawnFailure};
use unpak::project::{BuildCmd, BuildProcess, ProjectError, ProjectId, SourceProject};

fn cmd(program: &str, arguments: &[&str]) -> BuildCmd {
    BuildCmd {
        program: program.to_string(),
        arguments: arguments.iter().map(|a| a.to_string()).collect(),
    }
}

fn three() -> BuildProcess {
    BuildProcess::Cmds(vec![
        cmd("./configure", &["--prefix=/usr"]),
        cmd("make", &["-j", "4"]),
        cmd("make", &["install"]),
    ])
}

fn exited(code: i32) -> CmdOutcome {
    CmdOutcome::Exited { code: Some(code) }
}

/// Runs the build to its end, taking the outcome of each command from `outcomes`, and
/// tells which commands ran.
fn drive(build: &BuildProcess, outcomes: &[CmdOutcome]) -> (BuildState, Vec<String>) {
    let mut state = build.start();
    let mut ran = Vec::new();
    let mut reported = 0;
    while let Some(cmd) = build.command(&state) {
        ran.push(format!("{} {}", cmd.program, cmd.arguments.join(" ")));
        state = build.advance(state, outcomes[reported]);
        reported += 1;
    }
    (state, ran)
}

#[test]
fn second_of_three_fails_and_third_never_runs() {
    let build = three();
    let (state, ran) = drive(&build, &[exited(0), exited(2), exited(0)]);
    assert_eq!(state, BuildState::Failed { index: 1, outcome: exited(2) });
    assert_eq!(ran, vec!["./configure --prefix=/usr", "make -j 4"]);
    let culprit = build.culprit(&state).unwrap();
    assert_eq!(culprit.program, "make");
    assert_eq!(culprit.arguments, vec!["-j", "4"]);
    assert!(build.command(&state).is_none());
}

#[test]
fn all_commands_succeed_in_order() {
    let build = three();
    let (state, ran) = drive(&build, &[exited(0), exited(0), exited(0)]);
    assert_eq!(state, BuildState::Succeeded);
    assert_eq!(ran, vec!["./configure --prefix=/usr", "make -j 4", "make install"]);
    assert!(build.culprit(&state).is_none());
}

#[test]
fn states_of_a_successful_build() {
    let build = three();
    let s0 = build.start();
    assert_eq!(s0, BuildState::Running { next: 0 });
    let s1 = build.advance(s0, exited(0));
    assert_eq!(s1, BuildState::Running { next: 1 });
    let s2 = build.advance(s1, exited(0));
    assert_eq!(s2, BuildState::Running { next: 2 });
    let s3 = build.advance(s2, exited(0));
    assert_eq!(s3, BuildState::Succeeded);
}

#[test]
fn first_command_fails() {
    let build = three();
    let (state, ran) = drive(&build, &[exited(1)]);
    assert_eq!(state, BuildState::Failed { index: 0, outcome: exited(1) });
    assert_eq!(ran.len(), 1);
}

#[test]
fn last_command_fails() {
    let build = three();
    let (state, ran) = drive(&build, &[exited(0), exited(0), exited(-1)]);
    assert_eq!(state, BuildState::Failed { index: 2, outcome: exited(-1) });
    assert_eq!(ran.len(), 3);
}

#[test]
fn a_command_that_does_not_start_is_fatal() {
    let build = three();
    let missing = CmdOutcome::SpawnFailed { failure: SpawnFailure::NotFound };
    let (state, ran) = drive(&build, &[missing]);
    assert_eq!(state, BuildState::Failed { index: 0, outcome: missing });
    assert_eq!(ran.len(), 1);
    let refused = CmdOutcome::SpawnFailed { failure: SpawnFailure::Other };
    let (state, ran) = drive(&build, &[exited(0), refused]);
    assert_eq!(state, BuildState::Failed { index: 1, outcome: refused });
    assert_eq!(ran.len(), 2);
}

#[test]
fn a_command_that_leaves_no_exit_code_is_fatal() {
    let build = three();
    let killed = CmdOutcome::Exited { code: None };
    let (state, _) = drive(&build, &[exited(0), killed]);
    assert_eq!(state, BuildState::Failed { index: 1, outcome: killed });
}

#[test]
fn only_exit_code_zero_is_success() {
    assert!(exited(0).succeeded());
    assert!(!exited(1).succeeded());
    assert!(!exited(-1).succeeded());
    assert!(!exited(i32::MAX).succeeded());
    assert!(!exited(i32::MIN).succeeded());
    assert!(!CmdOutcome::Exited { code: None }.succeeded());
    assert!(!CmdOutcome::SpawnFailed { failure: SpawnFailure::NotFound }.succeeded());
    assert!(!CmdOutcome::SpawnFailed { failure: SpawnFailure::Other }.succeeded());
}

#[test]
fn a_build_without_commands_is_over_at_once() {
    let build = BuildProcess::Cmds(Vec::new());
    let state = build.start();
    assert_eq!(state, BuildState::Succeeded);
    assert!(build.command(&state).is_none());
}

#[test]
fn a_build_that_is_over_stays_as_it_is() {
    let build = three();
    let failed = BuildState::Failed { index: 1, outcome: exited(3) };
    assert_eq!(build.advance(failed, exited(0)), failed);
    assert_eq!(build.advance(failed, exited(1)), failed);
    assert_eq!(build.advance(BuildState::Succeeded, exited(1)), BuildState::Succeeded);
    assert_eq!(build.advance(BuildState::Succeeded, exited(0)), BuildState::Succeeded);
}

#[test]
fn states_beyond_the_commands_name_no_command() {
    let build = three();
    assert!(build.command(&BuildState::Running { next: 3 }).is_none());
    assert!(build.command(&BuildState::Running { next: usize::MAX }).is_none());
    assert!(build.culprit(&BuildState::Failed { index: 3, outcome: exited(1) }).is_none());
    assert_eq!(build.advance(BuildState::Running { next: usize::MAX }, exited(0)), BuildState::Succeeded);
    assert_eq!(build.advance(BuildState::Running { next: 2 }, exited(0)), BuildState::Succeeded);
}

#[test]
fn project_build_begins_with_the_first_command() {
    let project = SourceProject::new(
        ProjectId::new("com.github.osten.unpak"),
        three(),
        vec![ProjectId::new("org.gnu.glibc")],
        vec![ProjectId::new("org.gnu.gcc")],
    )
    .unwrap();
    let state = project.build();
    assert_eq!(state, BuildState::Running { next: 0 });
    let first = project.build_process().command(&state).unwrap();
    assert_eq!(first.program, "./configure");
    assert_eq!(first.arguments, vec!["--prefix=/usr"]);
}

#[test]
fn project_without_commands_is_built_at_once() {
    let project = SourceProject::new(
        ProjectId::new("org.example.empty"),
        BuildProcess::Cmds(Vec::new()),
        Vec::new(),
        Vec::new(),
    )
    .unwrap();
    assert_eq!(project.build(), BuildState::Succeeded);
}

#[test]
fn project_keeps_what_it_was_made_of() {
    let project = SourceProject::new(
        ProjectId::new("a.b.c"),
        three(),
        vec![ProjectId::new("r.one"), ProjectId::new("r.two")],
        vec![ProjectId::new("b.one")],
    )
    .unwrap();
    assert_eq!(project.id(), &ProjectId::new("a.b.c"));
    assert_eq!(project.rdeps(), &vec![ProjectId::new("r.one"), ProjectId::new("r.two")]);
    assert_eq!(project.bdeps(), &vec![ProjectId::new("b.one")]);
    match project.build_process() {
        BuildProcess::Cmds(cmds) => assert_eq!(cmds.len(), 3),
    }
}

#[test]
fn project_that_depends_on_itself_is_turned_down() {
    let at_run = SourceProject::new(
        ProjectId::new("a.b.c"),
        three(),
        vec![ProjectId::new("x.y"), ProjectId::new("a.b.c")],
        Vec::new(),
    );
    assert_eq!(at_run.err(), Some(ProjectError::DependsOnItself));
    let at_build = SourceProject::new(
        ProjectId::new("a.b.c"),
        three(),
        vec![ProjectId::new("x.y")],
        vec![ProjectId::new("a.b.c")],
    );
    assert_eq!(at_build.err(), Some(ProjectError::DependsOnItself));
}

#[test]
fn project_ids_are_equal_when_their_names_are() {
    assert_eq!(ProjectId::new("org.gnu.glibc"), ProjectId::from("org.gnu.glibc".to_string()));
    assert_ne!(ProjectId::new("org.gnu.glibc"), ProjectId::new("org.gnu.gcc"));
    assert_ne!(ProjectId::new("org.gnu.glibc"), ProjectId::new("org.gnu.glibc "));
    let id = ProjectId::new("com.github.osten.unpak");
    assert_eq!(id.clone(), id);
    assert_eq!(id.0, "com.github.osten.unpak");
}

#[test]
fn is_among_finds_an_id_in_a_list() {
    let list = vec![ProjectId::new("a"), ProjectId::new("b")];
    assert!(ProjectId::new("a").is_among(&list));
    assert!(ProjectId::new("b").is_among(&list));
    assert!(!ProjectId::new("c").is_among(&list));
    assert!(!ProjectId::new("a").is_among(&Vec::new()));
}
