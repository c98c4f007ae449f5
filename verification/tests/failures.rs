use unpak::derivation::DerivationError;
use unpak::execution::{CmdOutcome, SpawnFailure};
use unpak::failure::Failure;
use unpak::sandbox::{Bubblewrap, ConfigError, Warning};

#[test]
fn success_is_no_failure() {
    assert_eq!(CmdOutcome::Exited { code: Some(0) }.failure(), None);
}

#[test]
fn exit_code_is_handed_on_unchanged() {
    assert_eq!(
        CmdOutcome::Exited { code: Some(1) }.failure(),
        Some(Failure::NonZeroExit { code: Some(1) })
    );
    assert_eq!(
        CmdOutcome::Exited { code: Some(127) }.failure(),
        Some(Failure::NonZeroExit { code: Some(127) })
    );
    assert_eq!(
        CmdOutcome::Exited { code: Some(-9) }.failure(),
        Some(Failure::NonZeroExit { code: Some(-9) })
    );
    assert_eq!(
        CmdOutcome::Exited { code: None }.failure(),
        Some(Failure::NonZeroExit { code: None })
    );
}

#[test]
fn missing_tool_is_told_from_other_refusals() {
    assert_eq!(
        CmdOutcome::SpawnFailed { failure: SpawnFailure::NotFound }.failure(),
        Some(Failure::ToolMissing)
    );
    assert_eq!(
        CmdOutcome::SpawnFailed { failure: SpawnFailure::Other }.failure(),
        Some(Failure::Spawn)
    );
}

#[test]
fn missing_program_is_a_configuration_failure() {
    let error = Bubblewrap::new().finalize().err().unwrap();
    assert_eq!(error, ConfigError::NoProgram);
    assert_eq!(Failure::from(error), Failure::Configuration);
}

#[test]
fn path_without_file_name_is_a_resolution_failure() {
    assert_eq!(
        Failure::from(DerivationError::NoFileName { index: 4 }),
        Failure::Resolution { index: 4 }
    );
    assert_eq!(
        Failure::from(DerivationError::NoFileName { index: 0 }),
        Failure::Resolution { index: 0 }
    );
}

#[test]
fn unresolved_path_is_a_resolution_failure() {
    assert_eq!(
        Failure::from(DerivationError::Unresolved { index: 7 }),
        Failure::Resolution { index: 7 }
    );
}

#[test]
fn warnings_say_what_they_are_about() {
    assert_eq!(Warning::JobControlBroken.message(), "setsid will break job control.");
    assert_eq!(Warning::EnvironmentInherited.message(), "environment variables are inherited");
    assert_eq!(
        Warning::TerminalControllable.message(),
        "sandbox escape may be possible because process can control terminal."
    );
}
