use unpak::stage::{Stage, StageError};

#[test]
fn each_stage_builds_the_next() {
    assert_eq!(Stage::Bootstrap.next(), Some(Stage::Stage1));
    assert_eq!(Stage::Stage1.next(), Some(Stage::Stage2));
    assert_eq!(Stage::Stage2.next(), None);
}

#[test]
fn only_the_next_stage_can_be_gone_on_to() {
    assert_eq!(Stage::Bootstrap.advance(Stage::Stage1), Ok(Stage::Stage1));
    assert_eq!(Stage::Stage1.advance(Stage::Stage2), Ok(Stage::Stage2));
    let all = [Stage::Bootstrap, Stage::Stage1, Stage::Stage2];
    for from in all {
        for to in all {
            let res = from.advance(to);
            if from.next() == Some(to) {
                assert_eq!(res, Ok(to));
            } else {
                assert_eq!(res, Err(StageError::NotNext { from, to }));
            }
        }
    }
}

#[test]
fn no_stage_can_be_skipped() {
    assert_eq!(
        Stage::Bootstrap.advance(Stage::Stage2),
        Err(StageError::NotNext { from: Stage::Bootstrap, to: Stage::Stage2 })
    );
}

#[test]
fn all_but_the_bootstrap_stage_run_sandboxed() {
    assert!(!Stage::Bootstrap.sandboxed());
    assert!(Stage::Stage1.sandboxed());
    assert!(Stage::Stage2.sandboxed());
}

#[test]
fn host_tools_are_shut_out_at_stage_two() {
    assert!(Stage::Bootstrap.host_tool_admitted());
    assert!(Stage::Stage1.host_tool_admitted());
    assert!(!Stage::Stage2.host_tool_admitted());
}
