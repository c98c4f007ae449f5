use unpak::launch::{
    baseline_sandbox, launch_bubblewrap, patch_noncompliant, INTERPRETER_HOST, PATCHER, SBX_LD_LINUX,
};
use unpak::derivation::derive_mounts;
use unpak::mount::Mount;
use unpak::path::{HostPath, SbxPath, StdMountLocation};
use unpak::sandbox::{Warning, LAUNCHER};

fn count_run(args: &[String], run: &[&str]) -> usize {
    args.windows(run.len()).filter(|window| window.iter().zip(run).all(|(a, b)| a == b)).count()
}

#[test]
fn sandbox_without_dependencies_holds_the_baseline() {
    let launch = launch_bubblewrap("/usr/bin/bash", Vec::new());
    assert_eq!(launch.tool, "bwrap");
    assert_eq!(
        launch.args,
        vec![
            "--dir", "/usr/sbin",
            "--dir", "/usr/bin",
            "--ro-bind", "/lib64/ld-linux-x86-64.so.2", "/usr/lib/ld-linux-x86-64.so.2",
            "--symlink", "/usr/lib/ld-linux-x86-64.so.2", "/usr/lib64/ld-linux-x86-64.so.2",
            "--symlink", "/usr/lib", "/lib",
            "--symlink", "/usr/lib64", "/lib64",
            "--symlink", "/usr/bin", "/bin",
            "--symlink", "/usr/sbin", "/sbin",
            "--clearenv",
            "/usr/bin/bash",
        ]
    );
    assert!(!launch.detach_output);
    assert_eq!(launch.warnings, vec![Warning::TerminalControllable]);
}

#[test]
fn constants_name_the_tools_and_the_interpreter() {
    assert_eq!(LAUNCHER, "bwrap");
    assert_eq!(PATCHER, "patchelf");
    assert_eq!(INTERPRETER_HOST, "/lib64/ld-linux-x86-64.so.2");
    assert_eq!(SBX_LD_LINUX, "/usr/lib/ld-linux-x86-64.so.2");
}

#[test]
fn declared_mounts_stand_between_the_directories_and_the_interpreter() {
    let mounts = vec![
        Mount::Touch { sbx_path: SbxPath::new("/work") },
        Mount::Fs {
            readonly: false,
            host_path: HostPath::new("/home/me/src"),
            sbx_path: SbxPath::new("/work/src"),
        },
    ];
    let launch = launch_bubblewrap("/bin/make", mounts);
    assert_eq!(
        launch.args[..14],
        [
            "--dir", "/usr/sbin", "--dir", "/usr/bin", "--dir", "/work", "--bind", "/home/me/src",
            "/work/src", "--ro-bind", "/lib64/ld-linux-x86-64.so.2",
            "/usr/lib/ld-linux-x86-64.so.2", "--symlink", "/usr/lib/ld-linux-x86-64.so.2",
        ]
    );
    assert_eq!(launch.args.last().unwrap(), "/bin/make");
}

#[test]
fn baseline_stands_exactly_once_beside_dependencies_in_its_directories() {
    let deps = vec![
        (HostPath::new("/usr/bin/bash"), Some(HostPath::new("/usr/bin/bash")), StdMountLocation::UserExe),
        (HostPath::new("/usr/sbin/ldconfig"), Some(HostPath::new("/usr/sbin/ldconfig")), StdMountLocation::UserExe),
        (HostPath::new("/host/usr/bin"), Some(HostPath::new("/host/usr/bin")), StdMountLocation::UserExe),
        (HostPath::new("/lib64/ld-linux-x86-64.so.2"), Some(HostPath::new("/lib64/ld-linux-x86-64.so.2")), StdMountLocation::UserExe),
        (HostPath::new("/other/ld-linux-x86-64.so.2"), Some(HostPath::new("/other/ld-linux-x86-64.so.2")), StdMountLocation::UserSo),
    ];
    let launch = launch_bubblewrap("/usr/bin/bash", derive_mounts(&deps).unwrap());
    assert_eq!(count_run(&launch.args, &["--dir", "/usr/sbin"]), 1);
    assert_eq!(count_run(&launch.args, &["--dir", "/usr/bin"]), 1);
    assert_eq!(
        count_run(
            &launch.args,
            &["--ro-bind", "/lib64/ld-linux-x86-64.so.2", "/usr/lib/ld-linux-x86-64.so.2"]
        ),
        1
    );
    assert_eq!(count_run(&launch.args, &["--ro-bind", "/usr/bin/bash", "/usr/bin/bash"]), 1);
    assert_eq!(count_run(&launch.args, &["--ro-bind", "/usr/sbin/ldconfig", "/usr/bin/ldconfig"]), 1);
    assert_eq!(count_run(&launch.args, &["--ro-bind", "/host/usr/bin", "/usr/bin/bin"]), 1);
    assert_eq!(count_run(&launch.args, &["--dir"]), 2);
    assert_eq!(count_run(&launch.args, &["--ro-bind"]), 6);
}

#[test]
fn the_host_interpreter_declared_as_a_library_is_bound_once() {
    let deps = vec![(
        HostPath::new("/lib64/ld-linux-x86-64.so.2"),
        Some(HostPath::new("/lib64/ld-linux-x86-64.so.2")),
        StdMountLocation::UserSo,
    )];
    let launch = launch_bubblewrap("/p", derive_mounts(&deps).unwrap());
    assert_eq!(
        count_run(
            &launch.args,
            &["--ro-bind", "/lib64/ld-linux-x86-64.so.2", "/usr/lib/ld-linux-x86-64.so.2"]
        ),
        1
    );
    assert_eq!(count_run(&launch.args, &["--ro-bind"]), 1);
}

#[test]
fn a_placeholder_directory_supplied_again_stands_once() {
    let launch = launch_bubblewrap("/bin/true", vec![Mount::Touch { sbx_path: SbxPath::new("/usr/bin") }]);
    assert_eq!(count_run(&launch.args, &["--dir", "/usr/bin"]), 1);
    assert_eq!(count_run(&launch.args, &["--dir", "/usr/sbin"]), 1);
    assert_eq!(
        launch.args[..7],
        [
            "--dir", "/usr/sbin", "--dir", "/usr/bin", "--ro-bind", "/lib64/ld-linux-x86-64.so.2",
            "/usr/lib/ld-linux-x86-64.so.2",
        ]
    );
}

#[test]
fn every_baseline_directive_supplied_again_stands_once() {
    let interpreter = || Mount::Fs {
        readonly: true,
        host_path: HostPath::new("/lib64/ld-linux-x86-64.so.2"),
        sbx_path: SbxPath::new("/usr/lib/ld-linux-x86-64.so.2"),
    };
    let mounts = vec![
        interpreter(),
        Mount::Touch { sbx_path: SbxPath::new("/work") },
        Mount::Touch { sbx_path: SbxPath::new("/usr/sbin") },
        Mount::Touch { sbx_path: SbxPath::new("/usr/bin") },
        interpreter(),
        Mount::Touch { sbx_path: SbxPath::new("/usr/sbin") },
        Mount::Fs {
            readonly: true,
            host_path: HostPath::new("/h/tool"),
            sbx_path: SbxPath::new("/usr/bin/tool"),
        },
    ];
    let launch = launch_bubblewrap("/p", mounts);
    assert_eq!(
        launch.args[..12],
        [
            "--dir", "/usr/sbin", "--dir", "/usr/bin", "--dir", "/work", "--ro-bind", "/h/tool",
            "/usr/bin/tool", "--ro-bind", "/lib64/ld-linux-x86-64.so.2",
            "/usr/lib/ld-linux-x86-64.so.2",
        ]
    );
    assert_eq!(launch.args[12], "--symlink");
}

#[test]
fn mounts_that_only_resemble_a_baseline_directive_are_kept() {
    let mounts = vec![
        Mount::Fs {
            readonly: false,
            host_path: HostPath::new("/lib64/ld-linux-x86-64.so.2"),
            sbx_path: SbxPath::new("/usr/lib/ld-linux-x86-64.so.2"),
        },
        Mount::Fs {
            readonly: true,
            host_path: HostPath::new("/real/ld-2.31.so"),
            sbx_path: SbxPath::new("/usr/lib/ld-linux-x86-64.so.2"),
        },
        Mount::Fs {
            readonly: true,
            host_path: HostPath::new("/usr/bin"),
            sbx_path: SbxPath::new("/usr/bin"),
        },
        Mount::Touch { sbx_path: SbxPath::new("/usr/bin/") },
    ];
    let launch = launch_bubblewrap("/p", mounts);
    assert_eq!(
        launch.args[4..18],
        [
            "--bind", "/lib64/ld-linux-x86-64.so.2", "/usr/lib/ld-linux-x86-64.so.2", "--ro-bind",
            "/real/ld-2.31.so", "/usr/lib/ld-linux-x86-64.so.2", "--ro-bind", "/usr/bin",
            "/usr/bin", "--dir", "/usr/bin/", "--ro-bind", "/lib64/ld-linux-x86-64.so.2",
            "/usr/lib/ld-linux-x86-64.so.2",
        ]
    );
}

#[test]
fn supplied_mounts_that_repeat_one_another_are_not_merged() {
    let mounts = vec![
        Mount::Touch { sbx_path: SbxPath::new("/work") },
        Mount::Touch { sbx_path: SbxPath::new("/work") },
    ];
    let launch = launch_bubblewrap("/p", mounts);
    assert_eq!(count_run(&launch.args, &["--dir", "/work"]), 2);
}

#[test]
fn is_baseline_knows_the_three_directives() {
    assert!(Mount::Touch { sbx_path: SbxPath::new("/usr/sbin") }.is_baseline());
    assert!(Mount::Touch { sbx_path: SbxPath::new("/usr/bin") }.is_baseline());
    assert!(Mount::Fs {
        readonly: true,
        host_path: HostPath::new("/lib64/ld-linux-x86-64.so.2"),
        sbx_path: SbxPath::new("/usr/lib/ld-linux-x86-64.so.2"),
    }
    .is_baseline());
    assert!(!Mount::Touch { sbx_path: SbxPath::new("/usr/lib") }.is_baseline());
    assert!(!Mount::Fs {
        readonly: false,
        host_path: HostPath::new("/lib64/ld-linux-x86-64.so.2"),
        sbx_path: SbxPath::new("/usr/lib/ld-linux-x86-64.so.2"),
    }
    .is_baseline());
    assert!(!Mount::Fs {
        readonly: true,
        host_path: HostPath::new("/usr/sbin"),
        sbx_path: SbxPath::new("/usr/sbin"),
    }
    .is_baseline());
}

#[test]
fn end_to_end_libc_and_ls() {
    let deps = vec![
        (HostPath::new("/lib/libc.so.6"), Some(HostPath::new("/lib/libc.so.6")), StdMountLocation::UserSo),
        (HostPath::new("/bin/ls"), Some(HostPath::new("/bin/ls")), StdMountLocation::UserExe),
    ];
    let mounts = derive_mounts(&deps).unwrap();
    let launch = launch_bubblewrap("/bin/ls", mounts);
    assert_eq!(launch.tool, "bwrap");
    assert_eq!(
        launch.args,
        vec![
            "--dir", "/usr/sbin",
            "--dir", "/usr/bin",
            "--ro-bind", "/lib/libc.so.6", "/usr/lib/libc.so.6",
            "--ro-bind", "/bin/ls", "/usr/bin/ls",
            "--ro-bind", "/lib64/ld-linux-x86-64.so.2", "/usr/lib/ld-linux-x86-64.so.2",
            "--symlink", "/usr/lib/ld-linux-x86-64.so.2", "/usr/lib64/ld-linux-x86-64.so.2",
            "--symlink", "/usr/lib", "/lib",
            "--symlink", "/usr/lib64", "/lib64",
            "--symlink", "/usr/bin", "/bin",
            "--symlink", "/usr/sbin", "/sbin",
            "--clearenv",
            "/bin/ls",
        ]
    );
    assert_eq!(count_run(&launch.args, &["--symlink"]), 5);
    assert!(!launch.warnings.contains(&Warning::EnvironmentInherited));
    assert_eq!(launch.args.last().unwrap(), "/bin/ls");
}

#[test]
fn baseline_sandbox_can_still_be_changed() {
    let launch = baseline_sandbox("/bin/sh", Vec::new())
        .with_envvar("HOME".to_string(), "/".to_string())
        .with_detach_stdout(true)
        .finalize()
        .unwrap();
    let n = launch.args.len();
    assert_eq!(launch.args[n - 5..], ["--clearenv", "--setenv", "HOME", "/", "/bin/sh"]);
    assert!(launch.detach_output);
    assert_eq!(launch.warnings, vec![]);
}

#[test]
fn patch_sets_the_interpreter_of_the_program() {
    let patch = patch_noncompliant("./bash");
    assert_eq!(patch.tool, "patchelf");
    assert_eq!(patch.args, vec!["--set-interpreter", "/usr/lib/ld-linux-x86-64.so.2", "./bash"]);
    assert!(!patch.detach_output);
    assert!(patch.warnings.is_empty());
}

#[test]
fn end_to_end_with_symlinked_dependencies() {
    let deps = vec![
        (
            HostPath::new("/lib/libc.so.6"),
            Some(HostPath::new("/usr/lib/x86_64-linux-gnu/libc-2.31.so")),
            StdMountLocation::UserSo,
        ),
        (HostPath::new("/bin/ls"), Some(HostPath::new("/usr/bin/ls")), StdMountLocation::UserExe),
    ];
    let launch = launch_bubblewrap("/bin/ls", derive_mounts(&deps).unwrap());
    assert_eq!(
        launch.args[4..10],
        [
            "--ro-bind", "/usr/lib/x86_64-linux-gnu/libc-2.31.so", "/usr/lib/libc.so.6",
            "--ro-bind", "/usr/bin/ls", "/usr/bin/ls",
        ]
    );
    assert_eq!(launch.args.last().unwrap(), "/bin/ls");
}
