use std::collections::{BTreeMap, BTreeSet};

use celebrator::installer::{
    advance, first_step, git_config_args, git_outcome, hook_path, hooks_dir, join_path,
    InstallProgress, InstallStep, HOOK_MODE, HOOK_SCRIPT, INSTALLED_MESSAGE,
};

#[derive(Clone, Debug, PartialEq, Default)]
struct FakeHost {
    dirs: BTreeSet<String>,
    files: BTreeMap<String, String>,
    modes: BTreeMap<String, u32>,
    hooks_path: Option<String>,
    fail_dir: bool,
}

fn run(home: &str, host: &mut FakeHost) -> (Vec<InstallStep>, Result<String, String>) {
    let mut taken = Vec::new();
    let mut step = first_step();
    loop {
        taken.push(step);
        let outcome = match step {
            InstallStep::CreateHooksDir => {
                if host.fail_dir {
                    Err("Permission denied (os error 13)".to_string())
                } else {
                    host.dirs.insert(hooks_dir(home));
                    Ok(())
                }
            }
            InstallStep::WriteHookScript => {
                host.files.insert(hook_path(home), HOOK_SCRIPT.to_string());
                Ok(())
            }
            InstallStep::MakeHookExecutable => {
                host.modes.insert(hook_path(home), HOOK_MODE);
                Ok(())
            }
            InstallStep::SetGlobalHooksPath => {
                let args = git_config_args(&hooks_dir(home));
                host.hooks_path = Some(args[3].clone());
                git_outcome(true, String::new())
            }
        };
        match advance(step, outcome) {
            InstallProgress::Next(n) => step = n,
            InstallProgress::Finished(r) => return (taken, r),
        }
    }
}

#[test]
fn join_path_inserts_one_separator() {
    assert_eq!(join_path("/home/ann", "x"), "/home/ann/x");
    assert_eq!(join_path("/home/ann/", "x"), "/home/ann/x");
    assert_eq!(join_path("", "x"), "x");
    assert_eq!(join_path("/", "x"), "/x");
}

#[test]
fn hook_locations() {
    assert_eq!(hooks_dir("/home/ann"), "/home/ann/.celebrator/hooks");
    assert_eq!(hook_path("/home/ann"), "/home/ann/.celebrator/hooks/post-commit");
    assert_eq!(hook_path("/root/"), "/root/.celebrator/hooks/post-commit");
}

#[test]
fn hook_script_posts_success_in_background() {
    assert!(HOOK_SCRIPT.starts_with("#!/bin/sh\n"));
    assert!(HOOK_SCRIPT.contains("http://127.0.0.1:23333/trigger"));
    assert!(HOOK_SCRIPT.contains(r#"-d '{"type": "success"}'"#));
    assert!(HOOK_SCRIPT.contains("> /dev/null &)"));
    assert_eq!(HOOK_MODE, 0o755);
}

#[test]
fn git_arguments_set_global_hooks_path() {
    let args = git_config_args("/home/ann/.celebrator/hooks");
    assert_eq!(args, vec!["config", "--global", "core.hooksPath", "/home/ann/.celebrator/hooks"]);
}

#[test]
fn git_failure_carries_its_diagnostic() {
    assert_eq!(git_outcome(true, "ignored".to_string()), Ok(()));
    assert_eq!(
        git_outcome(false, "error: could not lock config file".to_string()),
        Err("error: could not lock config file".to_string())
    );
}

#[test]
fn successful_install_takes_every_step_in_order() {
    let mut host = FakeHost::default();
    let (taken, result) = run("/home/ann", &mut host);
    assert_eq!(
        taken,
        vec![
            InstallStep::CreateHooksDir,
            InstallStep::WriteHookScript,
            InstallStep::MakeHookExecutable,
            InstallStep::SetGlobalHooksPath,
        ]
    );
    assert_eq!(result, Ok(INSTALLED_MESSAGE.to_string()));
    assert_eq!(INSTALLED_MESSAGE, "Git hooks installed successfully");
    assert_eq!(host.hooks_path, Some("/home/ann/.celebrator/hooks".to_string()));
}

#[test]
fn install_twice_gives_the_same_host() {
    let mut host = FakeHost::default();
    let first = run("/home/ann", &mut host);
    let once = host.clone();
    let second = run("/home/ann", &mut host);
    assert_eq!(first, second);
    assert_eq!(host, once);
}

#[test]
fn failed_directory_creation_stops_the_install() {
    let mut host = FakeHost { fail_dir: true, ..FakeHost::default() };
    let (taken, result) = run("/home/ann", &mut host);
    assert_eq!(taken, vec![InstallStep::CreateHooksDir]);
    assert_eq!(result, Err("Permission denied (os error 13)".to_string()));
    assert!(host.files.is_empty());
    assert!(host.modes.is_empty());
    assert_eq!(host.hooks_path, None);
}

#[test]
fn any_failed_step_ends_with_its_error() {
    for step in [
        InstallStep::CreateHooksDir,
        InstallStep::WriteHookScript,
        InstallStep::MakeHookExecutable,
        InstallStep::SetGlobalHooksPath,
    ] {
        match advance(step, Err("boom".to_string())) {
            InstallProgress::Finished(Err(e)) => assert_eq!(e, "boom"),
            _ => panic!("a failed step must end the install"),
        }
    }
}
