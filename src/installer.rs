use vstd::prelude::*;

verus! {

/// The directory under the home directory that holds the relay's files.
pub const APP_DIR_NAME: &'static str = ".celebrator";

/// The directory, inside `APP_DIR_NAME`, that becomes the global hooks path.
pub const HOOKS_DIR_NAME: &'static str = "hooks";

/// The hook point the script is installed for.
pub const HOOK_FILE_NAME: &'static str = "post-commit";

/// Permission bits of the hook script: rwxr-xr-x.
pub const HOOK_MODE: u32 = 0o755;

/// What a successful installation reports.
pub const INSTALLED_MESSAGE: &'static str = "Git hooks installed successfully";

/// The hook script: a silent, detached POST of a `success` trigger to the
/// relay, so that a commit never waits for or fails on the relay.
pub const HOOK_SCRIPT: &'static str = r#"#!/bin/sh
# Desktop Celebrator Hook
(curl -s -X POST http://127.0.0.1:23333/trigger \
    -H "Content-Type: application/json" \
    -d '{"type": "success"}' > /dev/null &)
"#;

/// A path with one more relative segment, as a POSIX path is extended: a
/// separator goes between the two unless the base is empty or ends in one.
pub open spec fn joined(base: Seq<char>, segment: Seq<char>) -> Seq<char> {
    if base.len() == 0 || base.last() == '/' {
        base + segment
    } else {
        base + seq!['/'] + segment
    }
}

/// The hooks directory of the user whose home directory is `home`.
pub open spec fn hooks_dir_of(home: Seq<char>) -> Seq<char> {
    joined(joined(home, ".celebrator"@), "hooks"@)
}

/// Where the hook script of the user whose home directory is `home` goes.
pub open spec fn hook_path_of(home: Seq<char>) -> Seq<char> {
    joined(hooks_dir_of(home), "post-commit"@)
}

/// Extends `base` by the relative segment `segment`.
pub fn join_path(base: &str, segment: &str) -> (r: String)
    ensures
        r@ == joined(base@, segment@),
{
    let n = base.unicode_len();
    let mut r = String::from_str(base);
    if n > 0 && base.get_char(n - 1) != '/' {
        proof {
            reveal_strlit("/");
        }
        r.append("/");
    }
    r.append(segment);
    r
}

/// The hooks directory under the home directory `home`.
pub fn hooks_dir(home: &str) -> (r: String)
    ensures
        r@ == hooks_dir_of(home@),
{
    let app_dir = join_path(home, APP_DIR_NAME);
    join_path(app_dir.as_str(), HOOKS_DIR_NAME)
}

/// The path of the hook script under the home directory `home`.
pub fn hook_path(home: &str) -> (r: String)
    ensures
        r@ == hook_path_of(home@),
{
    let dir = hooks_dir(home);
    join_path(dir.as_str(), HOOK_FILE_NAME)
}

/// The arguments to `git` that make `dir` the global hooks path.
pub fn git_config_args(dir: &str) -> (r: Vec<String>)
    ensures
        r@.len() == 4,
        r@[0]@ == "config"@,
        r@[1]@ == "--global"@,
        r@[2]@ == "core.hooksPath"@,
        r@[3]@ == dir@,
{
    let mut r: Vec<String> = Vec::new();
    r.push(String::from_str("config"));
    r.push(String::from_str("--global"));
    r.push(String::from_str("core.hooksPath"));
    r.push(String::from_str(dir));
    r
}

/// How a run of the version-control tool ended: a non-zero exit is a failure
/// whose message is the tool's own diagnostic text.
pub fn git_outcome(success: bool, stderr: String) -> (r: Result<(), String>)
    ensures
        success ==> r is Ok,
        !success ==> (r matches Err(e) && e@ == stderr@),
{
    if success {
        Ok(())
    } else {
        Err(stderr)
    }
}

/// The steps of an installation, in the order they are taken.
#[derive(Clone, Copy, Debug, PartialEq, Eq, Structural)]
pub enum InstallStep {
    /// Create the hooks directory and any missing parent.
    CreateHooksDir,
    /// Write `HOOK_SCRIPT` to the hook path, replacing what was there.
    WriteHookScript,
    /// Give the hook script the permission bits `HOOK_MODE`.
    MakeHookExecutable,
    /// Make the hooks directory the version-control tool's global hooks path.
    SetGlobalHooksPath,
}

/// Where an installation stands after a step.
pub enum InstallProgress {
    /// Take this step next.
    Next(InstallStep),
    /// The installation is over, with this result.
    Finished(Result<String, String>),
}

/// The step that follows `step` when it succeeds; `None` after the last.
pub open spec fn step_after(step: InstallStep) -> Option<InstallStep> {
    match step {
        InstallStep::CreateHooksDir => Some(InstallStep::WriteHookScript),
        InstallStep::WriteHookScript => Some(InstallStep::MakeHookExecutable),
        InstallStep::MakeHookExecutable => Some(InstallStep::SetGlobalHooksPath),
        InstallStep::SetGlobalHooksPath => None,
    }
}

/// The step an installation begins with.
pub fn first_step() -> (r: InstallStep)
    ensures
        r == InstallStep::CreateHooksDir,
{
    InstallStep::CreateHooksDir
}

/// Decides what follows a step: a failed step ends the installation with its
/// error and nothing more is done; a successful one leads to the next step,
/// and after the last to the success message.
pub fn advance(step: InstallStep, outcome: Result<(), String>) -> (r: InstallProgress)
    ensures
        outcome matches Err(e) ==> (r matches InstallProgress::Finished(Err(f)) && f@ == e@),
        outcome is Ok && step_after(step) is Some ==> r == InstallProgress::Next(
            step_after(step)->Some_0,
        ),
        outcome is Ok && step_after(step) is None ==> (r matches InstallProgress::Finished(
            Ok(m),
        ) && m@ == INSTALLED_MESSAGE@),
{
    match outcome {
        Err(e) => InstallProgress::Finished(Err(e)),
        Ok(()) => match step {
            InstallStep::CreateHooksDir => InstallProgress::Next(InstallStep::WriteHookScript),
            InstallStep::WriteHookScript => InstallProgress::Next(InstallStep::MakeHookExecutable),
            InstallStep::MakeHookExecutable => InstallProgress::Next(
                InstallStep::SetGlobalHooksPath,
            ),
            InstallStep::SetGlobalHooksPath => InstallProgress::Finished(
                Ok(String::from_str(INSTALLED_MESSAGE)),
            ),
        },
    }
}

/// What an installation touches: the directories and files of the file
/// system, the permission bits of files, and the version-control tool's
/// global hooks path.
pub struct HostState {
    pub dirs: Set<Seq<char>>,
    pub files: Map<Seq<char>, Seq<char>>,
    pub modes: Map<Seq<char>, u32>,
    pub hooks_path: Option<Seq<char>>,
}

/// The host after a successful `step` of an installation for the home
/// directory `home`.
pub open spec fn step_effect(home: Seq<char>, step: InstallStep, h: HostState) -> HostState {
    match step {
        InstallStep::CreateHooksDir => HostState {
            dirs: h.dirs.insert(joined(home, ".celebrator"@)).insert(hooks_dir_of(home)),
            ..h
        },
        InstallStep::WriteHookScript => HostState {
            files: h.files.insert(hook_path_of(home), HOOK_SCRIPT@),
            ..h
        },
        InstallStep::MakeHookExecutable => HostState {
            modes: h.modes.insert(hook_path_of(home), HOOK_MODE),
            ..h
        },
        InstallStep::SetGlobalHooksPath => HostState {
            hooks_path: Some(hooks_dir_of(home)),
            ..h
        },
    }
}

/// The host after the steps from `step` on have all succeeded.
pub open spec fn effect_from(home: Seq<char>, step: InstallStep, h: HostState) -> HostState
    decreases step_rank(step),
{
    let after = step_effect(home, step, h);
    match step_after(step) {
        Some(next) => effect_from(home, next, after),
        None => after,
    }
}

/// How many steps remain after `step`.
pub open spec fn step_rank(step: InstallStep) -> nat {
    match step {
        InstallStep::CreateHooksDir => 3,
        InstallStep::WriteHookScript => 2,
        InstallStep::MakeHookExecutable => 1,
        InstallStep::SetGlobalHooksPath => 0,
    }
}

/// The host after a whole successful installation.
pub open spec fn install_effect(home: Seq<char>, h: HostState) -> HostState {
    effect_from(home, InstallStep::CreateHooksDir, h)
}

/// Installing twice leaves the host as installing once does: the second run
/// writes the same script to the same place, sets the same permission bits,
/// and sets the global hooks path to the same directory.
pub proof fn lemma_install_idempotent(home: Seq<char>, h: HostState)
    ensures
        install_effect(home, install_effect(home, h)) == install_effect(home, h),
{
    reveal_with_fuel(effect_from, 4);
    let once = install_effect(home, h);
    let twice = install_effect(home, once);
    assert(twice.dirs =~= once.dirs);
    assert(twice.files =~= once.files);
    assert(twice.modes =~= once.modes);
}

} // verus!
