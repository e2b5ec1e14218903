//! The build of a project as a sequence of decisions: each step names the outside action
//! to perform, and the outcome of that action decides the next step.
use vstd::prelude::*;
use vstd::string::*;

use crate::text::{built_project_name, replaced};

verus! {

/// How a build is asked for: with a local directory of assets, or with none, in which
/// case the matching release is downloaded.
#[derive(Clone, Debug, PartialEq, Eq)]
pub struct BuildProjectConfig {
    pub js_path: Option<String>,
}

#[derive(Clone, Copy, Debug, PartialEq, Eq, Structural)]
pub enum BuildStep {
    ReadProjectName,
    InstallTarget,
    InstallNightly,
    OverrideNightly,
    Compile,
    ObtainAssets,
    ResetTargetDir,
    CopyAssets,
    RemoveFetchedAssets,
    RunBindgen,
    Finished,
    Failed,
}

/// What the caller must do next.
#[derive(Clone, Debug, PartialEq, Eq)]
pub enum BuildAction {
    /// Read the package name from the project's manifest.
    ReadProjectName,
    /// Run `program` with the whitespace-separated `args`; `context` describes it.
    RunCommand { program: String, args: String, context: String },
    /// Check that the local asset directory exists and use it as it is.
    UseLocalAssets { path: String },
    /// Download and unpack the release that matches the framework's version.
    DownloadMatchingRelease,
    /// Remove the directory if it exists, then create it empty.
    ResetDirectory { path: String },
    /// Copy each visible file of `from` into `to`, filling in `built_name`.
    CopyAssets { from: String, to: String, built_name: String },
    /// Remove a directory and all it holds.
    RemoveDirectory { path: String },
    /// The build is done; the page to open is `index_path`.
    Complete { project_name: String, index_path: String },
    /// The build stopped.
    Abort { message: String },
}

/// The outcome of the last action.
#[derive(Clone, Debug, PartialEq, Eq)]
pub enum BuildEvent {
    ProjectName(String),
    Succeeded,
    AssetsReady { path: String, cleanup: bool },
    Failed(String),
}

/// A build in progress.
#[derive(Clone, Debug)]
pub struct BuildSession {
    pub step: BuildStep,
    pub js_path: Option<String>,
    pub project_name: String,
    pub built_name: String,
    pub assets_path: String,
    pub cleanup: bool,
    pub error: String,
}

/// The message of a build that received an outcome its step does not expect.
pub const UNEXPECTED_OUTCOME: &'static str = "unexpected outcome for the current build step";

pub open spec fn is_terminal(step: BuildStep) -> bool {
    step == BuildStep::Finished || step == BuildStep::Failed
}

/// The step that follows `step` once `event` came back.
pub open spec fn step_after(step: BuildStep, event: BuildEvent, cleanup: bool) -> BuildStep {
    if is_terminal(step) {
        step
    } else {
        match (step, event) {
            (BuildStep::ReadProjectName, BuildEvent::ProjectName(_)) => BuildStep::InstallTarget,
            (BuildStep::InstallTarget, BuildEvent::Succeeded) => BuildStep::InstallNightly,
            (BuildStep::InstallNightly, BuildEvent::Succeeded) => BuildStep::OverrideNightly,
            (BuildStep::OverrideNightly, BuildEvent::Succeeded) => BuildStep::Compile,
            (BuildStep::Compile, BuildEvent::Succeeded) => BuildStep::ObtainAssets,
            (BuildStep::ObtainAssets, BuildEvent::AssetsReady { .. }) => BuildStep::ResetTargetDir,
            (BuildStep::ResetTargetDir, BuildEvent::Succeeded) => BuildStep::CopyAssets,
            (BuildStep::CopyAssets, BuildEvent::Succeeded) => if cleanup {
                BuildStep::RemoveFetchedAssets
            } else {
                BuildStep::RunBindgen
            },
            (BuildStep::RemoveFetchedAssets, BuildEvent::Succeeded) => BuildStep::RunBindgen,
            (BuildStep::RunBindgen, BuildEvent::Succeeded) => BuildStep::Finished,
            _ => BuildStep::Failed,
        }
    }
}

/// The directory that receives the deployable output of a project.
pub open spec fn target_dir_model(project_name: Seq<char>) -> Seq<char> {
    "target/wasm-rgame/"@ + project_name
}

/// The module the compiler emits for a crate.
pub open spec fn wasm_output_model(built_name: Seq<char>) -> Seq<char> {
    "target/wasm32-unknown-unknown/debug/"@ + built_name + ".wasm"@
}

pub open spec fn bindgen_args_model(project_name: Seq<char>, built_name: Seq<char>) -> Seq<char> {
    wasm_output_model(built_name) + " --no-modules --no-modules-global "@ + built_name
        + " --no-typescript --out-dir "@ + target_dir_model(project_name)
}

pub open spec fn bindgen_context_model(project_name: Seq<char>) -> Seq<char> {
    "Run wasm-bindgen, directing output to wasm-rgame `"@ + target_dir_model(project_name)
        + "` folder"@
}

pub open spec fn is_command(
    a: BuildAction,
    program: Seq<char>,
    args: Seq<char>,
    context: Seq<char>,
) -> bool {
    a matches BuildAction::RunCommand { program: p, args: r, context: c } && p@ == program && r@
        == args && c@ == context
}

/// The action that a session in the state `s` asks for.
pub open spec fn is_action_for(s: BuildSession, a: BuildAction) -> bool {
    match s.step {
        BuildStep::ReadProjectName => a == BuildAction::ReadProjectName,
        BuildStep::InstallTarget => is_command(
            a,
            "rustup"@,
            "target install wasm32-unknown-unknown"@,
            "Ensure that the wasm32-unknown-unknown target is installed"@,
        ),
        BuildStep::InstallNightly => is_command(
            a,
            "rustup"@,
            "toolchain install nightly"@,
            "Ensure that the nightly compiler is installed"@,
        ),
        BuildStep::OverrideNightly => is_command(
            a,
            "rustup"@,
            "override set nightly"@,
            "Ensure that nightly compiler is used for the project"@,
        ),
        BuildStep::Compile => is_command(
            a,
            "cargo"@,
            "build --target wasm32-unknown-unknown"@,
            "Build project targeting wasm32-unknown-unknown"@,
        ),
        BuildStep::ObtainAssets => match s.js_path {
            Some(p) => a matches BuildAction::UseLocalAssets { path } && path@ == p@,
            None => a == BuildAction::DownloadMatchingRelease,
        },
        BuildStep::ResetTargetDir => a matches BuildAction::ResetDirectory { path } && path@
            == target_dir_model(s.project_name@),
        BuildStep::CopyAssets => a matches BuildAction::CopyAssets { from, to, built_name } && from@
            == s.assets_path@ && to@ == target_dir_model(s.project_name@) && built_name@
            == s.built_name@,
        BuildStep::RemoveFetchedAssets => a matches BuildAction::RemoveDirectory { path } && path@
            == s.assets_path@,
        BuildStep::RunBindgen => is_command(
            a,
            "wasm-bindgen"@,
            bindgen_args_model(s.project_name@, s.built_name@),
            bindgen_context_model(s.project_name@),
        ),
        BuildStep::Finished => a matches BuildAction::Complete { project_name, index_path }
            && project_name@ == s.project_name@ && index_path@ == target_dir_model(s.project_name@)
            + "/index.html"@,
        BuildStep::Failed => a matches BuildAction::Abort { message } && message@ == s.error@,
    }
}

fn text(s: &str) -> (r: String)
    ensures
        r@ == s@,
{
    String::from_str(s)
}

fn target_dir(project_name: &String) -> (r: String)
    ensures
        r@ == target_dir_model(project_name@),
{
    let mut r = text("target/wasm-rgame/");
    r.append(project_name.as_str());
    r
}

fn command(program: &str, args: String, context: String) -> (a: BuildAction)
    ensures
        is_command(a, program@, args@, context@),
{
    BuildAction::RunCommand { program: text(program), args, context }
}

/// Starts a build: the first step reads the project's name.
pub fn build_project(config: BuildProjectConfig) -> (s: BuildSession)
    ensures
        s.step == BuildStep::ReadProjectName,
        s.js_path == config.js_path,
        !s.cleanup,
{
    BuildSession {
        step: BuildStep::ReadProjectName,
        js_path: config.js_path,
        project_name: String::new(),
        built_name: String::new(),
        assets_path: String::new(),
        cleanup: false,
        error: String::new(),
    }
}

impl BuildSession {
    /// The action the caller must perform now.
    pub fn next_action(&self) -> (a: BuildAction)
        ensures
            is_action_for(*self, a),
    {
        match self.step {
            BuildStep::ReadProjectName => BuildAction::ReadProjectName,
            BuildStep::InstallTarget => command(
                "rustup",
                text("target install wasm32-unknown-unknown"),
                text("Ensure that the wasm32-unknown-unknown target is installed"),
            ),
            BuildStep::InstallNightly => command(
                "rustup",
                text("toolchain install nightly"),
                text("Ensure that the nightly compiler is installed"),
            ),
            BuildStep::OverrideNightly => command(
                "rustup",
                text("override set nightly"),
                text("Ensure that nightly compiler is used for the project"),
            ),
            BuildStep::Compile => command(
                "cargo",
                text("build --target wasm32-unknown-unknown"),
                text("Build project targeting wasm32-unknown-unknown"),
            ),
            BuildStep::ObtainAssets => match &self.js_path {
                Some(p) => BuildAction::UseLocalAssets { path: p.clone() },
                None => BuildAction::DownloadMatchingRelease,
            },
            BuildStep::ResetTargetDir => BuildAction::ResetDirectory {
                path: target_dir(&self.project_name),
            },
            BuildStep::CopyAssets => BuildAction::CopyAssets {
                from: self.assets_path.clone(),
                to: target_dir(&self.project_name),
                built_name: self.built_name.clone(),
            },
            BuildStep::RemoveFetchedAssets => BuildAction::RemoveDirectory {
                path: self.assets_path.clone(),
            },
            BuildStep::RunBindgen => {
                let dir = target_dir(&self.project_name);
                let mut args = text("target/wasm32-unknown-unknown/debug/");
                args.append(self.built_name.as_str());
                args.append(".wasm");
                args.append(" --no-modules --no-modules-global ");
                args.append(self.built_name.as_str());
                args.append(" --no-typescript --out-dir ");
                args.append(dir.as_str());
                let mut context = text("Run wasm-bindgen, directing output to wasm-rgame `");
                context.append(dir.as_str());
                context.append("` folder");
                proof {
                    assert(args@ =~= bindgen_args_model(self.project_name@, self.built_name@));
                    assert(context@ =~= bindgen_context_model(self.project_name@));
                }
                command("wasm-bindgen", args, context)
            },
            BuildStep::Finished => {
                let mut index_path = target_dir(&self.project_name);
                index_path.append("/index.html");
                BuildAction::Complete { project_name: self.project_name.clone(), index_path }
            },
            BuildStep::Failed => BuildAction::Abort { message: self.error.clone() },
        }
    }

    /// Records the outcome of the last action and moves to the next step. A failure
    /// ends the build with its message; an outcome the step does not expect ends it too.
    /// A finished or failed build stays as it is.
    pub fn on_event(&mut self, event: BuildEvent)
        ensures
            final(self).step == step_after(old(self).step, event, old(self).cleanup),
            final(self).js_path == old(self).js_path,
            is_terminal(old(self).step) ==> *final(self) == *old(self),
            !is_terminal(old(self).step) ==> {
                &&& old(self).step == BuildStep::ReadProjectName && event is ProjectName ==> {
                    &&& final(self).project_name@ == event->ProjectName_0@
                    &&& final(self).built_name@ == replaced(event->ProjectName_0@, "-"@, "_"@)
                }
                &&& !(old(self).step == BuildStep::ReadProjectName && event is ProjectName) ==> {
                    &&& final(self).project_name == old(self).project_name
                    &&& final(self).built_name == old(self).built_name
                }
                &&& old(self).step == BuildStep::ObtainAssets && event is AssetsReady ==> {
                    &&& final(self).assets_path@ == event->AssetsReady_path@
                    &&& final(self).cleanup == event->AssetsReady_cleanup
                }
                &&& !(old(self).step == BuildStep::ObtainAssets && event is AssetsReady) ==> {
                    &&& final(self).assets_path == old(self).assets_path
                    &&& final(self).cleanup == old(self).cleanup
                }
                &&& final(self).step == BuildStep::Failed ==> final(self).error@ == (
                match event {
                    BuildEvent::Failed(m) => m@,
                    _ => UNEXPECTED_OUTCOME@,
                })
                &&& final(self).step != BuildStep::Failed ==> final(self).error == old(self).error
            },
    {
        if matches!(self.step, BuildStep::Finished) || matches!(self.step, BuildStep::Failed) {
            return;
        }
        match event {
            BuildEvent::Failed(message) => {
                self.step = BuildStep::Failed;
                self.error = message;
            },
            BuildEvent::ProjectName(name) => {
                if matches!(self.step, BuildStep::ReadProjectName) {
                    self.built_name = built_project_name(name.as_str());
                    self.project_name = name;
                    self.step = BuildStep::InstallTarget;
                } else {
                    self.fail_unexpected();
                }
            },
            BuildEvent::AssetsReady { path, cleanup } => {
                if matches!(self.step, BuildStep::ObtainAssets) {
                    self.assets_path = path;
                    self.cleanup = cleanup;
                    self.step = BuildStep::ResetTargetDir;
                } else {
                    self.fail_unexpected();
                }
            },
            BuildEvent::Succeeded => {
                self.step =
                    match self.step {
                        BuildStep::InstallTarget => BuildStep::InstallNightly,
                        BuildStep::InstallNightly => BuildStep::OverrideNightly,
                        BuildStep::OverrideNightly => BuildStep::Compile,
                        BuildStep::Compile => BuildStep::ObtainAssets,
                        BuildStep::ResetTargetDir => BuildStep::CopyAssets,
                        BuildStep::CopyAssets => if self.cleanup {
                            BuildStep::RemoveFetchedAssets
                        } else {
                            BuildStep::RunBindgen
                        },
                        BuildStep::RemoveFetchedAssets => BuildStep::RunBindgen,
                        BuildStep::RunBindgen => BuildStep::Finished,
                        _ => BuildStep::Failed,
                    };
                if matches!(self.step, BuildStep::Failed) {
                    self.error = text(UNEXPECTED_OUTCOME);
                }
            },
        }
    }

    fn fail_unexpected(&mut self)
        ensures
            final(self).step == BuildStep::Failed,
            final(self).error@ == UNEXPECTED_OUTCOME@,
            final(self).js_path == old(self).js_path,
            final(self).project_name == old(self).project_name,
            final(self).built_name == old(self).built_name,
            final(self).assets_path == old(self).assets_path,
            final(self).cleanup == old(self).cleanup,
    {
        self.step = BuildStep::Failed;
        self.error = text(UNEXPECTED_OUTCOME);
    }
}

} // verus!
