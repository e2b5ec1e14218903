use wargo::build_plan::{
    build_project, BuildAction, BuildEvent, BuildProjectConfig, BuildSession, BuildStep,
    UNEXPECTED_OUTCOME,
};
use wargo::manifest::{CargoToml, Package};
use wargo::text::{built_project_name, fill_project_name, is_visible_file_name, PROJECT_NAME_TOKEN};

fn command(program: &str, args: &str, context: &str) -> BuildAction {
    BuildAction::RunCommand {
        program: program.to_string(),
        args: args.to_string(),
        context: context.to_string(),
    }
}

fn advance(session: &mut BuildSession, event: BuildEvent) -> BuildAction {
    session.on_event(event);
    session.next_action()
}

#[test]
fn built_name_replaces_dashes() {
    assert_eq!(built_project_name("wrg-snake-game"), "wrg_snake_game");
    assert_eq!(built_project_name("plain"), "plain");
    assert_eq!(built_project_name(""), "");
    assert_eq!(built_project_name("--"), "__");
}

#[test]
fn placeholder_is_filled_everywhere() {
    let page = "<script src=\"$PROJECT_NAME.js\"></script>wasm_bindgen('$PROJECT_NAME_bg.wasm')";
    assert_eq!(
        fill_project_name(page, "wrg_snake"),
        "<script src=\"wrg_snake.js\"></script>wasm_bindgen('wrg_snake_bg.wasm')"
    );
    assert_eq!(fill_project_name("no token here", "x"), "no token here");
    assert_eq!(fill_project_name("$PROJECT_NAM", "x"), "$PROJECT_NAM");
    assert_eq!(PROJECT_NAME_TOKEN, "$PROJECT_NAME");
}

#[test]
fn hidden_files_are_not_visible() {
    assert!(!is_visible_file_name(".gitignore"));
    assert!(!is_visible_file_name("."));
    assert!(is_visible_file_name("index.html"));
    assert!(is_visible_file_name("a.b"));
    assert!(is_visible_file_name(""));
}

#[test]
fn manifest_gives_project_name() {
    let manifest = CargoToml { package: Package { name: "cargo-toml".to_string() } };
    assert_eq!(manifest.project_name(), "cargo-toml");
}

#[test]
fn build_with_download_runs_every_step_in_order() {
    let mut session = build_project(BuildProjectConfig { js_path: None });
    assert_eq!(session.step, BuildStep::ReadProjectName);
    assert_eq!(session.next_action(), BuildAction::ReadProjectName);

    let action = advance(&mut session, BuildEvent::ProjectName("wrg-snake".to_string()));
    assert_eq!(session.built_name, "wrg_snake");
    assert_eq!(
        action,
        command(
            "rustup",
            "target install wasm32-unknown-unknown",
            "Ensure that the wasm32-unknown-unknown target is installed"
        )
    );
    assert_eq!(
        advance(&mut session, BuildEvent::Succeeded),
        command("rustup", "toolchain install nightly", "Ensure that the nightly compiler is installed")
    );
    assert_eq!(
        advance(&mut session, BuildEvent::Succeeded),
        command(
            "rustup",
            "override set nightly",
            "Ensure that nightly compiler is used for the project"
        )
    );
    assert_eq!(
        advance(&mut session, BuildEvent::Succeeded),
        command(
            "cargo",
            "build --target wasm32-unknown-unknown",
            "Build project targeting wasm32-unknown-unknown"
        )
    );
    assert_eq!(advance(&mut session, BuildEvent::Succeeded), BuildAction::DownloadMatchingRelease);
    assert_eq!(
        advance(
            &mut session,
            BuildEvent::AssetsReady { path: "/tmp/assets".to_string(), cleanup: true }
        ),
        BuildAction::ResetDirectory { path: "target/wasm-rgame/wrg-snake".to_string() }
    );
    assert_eq!(
        advance(&mut session, BuildEvent::Succeeded),
        BuildAction::CopyAssets {
            from: "/tmp/assets".to_string(),
            to: "target/wasm-rgame/wrg-snake".to_string(),
            built_name: "wrg_snake".to_string(),
        }
    );
    assert_eq!(
        advance(&mut session, BuildEvent::Succeeded),
        BuildAction::RemoveDirectory { path: "/tmp/assets".to_string() }
    );
    assert_eq!(
        advance(&mut session, BuildEvent::Succeeded),
        command(
            "wasm-bindgen",
            "target/wasm32-unknown-unknown/debug/wrg_snake.wasm --no-modules --no-modules-global wrg_snake --no-typescript --out-dir target/wasm-rgame/wrg-snake",
            "Run wasm-bindgen, directing output to wasm-rgame `target/wasm-rgame/wrg-snake` folder"
        )
    );
    assert_eq!(
        advance(&mut session, BuildEvent::Succeeded),
        BuildAction::Complete {
            project_name: "wrg-snake".to_string(),
            index_path: "target/wasm-rgame/wrg-snake/index.html".to_string(),
        }
    );
    assert_eq!(session.step, BuildStep::Finished);
    session.on_event(BuildEvent::Failed("late".to_string()));
    assert_eq!(session.step, BuildStep::Finished);
}

#[test]
fn build_with_local_assets_skips_cleanup() {
    let mut session = build_project(BuildProjectConfig { js_path: Some("../js".to_string()) });
    session.on_event(BuildEvent::ProjectName("game".to_string()));
    for _ in 0..4 {
        session.on_event(BuildEvent::Succeeded);
    }
    assert_eq!(session.next_action(), BuildAction::UseLocalAssets { path: "../js".to_string() });
    session.on_event(BuildEvent::AssetsReady { path: "../js".to_string(), cleanup: false });
    session.on_event(BuildEvent::Succeeded);
    assert_eq!(session.step, BuildStep::CopyAssets);
    session.on_event(BuildEvent::Succeeded);
    assert_eq!(session.step, BuildStep::RunBindgen);
}

#[test]
fn failure_stops_the_build() {
    let mut session = build_project(BuildProjectConfig { js_path: None });
    session.on_event(BuildEvent::ProjectName("game".to_string()));
    let action = advance(&mut session, BuildEvent::Failed("rustup missing".to_string()));
    assert_eq!(action, BuildAction::Abort { message: "rustup missing".to_string() });
    session.on_event(BuildEvent::Succeeded);
    assert_eq!(session.step, BuildStep::Failed);
    assert_eq!(session.error, "rustup missing");
}

#[test]
fn unexpected_outcome_fails_the_build() {
    let mut session = build_project(BuildProjectConfig { js_path: None });
    let action = advance(&mut session, BuildEvent::Succeeded);
    assert_eq!(action, BuildAction::Abort { message: UNEXPECTED_OUTCOME.to_string() });
    assert_eq!(session.project_name, "");
}
