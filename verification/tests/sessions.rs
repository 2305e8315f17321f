//! Tests of the editor-window handshake, the confirmation gate, menu
//! dispatch, window titles and identifier rendering.

use scene_builder::errors::{DocError, invalid_id_message};
use scene_builder::gate::{close_decision, gate_allows, needs_prompt, CloseDecision, ConfirmAnswer};
use scene_builder::id::{u64_dec_string, NanoID};
use scene_builder::menu::{
    menu_plan, parse_menu_id, MenuAction, MenuCommand, ReloadKind, UrlTarget,
};
use scene_builder::model::{Scene, Stage};
use scene_builder::orchestrator::OpenOutcome;
use scene_builder::state::AppState;
use scene_builder::title::{
    default_main_title, main_window_title, stage_editor_title, stage_window_label, starred_title,
};

fn nano(token: &str) -> NanoID {
    NanoID { token: token.to_string() }
}

fn scene_with_stage(scene_token: &str, stage_token: &str, stage_name: &str) -> Scene {
    let mut sc = Scene {
        id: nano(scene_token),
        name: String::new(),
        positions: Vec::new(),
        position_infos: Vec::new(),
        stages: Vec::new(),
    };
    sc.stages.push(Stage {
        id: nano(stage_token),
        name: stage_name.to_string(),
        positions: Vec::new(),
    });
    sc
}

#[test]
fn ready_delivers_payload_exactly_once() {
    let mut st = AppState::new();
    let scene = st.create_blank_scene();
    let outcome = st.open_stage_editor(&scene, None);
    assert_eq!(outcome, OpenOutcome::Opened);
    // The blank scene consumed counter value 0, the fresh stage consumed 1.
    let stage_id = nano("1");
    let first = st.editors.signal_ready(&stage_id);
    let payload = first.expect("first readiness signal must deliver the payload");
    assert_eq!(payload.stage.id.token, "1");
    assert!(payload.scene.eq_id(&scene.id));
    let second = st.editors.signal_ready(&stage_id);
    assert!(second.is_none());
}

#[test]
fn ready_for_unknown_window_delivers_nothing() {
    let mut st = AppState::new();
    assert!(st.editors.signal_ready(&nano("nobody")).is_none());
}

#[test]
fn duplicate_editor_window_is_rejected() {
    let mut st = AppState::new();
    let scene = scene_with_stage("s", "st1", "Kiss");
    let stage = scene.stages[0].clone();
    assert_eq!(st.open_stage_editor_from(&scene, &stage), OpenOutcome::Opened);
    assert_eq!(st.open_stage_editor_from(&scene, &stage), OpenOutcome::AlreadyOpen);
}

#[test]
fn open_stage_editor_with_existing_stage_keeps_its_id() {
    let mut st = AppState::new();
    let scene = scene_with_stage("s", "st1", "Kiss");
    let stage = scene.stages[0].clone();
    assert_eq!(st.open_stage_editor(&scene, Some(stage)), OpenOutcome::Opened);
    let payload = st.editors.signal_ready(&nano("st1")).unwrap();
    assert_eq!(payload.stage.name, "Kiss");
}

#[test]
fn stage_save_and_close_builds_payload_and_frees_window() {
    let mut st = AppState::new();
    let scene = scene_with_stage("s", "st1", "Kiss");
    let stage = scene.stages[0].clone();
    assert_eq!(st.open_stage_editor_from(&scene, &stage), OpenOutcome::Opened);
    let payload = st.stage_save_and_close(nano("s"), Vec::new(), Vec::new(), stage);
    assert_eq!(payload.scene.token, "s");
    assert_eq!(payload.stage.id.token, "st1");
    assert_eq!(payload.positions.len(), payload.infos.len());
    // The session is gone: the same stage can be opened again.
    let stage_again = scene.stages[0].clone();
    assert_eq!(st.open_stage_editor_from(&scene, &stage_again), OpenOutcome::Opened);
}

#[test]
fn apply_stage_save_replaces_matching_stage_in_place() {
    let mut st = AppState::new();
    let mut scene = scene_with_stage("s", "st1", "one");
    scene.stages.push(Stage { id: nano("st2"), name: "two".to_string(), positions: Vec::new() });
    st.save_scene(scene);
    let edited = Stage { id: nano("st1"), name: "renamed".to_string(), positions: Vec::new() };
    let payload = st.stage_save_and_close(nano("s"), Vec::new(), Vec::new(), edited);
    st.apply_stage_save(payload).unwrap();
    let snap = st.request_project_update();
    assert_eq!(snap[0].stages.len(), 2);
    assert_eq!(snap[0].stages[0].id.token, "st1");
    assert_eq!(snap[0].stages[0].name, "renamed");
    assert_eq!(snap[0].stages[1].id.token, "st2");
}

#[test]
fn apply_stage_save_appends_new_stage() {
    let mut st = AppState::new();
    st.save_scene(scene_with_stage("s", "st1", "one"));
    let fresh = Stage { id: nano("st9"), name: "nine".to_string(), positions: Vec::new() };
    let payload = st.stage_save_and_close(nano("s"), Vec::new(), Vec::new(), fresh);
    st.apply_stage_save(payload).unwrap();
    let snap = st.request_project_update();
    assert_eq!(snap[0].stages.len(), 2);
    assert_eq!(snap[0].stages[1].id.token, "st9");
}

#[test]
fn apply_stage_save_unknown_scene_is_invalid_id() {
    let mut st = AppState::new();
    let stage = Stage { id: nano("st1"), name: String::new(), positions: Vec::new() };
    let payload = st.stage_save_and_close(nano("ghost"), Vec::new(), Vec::new(), stage);
    let r = st.apply_stage_save(payload);
    assert_eq!(r.err(), Some(DocError::InvalidId));
    assert!(!st.get_edited());
}

#[test]
fn gate_runs_immediately_when_clean() {
    assert!(!needs_prompt(false));
    assert!(gate_allows(false, ConfirmAnswer::No));
    assert!(gate_allows(false, ConfirmAnswer::Yes));
}

#[test]
fn gate_obeys_answer_when_dirty() {
    assert!(needs_prompt(true));
    assert!(gate_allows(true, ConfirmAnswer::Yes));
    assert!(!gate_allows(true, ConfirmAnswer::No));
}

#[test]
fn close_decision_vetoes_only_on_dirty_no() {
    assert_eq!(close_decision(false, ConfirmAnswer::No), CloseDecision::Exit);
    assert_eq!(close_decision(true, ConfirmAnswer::Yes), CloseDecision::Exit);
    assert_eq!(close_decision(true, ConfirmAnswer::No), CloseDecision::KeepOpen);
}

#[test]
fn scenario_new_project_confirmation() {
    let mut st = AppState::new();
    let sc = st.create_blank_scene();
    st.save_scene(sc);
    assert!(st.get_edited());
    assert!(needs_prompt(st.get_edited()));
    // The user answers "no": nothing runs, nothing changes.
    if gate_allows(st.get_edited(), ConfirmAnswer::No) {
        st.new_project();
    }
    assert!(st.get_edited());
    assert_eq!(st.request_project_update().len(), 1);
    // The user answers "yes": the package is reset and is no longer dirty.
    if gate_allows(st.get_edited(), ConfirmAnswer::Yes) {
        st.new_project();
    }
    assert!(!st.get_edited());
    assert_eq!(st.request_project_update().len(), 0);
}

#[test]
fn parse_known_menu_ids() {
    let cases = [
        ("new_prjct", MenuCommand::NewProject),
        ("open_prjct", MenuCommand::OpenProject),
        ("import_offset", MenuCommand::ImportOffset),
        ("save", MenuCommand::Save),
        ("save_as", MenuCommand::SaveAs),
        ("build", MenuCommand::Export),
        ("darkmode", MenuCommand::ToggleDarkmode),
        ("open_docs", MenuCommand::OpenDocs),
        ("discord", MenuCommand::OpenDiscord),
        ("patreon", MenuCommand::OpenPatreon),
        ("kofi", MenuCommand::OpenKofi),
    ];
    for (id, cmd) in cases {
        assert_eq!(parse_menu_id(&id.to_string()), Ok(cmd));
    }
}

#[test]
fn parse_unknown_menu_id_is_unrecognized_command() {
    assert_eq!(
        parse_menu_id(&"telemetry".to_string()),
        Err(DocError::UnrecognizedCommand)
    );
    assert_eq!(parse_menu_id(&"".to_string()), Err(DocError::UnrecognizedCommand));
}

#[test]
fn menu_plan_gates_reloads_only_when_dirty() {
    assert_eq!(
        menu_plan(MenuCommand::NewProject, true),
        MenuAction::ConfirmThenReload(ReloadKind::NewProject)
    );
    assert_eq!(
        menu_plan(MenuCommand::NewProject, false),
        MenuAction::Reload(ReloadKind::NewProject)
    );
    assert_eq!(
        menu_plan(MenuCommand::OpenProject, true),
        MenuAction::ConfirmThenReload(ReloadKind::OpenProject)
    );
    assert_eq!(
        menu_plan(MenuCommand::OpenProject, false),
        MenuAction::Reload(ReloadKind::OpenProject)
    );
}

#[test]
fn menu_plan_maps_plain_commands() {
    assert_eq!(menu_plan(MenuCommand::Save, true), MenuAction::SaveProject { as_new: false });
    assert_eq!(menu_plan(MenuCommand::SaveAs, false), MenuAction::SaveProject { as_new: true });
    assert_eq!(menu_plan(MenuCommand::Export, true), MenuAction::ExportProject);
    assert_eq!(menu_plan(MenuCommand::ImportOffset, false), MenuAction::ImportOffsets);
    assert_eq!(menu_plan(MenuCommand::ToggleDarkmode, true), MenuAction::ToggleDark);
    assert_eq!(menu_plan(MenuCommand::OpenDocs, false), MenuAction::OpenUrl(UrlTarget::Docs));
    assert_eq!(menu_plan(MenuCommand::OpenDiscord, true), MenuAction::OpenUrl(UrlTarget::Discord));
    assert_eq!(menu_plan(MenuCommand::OpenPatreon, false), MenuAction::OpenUrl(UrlTarget::Patreon));
    assert_eq!(menu_plan(MenuCommand::OpenKofi, false), MenuAction::OpenUrl(UrlTarget::Kofi));
}

#[test]
fn darkmode_round_trip() {
    let mut st = AppState::new();
    assert!(!st.get_in_darkmode());
    st.set_darkmode(true);
    assert!(st.get_darkmode());
    let now = st.toggle_darkmode();
    assert!(!now);
    assert!(!st.get_in_darkmode());
    st.set_edited(true);
    assert!(st.get_edited());
    st.set_edited(false);
    assert!(!st.get_edited());
}

#[test]
fn main_title_untitled_and_named() {
    assert_eq!(default_main_title(), "SexLab Scene Builder");
    assert_eq!(main_window_title(&String::new()), "SexLab Scene Builder");
    assert_eq!(
        main_window_title(&"MyPack".to_string()),
        "SexLab Scene Builder - MyPack"
    );
}

#[test]
fn starred_title_appends_once() {
    assert_eq!(starred_title(&"Title".to_string()), "Title*");
    assert_eq!(starred_title(&"Title*".to_string()), "Title*");
    assert_eq!(starred_title(&String::new()), "*");
}

#[test]
fn stage_editor_titles() {
    assert_eq!(stage_editor_title(&String::new()), "Stage Editor [Untitled]");
    assert_eq!(stage_editor_title(&"Kiss".to_string()), "Stage Editor [Kiss]");
}

#[test]
fn stage_window_label_from_id() {
    assert_eq!(stage_window_label(&nano("42")), "stage_editor_42");
}

#[test]
fn decimal_rendering_of_counters() {
    assert_eq!(u64_dec_string(0), "0");
    assert_eq!(u64_dec_string(7), "7");
    assert_eq!(u64_dec_string(907), "907");
    assert_eq!(u64_dec_string(u64::MAX), "18446744073709551615");
}

#[test]
fn invalid_id_message_names_the_token() {
    assert_eq!(invalid_id_message(&nano("abc")), "Invalid Scene ID: abc");
}

#[test]
fn id_equality_is_token_equality() {
    assert!(nano("a").eq_id(&nano("a")));
    assert!(!nano("a").eq_id(&nano("b")));
}
