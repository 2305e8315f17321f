//! Tests of the document store: scene upsert/delete, the dirty flag,
//! load/save outcomes, and offset import.

use scene_builder::errors::{DocError, ImportError, LoadError, SaveError};
use scene_builder::id::NanoID;
use scene_builder::import::OffsetEntry;
use scene_builder::model::{Offset, Package, Position, PositionInfo, Scene};
use scene_builder::state::{make_position, AppState};

fn nano(token: &str) -> NanoID {
    NanoID { token: token.to_string() }
}

fn named_scene(token: &str, name: &str) -> Scene {
    Scene {
        id: nano(token),
        name: name.to_string(),
        positions: Vec::new(),
        position_infos: Vec::new(),
        stages: Vec::new(),
    }
}

#[test]
fn save_scene_inserts_once() {
    let mut st = AppState::new();
    let a = named_scene("7", "alpha");
    st.save_scene(a);
    let snap = st.request_project_update();
    assert_eq!(snap.len(), 1);
    assert_eq!(snap[0].id.token, "7");
    assert_eq!(snap[0].name, "alpha");
}

#[test]
fn save_scene_twice_yields_one_entry() {
    let mut st = AppState::new();
    st.save_scene(named_scene("7", "alpha"));
    st.save_scene(named_scene("7", "alpha"));
    let snap = st.request_project_update();
    assert_eq!(snap.len(), 1);
    assert_eq!(snap[0].name, "alpha");
}

#[test]
fn save_scene_replaces_in_place() {
    let mut st = AppState::new();
    st.save_scene(named_scene("1", "first"));
    st.save_scene(named_scene("2", "second"));
    st.save_scene(named_scene("1", "renamed"));
    let snap = st.request_project_update();
    assert_eq!(snap.len(), 2);
    assert_eq!(snap[0].id.token, "1");
    assert_eq!(snap[0].name, "renamed");
    assert_eq!(snap[1].id.token, "2");
}

#[test]
fn delete_scene_unknown_id_changes_nothing() {
    let mut st = AppState::new();
    st.save_scene(named_scene("1", "only"));
    st.apply_save(Ok(())).unwrap();
    assert!(!st.get_edited());
    let r = st.delete_scene(&nano("99"));
    assert_eq!(r.err(), Some(DocError::InvalidId));
    assert!(!st.get_edited());
    let snap = st.request_project_update();
    assert_eq!(snap.len(), 1);
    assert_eq!(snap[0].id.token, "1");
}

#[test]
fn delete_scene_returns_the_scene() {
    let mut st = AppState::new();
    st.save_scene(named_scene("1", "gone"));
    let r = st.delete_scene(&nano("1")).unwrap();
    assert_eq!(r.id.token, "1");
    assert_eq!(r.name, "gone");
    assert_eq!(st.request_project_update().len(), 0);
}

#[test]
fn dirty_set_by_mutating_commands() {
    let mut st = AppState::new();
    st.save_scene(named_scene("1", ""));
    assert!(st.get_edited());
    st.apply_save(Ok(())).unwrap();
    assert!(!st.get_edited());
    st.delete_scene(&nano("1")).unwrap();
    assert!(st.get_edited());
    st.apply_save(Ok(())).unwrap();
    st.mark_as_edited();
    assert!(st.get_edited());
}

#[test]
fn failed_save_keeps_dirty() {
    let mut st = AppState::new();
    st.mark_as_edited();
    let r = st.apply_save(Err(SaveError::Unwritable));
    assert_eq!(r.err(), Some(SaveError::Unwritable));
    assert!(st.get_edited());
}

#[test]
fn serialization_failure_is_surfaced() {
    let mut st = AppState::new();
    st.mark_as_edited();
    let r = st.apply_save(Err(SaveError::Serialization));
    assert_eq!(r.err(), Some(SaveError::Serialization));
    assert!(st.get_edited());
}

#[test]
fn unreadable_load_is_surfaced() {
    let mut st = AppState::new();
    let r = st.apply_load(Err(LoadError::Unreadable));
    assert_eq!(r.err(), Some(LoadError::Unreadable));
    assert_eq!(st.request_project_update().len(), 0);
}

#[test]
fn successful_save_clears_dirty() {
    let mut st = AppState::new();
    st.mark_as_edited();
    assert!(st.apply_save(Ok(())).is_ok());
    assert!(!st.get_edited());
}

#[test]
fn scenario_blank_save_delete() {
    let mut st = AppState::new();
    assert!(!st.get_edited());
    let a = st.create_blank_scene();
    let a_id = a.id.clone();
    assert!(!st.get_edited());
    assert_eq!(st.request_project_update().len(), 0);
    st.save_scene(a);
    assert!(st.get_edited());
    let snap = st.request_project_update();
    assert_eq!(snap.len(), 1);
    assert!(snap[0].id.eq_id(&a_id));
    st.apply_save(Ok(())).unwrap();
    assert!(!st.get_edited());
    let removed = st.delete_scene(&a_id).unwrap();
    assert!(removed.id.eq_id(&a_id));
    assert!(st.get_edited());
    assert_eq!(st.request_project_update().len(), 0);
    let again = st.delete_scene(&a_id);
    assert_eq!(again.err(), Some(DocError::InvalidId));
    assert_eq!(st.request_project_update().len(), 0);
}

#[test]
fn fresh_scenes_get_distinct_ids() {
    let mut st = AppState::new();
    let a = st.create_blank_scene();
    let b = st.create_blank_scene();
    assert_ne!(a.id.token, b.id.token);
}

#[test]
fn make_position_pair_comes_together() {
    let pp = make_position();
    let mut st = AppState::new();
    let mut sc = st.create_blank_scene();
    sc.positions.push(pp.position);
    sc.position_infos.push(pp.info);
    let second = make_position();
    sc.positions.push(second.position);
    sc.position_infos.push(second.info);
    st.save_scene(sc);
    let snap = st.request_project_update();
    assert_eq!(snap[0].positions.len(), 2);
    assert_eq!(snap[0].position_infos.len(), 2);
}

#[test]
fn apply_load_replaces_package() {
    let mut st = AppState::new();
    st.save_scene(named_scene("1", "old"));
    let loaded = Package {
        pack_name: "Loaded".to_string(),
        scenes: vec![named_scene("10", "from disk")],
    };
    assert!(st.apply_load(Ok(loaded)).is_ok());
    let snap = st.request_project_update();
    assert_eq!(snap.len(), 1);
    assert_eq!(snap[0].id.token, "10");
    assert_eq!(snap[0].name, "from disk");
}

#[test]
fn apply_load_failure_leaves_package() {
    let mut st = AppState::new();
    st.save_scene(named_scene("1", "kept"));
    let before_dirty = st.get_edited();
    let r = st.apply_load(Err(LoadError::Malformed));
    assert_eq!(r.err(), Some(LoadError::Malformed));
    assert_eq!(st.get_edited(), before_dirty);
    let snap = st.request_project_update();
    assert_eq!(snap.len(), 1);
    assert_eq!(snap[0].name, "kept");
}

#[test]
fn new_project_resets_and_clears_dirty() {
    let mut st = AppState::new();
    st.save_scene(named_scene("1", "x"));
    assert!(st.get_edited());
    st.new_project();
    assert!(!st.get_edited());
    assert_eq!(st.request_project_update().len(), 0);
}

fn one_position_scene(st: &mut AppState, token: &str) -> Scene {
    let pp = make_position();
    let mut sc = st.create_blank_scene();
    sc.id = NanoID { token: token.to_string() };
    sc.positions.push(pp.position);
    sc.position_infos.push(pp.info);
    sc
}

#[test]
fn import_applies_offsets_and_sets_dirty() {
    let mut st = AppState::new();
    let sc = one_position_scene(&mut st, "s");
    st.save_scene(sc);
    st.apply_save(Ok(())).unwrap();
    let entry = OffsetEntry {
        scene: nano("s"),
        offsets: vec![Offset { x: 1, y: 2, z: 3, yaw: 4 }],
    };
    let r = st.import_offsets(Ok(vec![entry]));
    assert!(r.is_ok());
    assert!(st.get_edited());
    let snap = st.request_project_update();
    assert_eq!(snap[0].positions[0].offset, Offset { x: 1, y: 2, z: 3, yaw: 4 });
}

#[test]
fn import_unknown_scene_aborts_whole_import() {
    let mut st = AppState::new();
    let sc = one_position_scene(&mut st, "s");
    st.save_scene(sc);
    st.apply_save(Ok(())).unwrap();
    let good = OffsetEntry {
        scene: nano("s"),
        offsets: vec![Offset { x: 9, y: 9, z: 9, yaw: 9 }],
    };
    let bad = OffsetEntry { scene: nano("missing"), offsets: Vec::new() };
    let r = st.import_offsets(Ok(vec![good, bad]));
    assert_eq!(r.err(), Some(ImportError::UnknownTarget));
    assert!(!st.get_edited());
    let snap = st.request_project_update();
    assert_eq!(snap[0].positions[0].offset, Offset { x: 0, y: 0, z: 0, yaw: 0 });
}

#[test]
fn import_length_mismatch_aborts() {
    let mut st = AppState::new();
    let sc = one_position_scene(&mut st, "s");
    st.save_scene(sc);
    let entry = OffsetEntry {
        scene: nano("s"),
        offsets: vec![
            Offset { x: 1, y: 1, z: 1, yaw: 1 },
            Offset { x: 2, y: 2, z: 2, yaw: 2 },
        ],
    };
    let r = st.import_offsets(Ok(vec![entry]));
    assert_eq!(r.err(), Some(ImportError::LengthMismatch));
    let snap = st.request_project_update();
    assert_eq!(snap[0].positions[0].offset, Offset { x: 0, y: 0, z: 0, yaw: 0 });
}

#[test]
fn import_unreadable_source_passes_error_through() {
    let mut st = AppState::new();
    let r = st.import_offsets(Err(ImportError::Unreadable));
    assert_eq!(r.err(), Some(ImportError::Unreadable));
    assert!(!st.get_edited());
}

#[test]
fn import_malformed_source_passes_error_through() {
    let mut st = AppState::new();
    let r = st.import_offsets(Err(ImportError::Malformed));
    assert_eq!(r.err(), Some(ImportError::Malformed));
}

#[test]
fn set_pack_name_names_package() {
    let mut st = AppState::new();
    st.set_pack_name("MyPack".to_string());
    // The name is presentation state: naming alone is not an edit.
    assert!(!st.get_edited());
}

#[test]
fn position_blank_is_zeroed() {
    let p = Position::blank();
    assert_eq!(p.race_key, "");
    assert_eq!(p.event, "");
    assert_eq!(p.offset, Offset { x: 0, y: 0, z: 0, yaw: 0 });
    let i = PositionInfo::blank();
    assert_eq!(i.display_name, "");
    assert_eq!(i.annotation, "");
}
