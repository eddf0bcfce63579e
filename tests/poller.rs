use sts_autosave_watch::common::{
    autosave_file_name, character_list, reconcile_candidate, sync_json_with_autosave, Candidate,
    JsonData, JsonField, ModifiedTimeStatus, StoreError, Target, EXPORT_DIRECTORY,
    LAST_CHARACTER_TYPE, LAST_MODIFIED_TIME, MAX_TRACKING_ITERATIONS, POLL_INTERVAL_MS,
    WATCH_DIRECTORY,
};
use sts_autosave_watch::controller::{
    discovery_step, export_step, tracking_step, ExportPlan, TrackDecision,
};
use sts_autosave_watch::mode::{FileIO, Mode, ModeSelector, Waiting, Watching};
use sts_autosave_watch::report::{
    compose_txt_basic_info, compose_txt_empty, compose_txt_enemies, decode_autosave,
    ExportError, SaveSummary,
};

fn record(last_modified_time: u64) -> JsonData {
    let mut d = JsonData::new();
    d.load_value(WATCH_DIRECTORY, JsonField::Text("saves/".to_string()));
    d.load_value(EXPORT_DIRECTORY, JsonField::Text("out/".to_string()));
    d.load_value(MAX_TRACKING_ITERATIONS, JsonField::Number(5));
    d.load_value(POLL_INTERVAL_MS, JsonField::Number(1000));
    d.load_value(LAST_MODIFIED_TIME, JsonField::Number(last_modified_time));
    d.load_value(LAST_CHARACTER_TYPE, JsonField::Text("WATCHER".to_string()));
    d
}

fn candidate(character: &str, time: Option<u64>) -> Candidate {
    Candidate {
        full_path: format!("saves/{}.autosave", character),
        character_type: character.to_string(),
        modified_time: time,
    }
}

fn waiting() -> Mode {
    Mode::IsWaiting(Waiting::new())
}

fn watching() -> Mode {
    Mode::IsWatching(Watching::new())
}

fn fileio() -> Mode {
    Mode::IsFileIO(FileIO::new())
}

fn stored_time(d: &JsonData) -> Option<JsonField> {
    d.get_value_from_key(LAST_MODIFIED_TIME)
}

#[test]
fn mode_from_grants_table_transitions() {
    for a in [waiting(), watching(), fileio()] {
        for b in [waiting(), watching(), fileio()] {
            if a == waiting() && b == watching() {
                continue;
            }
            assert_eq!(Mode::from(&a, &b), b);
        }
    }
}

#[test]
fn mode_from_refuses_discovery_to_tracking() {
    assert_eq!(Mode::from(&waiting(), &watching()), waiting());
    let mut s = ModeSelector::new();
    s.switch_mode(&watching());
    assert_eq!(s.current_mode(), waiting());
}

#[test]
fn selector_starts_in_discovery_with_export_pending() {
    let s = ModeSelector::new();
    assert_eq!(s.current_mode(), waiting());
    assert!(!s.has_target());
    assert!(s.do_writing());
    assert_eq!(s.times_repeated(), 0);
}

#[test]
fn selector_setters() {
    let mut s = ModeSelector::new();
    s.found_target();
    assert!(s.has_target());
    s.reset_target();
    assert!(!s.has_target());
    s.turn_off_do_writing();
    assert!(!s.do_writing());
    s.turn_on_do_writing();
    assert!(s.do_writing());
    s.increase_times_repeated();
    s.increase_times_repeated();
    assert_eq!(s.times_repeated(), 2);
    s.reset_times_repeated();
    assert_eq!(s.times_repeated(), 0);
    s.switch_mode(&fileio());
    assert_eq!(s.current_mode(), fileio());
}

#[test]
fn store_round_trip_of_modified_time() {
    let mut d = record(100);
    assert_eq!(d.update_json_body(LAST_MODIFIED_TIME, JsonField::Number(u64::MAX)), Ok(()));
    assert_eq!(stored_time(&d), Some(JsonField::Number(u64::MAX)));
    assert_eq!(d.update_json_body(LAST_MODIFIED_TIME, JsonField::Number(1_700_000_000)), Ok(()));
    assert_eq!(stored_time(&d), Some(JsonField::Number(1_700_000_000)));
}

#[test]
fn store_refuses_type_change() {
    let mut d = record(100);
    assert_eq!(
        d.update_json_body(LAST_MODIFIED_TIME, JsonField::Text("150".to_string())),
        Err(StoreError::TypeMismatch)
    );
    assert_eq!(stored_time(&d), Some(JsonField::Number(100)));
    d.load_value("odd", JsonField::Other);
    assert_eq!(d.update_json_body("odd", JsonField::Flag(true)), Err(StoreError::TypeMismatch));
}

#[test]
fn store_refuses_missing_key() {
    let mut d = record(100);
    assert_eq!(d.update_json_body("nothing", JsonField::Number(1)), Err(StoreError::MissingKey));
    assert_eq!(d.get_value_from_key("nothing"), None);
}

#[test]
fn load_value_replaces() {
    let mut d = record(100);
    d.load_value(LAST_CHARACTER_TYPE, JsonField::Flag(false));
    assert_eq!(d.get_value_from_key(LAST_CHARACTER_TYPE), Some(JsonField::Flag(false)));
    assert_eq!(stored_time(&d), Some(JsonField::Number(100)));
}

#[test]
fn target_reads_directories() {
    let d = record(0);
    let mut t = Target::new();
    assert_eq!(t.init_dir_path(&d), Ok(()));
    assert_eq!(t.autosave_dir_path(), "saves/");
    assert_eq!(t.write_txt_dir_path(), "out/");
    assert_eq!(t.full_path(), "");
    let mut bad = JsonData::new();
    bad.load_value(WATCH_DIRECTORY, JsonField::Number(3));
    bad.load_value(EXPORT_DIRECTORY, JsonField::Text("out/".to_string()));
    assert_eq!(t.init_dir_path(&bad), Err(StoreError::TypeMismatch));
    assert_eq!(t.init_dir_path(&JsonData::new()), Err(StoreError::MissingKey));
}

#[test]
fn compare_modified_time_classifies() {
    let d = record(100);
    assert_eq!(d.compare_modified_time(101), ModifiedTimeStatus::New);
    assert_eq!(d.compare_modified_time(100), ModifiedTimeStatus::Equal);
    assert_eq!(d.compare_modified_time(99), ModifiedTimeStatus::Old);
}

#[test]
fn newer_candidate_is_recorded_and_exported() {
    let mut s = ModeSelector::new();
    s.turn_off_do_writing();
    let mut t = Target::new();
    let mut d = record(100);
    let r = reconcile_candidate(&mut s, &mut t, &mut d, "saves/DEFECT.autosave", "DEFECT", 120);
    assert_eq!(r, ModifiedTimeStatus::New);
    assert_eq!(t.full_path(), "saves/DEFECT.autosave");
    assert_eq!(t.character_type(), "DEFECT");
    assert_eq!(t.modified_time(), 120);
    assert_eq!(stored_time(&d), Some(JsonField::Number(120)));
    assert_eq!(d.get_value_from_key(LAST_CHARACTER_TYPE), Some(JsonField::Text("DEFECT".to_string())));
    assert!(s.has_target());
    assert!(s.do_writing());
}

#[test]
fn equal_candidate_records_only_character() {
    let mut s = ModeSelector::new();
    let mut t = Target::new();
    let mut d = record(100);
    let r = reconcile_candidate(&mut s, &mut t, &mut d, "saves/DEFECT.autosave", "DEFECT", 100);
    assert_eq!(r, ModifiedTimeStatus::Equal);
    assert_eq!(t.character_type(), "DEFECT");
    assert_eq!(stored_time(&d), Some(JsonField::Number(100)));
    assert_eq!(d.get_value_from_key(LAST_CHARACTER_TYPE), Some(JsonField::Text("DEFECT".to_string())));
    assert!(s.has_target());
    assert!(!s.do_writing());
}

#[test]
fn older_candidate_changes_nothing() {
    let mut s = ModeSelector::new();
    let mut t = Target::new();
    let mut d = record(100);
    let r = reconcile_candidate(&mut s, &mut t, &mut d, "saves/DEFECT.autosave", "DEFECT", 99);
    assert_eq!(r, ModifiedTimeStatus::Old);
    assert_eq!(t.full_path(), "");
    assert_eq!(stored_time(&d), Some(JsonField::Number(100)));
    assert_eq!(d.get_value_from_key(LAST_CHARACTER_TYPE), Some(JsonField::Text("WATCHER".to_string())));
    assert!(!s.has_target());
    assert!(s.do_writing());
}

#[test]
fn stale_candidate_keeps_export_flag_of_scan() {
    let mut s = ModeSelector::new();
    s.turn_off_do_writing();
    let mut t = Target::new();
    let mut d = record(100);
    let cands = vec![
        candidate("IRONCLAD", Some(150)),
        candidate("THE SILENT", Some(120)),
        candidate("DEFECT", None),
    ];
    sync_json_with_autosave(&mut s, &mut t, &mut d, &cands);
    assert!(s.do_writing());
    assert_eq!(t.character_type(), "IRONCLAD");
    assert_eq!(stored_time(&d), Some(JsonField::Number(150)));
}

#[test]
fn scan_keeps_running_maximum() {
    let mut s = ModeSelector::new();
    let mut t = Target::new();
    let mut d = record(100);
    let cands = vec![
        candidate("IRONCLAD", Some(150)),
        candidate("THE SILENT", Some(150)),
        candidate("DEFECT", Some(140)),
        candidate("WATCHER", None),
    ];
    sync_json_with_autosave(&mut s, &mut t, &mut d, &cands);
    assert_eq!(t.character_type(), "THE SILENT");
    assert_eq!(stored_time(&d), Some(JsonField::Number(150)));
    assert!(!s.do_writing());
}

#[test]
fn newer_ironclad_leads_to_export() {
    let mut s = ModeSelector::new();
    s.turn_off_do_writing();
    let mut t = Target::new();
    let mut d = record(100);
    let cands = vec![candidate("IRONCLAD", Some(150))];
    discovery_step(&mut s, &mut t, &mut d, &cands);
    assert_eq!(stored_time(&d), Some(JsonField::Number(150)));
    assert!(s.do_writing());
    assert!(s.has_target());
    assert_eq!(t.full_path(), "saves/IRONCLAD.autosave");
    assert_eq!(s.current_mode(), fileio());
    assert_eq!(export_step(&mut s), ExportPlan::Reports);
    assert_eq!(s.current_mode(), watching());
}

#[test]
fn no_candidates_export_placeholders_then_discovery() {
    let mut s = ModeSelector::new();
    let mut t = Target::new();
    let mut d = record(150);
    let cands = vec![
        candidate("IRONCLAD", None),
        candidate("THE SILENT", None),
        candidate("DEFECT", None),
        candidate("WATCHER", None),
    ];
    discovery_step(&mut s, &mut t, &mut d, &cands);
    assert!(!s.has_target());
    assert_eq!(s.current_mode(), fileio());
    assert_eq!(export_step(&mut s), ExportPlan::Placeholders);
    assert_eq!(s.current_mode(), waiting());
    assert!(!s.do_writing());
    assert_eq!(stored_time(&d), Some(JsonField::Number(150)));
    discovery_step(&mut s, &mut t, &mut d, &cands);
    assert_eq!(s.current_mode(), waiting());
}

fn tracking_fixture() -> (ModeSelector, Target, JsonData) {
    let mut s = ModeSelector::new();
    s.turn_off_do_writing();
    let mut t = Target::new();
    let mut d = record(100);
    assert_eq!(t.init_dir_path(&d), Ok(()));
    discovery_step(&mut s, &mut t, &mut d, &vec![candidate("DEFECT", Some(200))]);
    assert_eq!(export_step(&mut s), ExportPlan::Reports);
    assert_eq!(s.current_mode(), watching());
    (s, t, d)
}

#[test]
fn tracking_unchanged_file_leaves_after_cap() {
    let (mut s, mut t, mut d) = tracking_fixture();
    for k in 0..5u16 {
        assert_eq!(s.times_repeated(), k);
        let r = tracking_step(&mut s, &mut t, &mut d, 5, Some(200));
        assert_eq!(r, TrackDecision::Stay);
        assert_eq!(s.current_mode(), watching());
    }
    let r = tracking_step(&mut s, &mut t, &mut d, 5, Some(200));
    assert_eq!(r, TrackDecision::ToDiscovery);
    assert_eq!(s.current_mode(), waiting());
    assert!(!s.do_writing());
}

#[test]
fn tracking_newer_file_goes_to_export() {
    let (mut s, mut t, mut d) = tracking_fixture();
    let r = tracking_step(&mut s, &mut t, &mut d, 5, Some(260));
    assert_eq!(r, TrackDecision::ToExport);
    assert_eq!(s.current_mode(), fileio());
    assert_eq!(stored_time(&d), Some(JsonField::Number(260)));
    assert_eq!(t.modified_time(), 260);
    s.increase_times_repeated();
    assert_eq!(export_step(&mut s), ExportPlan::Reports);
    assert!(!s.do_writing());
    assert_eq!(s.times_repeated(), 0);
}

#[test]
fn tracking_missing_file_goes_to_discovery() {
    let (mut s, mut t, mut d) = tracking_fixture();
    let r = tracking_step(&mut s, &mut t, &mut d, 5, None);
    assert_eq!(r, TrackDecision::ToDiscovery);
    assert_eq!(s.current_mode(), waiting());
    assert!(!s.has_target());
    assert_eq!(t.character_type(), "");
    assert_eq!(t.full_path(), "");
    assert_eq!(t.modified_time(), 0);
    assert_eq!(t.autosave_dir_path(), "saves/");
    assert_eq!(stored_time(&d), Some(JsonField::Number(200)));
}

#[test]
fn tracking_at_cap_keeps_target() {
    let (mut s, mut t, mut d) = tracking_fixture();
    let r = tracking_step(&mut s, &mut t, &mut d, 0, None);
    assert_eq!(r, TrackDecision::ToDiscovery);
    assert!(s.has_target());
    assert_eq!(t.character_type(), "DEFECT");
}

#[test]
fn tracking_records_target_character() {
    let (mut s, mut t, mut d) = tracking_fixture();
    assert_eq!(
        d.update_json_body(LAST_CHARACTER_TYPE, JsonField::Text("IRONCLAD".to_string())),
        Ok(())
    );
    let r = tracking_step(&mut s, &mut t, &mut d, 5, Some(200));
    assert_eq!(r, TrackDecision::Stay);
    assert_eq!(d.get_value_from_key(LAST_CHARACTER_TYPE), Some(JsonField::Text("DEFECT".to_string())));
}

#[test]
fn tracking_older_file_stays() {
    let (mut s, mut t, mut d) = tracking_fixture();
    let r = tracking_step(&mut s, &mut t, &mut d, 5, Some(10));
    assert_eq!(r, TrackDecision::Stay);
    assert_eq!(stored_time(&d), Some(JsonField::Number(200)));
    assert_eq!(s.times_repeated(), 1);
}

#[test]
fn candidate_names() {
    let l = character_list();
    assert_eq!(l, vec!["IRONCLAD", "THE SILENT", "DEFECT", "WATCHER"]);
    assert_eq!(autosave_file_name("THE SILENT"), "THE SILENT.autosave");
}

fn summary() -> SaveSummary {
    SaveSummary {
        name: "Neo".to_string(),
        ascension_level: 20,
        gold: 99,
        current_health: 7,
        max_health: 80,
        play_time: 1234567,
        monster_list: vec!["Cultist".to_string(), "Jaw Worm".to_string()],
        elite_monster_list: vec!["Lagavulin".to_string()],
        boss_list: vec![],
    }
}

#[test]
fn basic_info_text() {
    assert_eq!(
        compose_txt_basic_info(&summary()),
        "Player's Name: Neo\nAscension level: 20\nGold: 99\nHealth: 7/80\nPlay time: 1234567\n"
    );
}

#[test]
fn enemies_text() {
    assert_eq!(
        compose_txt_enemies(&summary()),
        "Monster1: Cultist\nMonster2: Jaw Worm\nElite1: Lagavulin\n"
    );
}

#[test]
fn empty_text() {
    assert_eq!(compose_txt_empty(), "---\n");
}

#[test]
fn undecodable_save_is_an_error() {
    assert!(matches!(decode_autosave("not a save"), Err(ExportError::Undecodable)));
    assert!(matches!(decode_autosave("{}"), Err(ExportError::Undecodable)));
}

#[test]
fn modified_time_survives_settings_text() {
    let mut d = record(100);
    let t: u64 = 18_446_744_073_709_551_000;
    assert_eq!(d.update_json_body(LAST_MODIFIED_TIME, JsonField::Number(t)), Ok(()));
    let n = match d.get_value_from_key(LAST_MODIFIED_TIME) {
        Some(JsonField::Number(n)) => n,
        other => panic!("unexpected {:?}", other),
    };
    let mut obj = serde_json::Map::new();
    obj.insert(LAST_MODIFIED_TIME.to_string(), serde_json::Value::from(n));
    let text = serde_json::Value::Object(obj).to_string();
    let back: serde_json::Value = serde_json::from_str(&text).unwrap();
    let mut reloaded = record(0);
    reloaded.load_value(LAST_MODIFIED_TIME, JsonField::Number(back[LAST_MODIFIED_TIME].as_u64().unwrap()));
    assert_eq!(reloaded.get_value_from_key(LAST_MODIFIED_TIME), Some(JsonField::Number(t)));
    assert_eq!(reloaded.compare_modified_time(t), ModifiedTimeStatus::Equal);
}

#[test]
fn valid_record_check() {
    assert!(record(0).is_valid_record());
    assert!(!JsonData::new().is_valid_record());
    let mut d = record(0);
    d.load_value(POLL_INTERVAL_MS, JsonField::Text("fast".to_string()));
    assert!(!d.is_valid_record());
}
