use boltdown::{
    check_read_size, plan_write, settings_or_null, settings_paths, staging_path, validate_path,
    AppError, WriteMode, MAX_FILE_SIZE,
};

#[test]
fn read_size_ceiling_is_fifty_mebibytes() {
    assert_eq!(MAX_FILE_SIZE, 52_428_800);
}

#[test]
fn read_size_at_ceiling_is_accepted() {
    assert!(check_read_size(0).is_ok());
    assert!(check_read_size(MAX_FILE_SIZE).is_ok());
}

#[test]
fn read_size_over_ceiling_is_refused() {
    match check_read_size(MAX_FILE_SIZE + 1) {
        Err(AppError::FileTooLarge { size, max }) => {
            assert_eq!(size, 52_428_801);
            assert_eq!(max, 52_428_800);
        }
        _ => panic!("expected FileTooLarge"),
    }
}

#[test]
fn staging_path_is_tmp_sibling() {
    assert_eq!(staging_path("/home/u/notes.md"), "/home/u/notes.md.tmp");
}

#[test]
fn atomic_plan_stages_then_renames() {
    let target = validate_path("/tmp/boltdown_plan_target.md").unwrap();
    let plan = plan_write(&target, WriteMode::Atomic);
    assert_eq!(plan.target, target.as_str());
    assert_eq!(plan.staging, format!("{}.tmp", target.as_str()));
    assert!(plan.needs_rename());
}

#[test]
fn direct_plan_writes_in_place() {
    let target = validate_path("/tmp/boltdown_plan_image.png").unwrap();
    let plan = plan_write(&target, WriteMode::Direct);
    assert_eq!(plan.staging, plan.target);
    assert!(!plan.needs_rename());
}

#[test]
fn settings_paths_in_data_dir() {
    let (file, staging) = settings_paths("/data/app");
    assert_eq!(file, "/data/app/settings.json");
    assert_eq!(staging, "/data/app/settings.json.tmp");
    let (file, _) = settings_paths("/data/app/");
    assert_eq!(file, "/data/app/settings.json");
}

#[test]
fn settings_absent_reads_as_null() {
    assert_eq!(settings_or_null(None), "null");
    assert_eq!(settings_or_null(Some("{\"a\":1}".to_string())), "{\"a\":1}");
}
