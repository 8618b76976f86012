use boltdown::{resolve, validate_path, AppError};

#[test]
fn test_validate_existing_path() {
    let result = validate_path("/tmp");
    assert!(result.is_ok());
}

#[test]
fn test_validate_nonexistent_parent() {
    let result = validate_path("/nonexistent/path/file.txt");
    assert!(result.is_err());
}

#[test]
fn test_validate_new_file_in_existing_dir() {
    let result = validate_path("/tmp/boltdown_test_new_file.txt");
    assert!(result.is_ok());
}

#[test]
fn validate_new_file_joins_canonical_parent() {
    let result = validate_path("/tmp/../tmp/boltdown_test_joined_file.txt").unwrap();
    let expected = std::path::Path::new("/tmp")
        .canonicalize()
        .unwrap()
        .join("boltdown_test_joined_file.txt");
    assert_eq!(result.as_str(), expected.to_str().unwrap());
}

#[test]
fn validate_existing_path_collapses_parent_reference() {
    let result = validate_path("/tmp/..").unwrap();
    assert_eq!(result.as_str(), "/");
}

#[test]
fn validate_missing_parent_reports_reason() {
    match validate_path("/nonexistent/path/file.txt") {
        Err(AppError::PathValidation(m)) => {
            assert!(m.starts_with("Parent directory does not exist: "))
        }
        other => panic!("unexpected {:?}", other.map(|v| v.into_string())),
    }
}

#[test]
fn resolve_takes_direct_canonical_form() {
    let r = resolve(
        Ok("/home/u/notes.md".to_string()),
        Some("/home/u".to_string()),
        Some("notes.md".to_string()),
        Err(String::new()),
    );
    assert_eq!(r.unwrap().as_str(), "/home/u/notes.md");
}

#[test]
fn resolve_rejects_surviving_parent_component() {
    let r = resolve(
        Ok("/home/u/../etc/passwd".to_string()),
        None,
        None,
        Err(String::new()),
    );
    assert!(matches!(r, Err(AppError::PathTraversal)));
}

#[test]
fn resolve_rejects_parent_component_at_end() {
    let r = resolve(Ok("/a/..".to_string()), None, None, Err(String::new()));
    assert!(matches!(r, Err(AppError::PathTraversal)));
}

#[test]
fn resolve_accepts_dotted_names() {
    let r = resolve(Ok("/a/..b/c..".to_string()), None, None, Err(String::new()));
    assert_eq!(r.unwrap().as_str(), "/a/..b/c..");
}

#[test]
fn resolve_joins_new_file_to_parent() {
    let r = resolve(
        Err("missing".to_string()),
        Some("docs".to_string()),
        Some("new.md".to_string()),
        Ok("/home/u/docs".to_string()),
    );
    assert_eq!(r.unwrap().as_str(), "/home/u/docs/new.md");
}

#[test]
fn resolve_joins_new_file_to_root() {
    let r = resolve(
        Err("missing".to_string()),
        Some("/".to_string()),
        Some("new.md".to_string()),
        Ok("/".to_string()),
    );
    assert_eq!(r.unwrap().as_str(), "/new.md");
}

#[test]
fn resolve_without_parent_fails() {
    let r = resolve(Err("missing".to_string()), None, None, Err(String::new()));
    match r {
        Err(AppError::PathValidation(m)) => assert_eq!(m, "No parent directory"),
        _ => panic!("expected a validation failure"),
    }
}

#[test]
fn resolve_without_file_name_fails() {
    let r = resolve(
        Err("missing".to_string()),
        Some("a".to_string()),
        None,
        Err(String::new()),
    );
    match r {
        Err(AppError::PathValidation(m)) => assert_eq!(m, "No file name"),
        _ => panic!("expected a validation failure"),
    }
}

#[test]
fn resolve_with_missing_parent_fails() {
    let r = resolve(
        Err("missing".to_string()),
        Some("/gone".to_string()),
        Some("f.txt".to_string()),
        Err("No such file or directory".to_string()),
    );
    match r {
        Err(AppError::PathValidation(m)) => {
            assert_eq!(m, "Parent directory does not exist: No such file or directory")
        }
        _ => panic!("expected a validation failure"),
    }
}
