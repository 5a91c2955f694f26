use acapture::error::CaptureError;
use acapture::target::{get_target_by_id, list_targets, Target};

fn snapshot() -> Vec<Target> {
    vec![
        Target::Display { id: 1, title: String::from("Main Display") },
        Target::Window { id: 7, title: String::from("Editor") },
        Target::Window { id: 9, title: String::from("Browser") },
    ]
}

#[test]
fn resolve_present_id_returns_matching_target() {
    let targets = snapshot();
    let t = get_target_by_id(&targets, 7).unwrap();
    assert_eq!(t.id(), 7);
    assert_eq!(t.title(), "Editor");
    assert!(matches!(t, Target::Window { .. }));
}

#[test]
fn resolve_display_id() {
    let targets = snapshot();
    let t = get_target_by_id(&targets, 1).unwrap();
    assert_eq!(t.id(), 1);
    assert!(matches!(t, Target::Display { .. }));
}

#[test]
fn resolve_absent_id_fails_with_target_not_found() {
    let targets = snapshot();
    let r = get_target_by_id(&targets, 42);
    assert!(matches!(r, Err(CaptureError::TargetNotFound { id: 42 })));
}

#[test]
fn resolve_in_empty_snapshot_fails() {
    let targets: Vec<Target> = Vec::new();
    let r = get_target_by_id(&targets, 0);
    assert!(matches!(r, Err(CaptureError::TargetNotFound { id: 0 })));
}

#[test]
fn resolve_takes_first_of_equal_ids() {
    let targets = vec![
        Target::Window { id: 5, title: String::from("first") },
        Target::Window { id: 5, title: String::from("second") },
    ];
    let t = get_target_by_id(&targets, 5).unwrap();
    assert_eq!(t.title(), "first");
}

#[test]
fn list_targets_keeps_order_ids_and_titles() {
    let targets = snapshot();
    let pairs = list_targets(&targets);
    assert_eq!(pairs.len(), 3);
    assert_eq!(pairs[0], (1, String::from("Main Display")));
    assert_eq!(pairs[1], (7, String::from("Editor")));
    assert_eq!(pairs[2], (9, String::from("Browser")));
}
