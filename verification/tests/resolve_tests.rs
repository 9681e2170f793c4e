use imgopt::config::FileConflictMode;
use imgopt::error::AppError;
use imgopt::resolve::resolve_output_path;

fn strings(items: &[&str]) -> Vec<String> {
    items.iter().map(|s| s.to_string()).collect()
}

#[test]
fn overwrite_always_keeps_the_base_path() {
    let existing = strings(&["out/foo.png"]);
    let r = resolve_output_path(&"out/foo.png".to_string(), &FileConflictMode::Overwrite, &existing);
    assert_eq!(r.unwrap(), Some("out/foo.png".to_string()));
}

#[test]
fn skip_on_existing_path_returns_no_output() {
    let existing = strings(&["out/foo.png"]);
    let r = resolve_output_path(&"out/foo.png".to_string(), &FileConflictMode::Skip, &existing);
    assert_eq!(r.unwrap(), None);
}

#[test]
fn skip_on_free_path_keeps_the_base_path() {
    let existing = strings(&["out/bar.png"]);
    let r = resolve_output_path(&"out/foo.png".to_string(), &FileConflictMode::Skip, &existing);
    assert_eq!(r.unwrap(), Some("out/foo.png".to_string()));
}

#[test]
fn rename_on_free_path_keeps_the_base_path() {
    let existing = strings(&[]);
    let r = resolve_output_path(&"out/foo.png".to_string(), &FileConflictMode::Rename, &existing);
    assert_eq!(r.unwrap(), Some("out/foo.png".to_string()));
}

#[test]
fn rename_appends_counter_one() {
    let existing = strings(&["out/foo.png"]);
    let r = resolve_output_path(&"out/foo.png".to_string(), &FileConflictMode::Rename, &existing);
    assert_eq!(r.unwrap(), Some("out/foo_(1).png".to_string()));
}

#[test]
fn rename_increments_past_taken_counters() {
    let existing = strings(&["out/foo.png", "out/foo_(1).png"]);
    let r = resolve_output_path(&"out/foo.png".to_string(), &FileConflictMode::Rename, &existing);
    assert_eq!(r.unwrap(), Some("out/foo_(2).png".to_string()));
}

#[test]
fn rename_works_without_a_directory() {
    let existing = strings(&["foo.png"]);
    let r = resolve_output_path(&"foo.png".to_string(), &FileConflictMode::Rename, &existing);
    assert_eq!(r.unwrap(), Some("foo_(1).png".to_string()));
}

#[test]
fn rename_fails_after_a_thousand_conflicts() {
    let mut existing = vec!["out/foo.png".to_string()];
    for n in 1..=1000 {
        existing.push(format!("out/foo_({}).png", n));
    }
    let r = resolve_output_path(&"out/foo.png".to_string(), &FileConflictMode::Rename, &existing);
    assert!(matches!(r, Err(AppError::ConflictExhausted)));
}

#[test]
fn rename_needs_an_extension() {
    let existing = strings(&["out/foo"]);
    let r = resolve_output_path(&"out/foo".to_string(), &FileConflictMode::Rename, &existing);
    assert!(matches!(r, Err(AppError::InvalidConfig(_))));
}

#[test]
fn rename_needs_a_file_name() {
    let existing = strings(&["out/"]);
    let r = resolve_output_path(&"out/".to_string(), &FileConflictMode::Rename, &existing);
    assert!(matches!(r, Err(AppError::InvalidConfig(_))));
}
