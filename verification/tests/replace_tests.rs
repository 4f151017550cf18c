use self_update::replace::replace_exe;

#[test]
fn failed_rename_leaves_installed_contents_unchanged_and_errors() {
    let old = b"original binary".to_vec();
    let new = b"brand new binary".to_vec();
    let outcome = replace_exe(old.clone(), new, true, false);
    assert!(!outcome.replaced);
    assert_eq!(outcome.installed, old);
    assert_eq!(outcome.backup, Some(old));
}

#[test]
fn successful_rename_installs_the_new_contents_exactly() {
    let old = b"original binary".to_vec();
    let new = b"brand new binary".to_vec();
    let outcome = replace_exe(old.clone(), new.clone(), true, true);
    assert!(outcome.replaced);
    assert_eq!(outcome.installed, new);
    assert_eq!(outcome.backup, Some(old));
}

#[test]
fn failed_backup_aborts_before_any_destructive_step() {
    let old = b"original binary".to_vec();
    let new = b"brand new binary".to_vec();
    let outcome = replace_exe(old.clone(), new, false, true);
    assert!(!outcome.replaced);
    assert_eq!(outcome.installed, old);
    assert_eq!(outcome.backup, None);
}
