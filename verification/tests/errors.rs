use doasedit::error::{
    cannot_create_file_in_own_dir, cannot_create_file_in_writable_dir, cannot_edit_directory,
    cannot_edit_own_file, cannot_edit_readable_writable_file, doas_cat_permission_denied,
    doas_unavailable, doas_validation_error, editor_error, interrupted, invalid_editor,
    io_failure, no_directory_exists, no_editor_specified, not_regular_file,
    root_user_not_allowed, three_incorrect_password_attempts, user_abort, DoaseditError,
    ErrorKind,
};

#[test]
fn messages_without_subject() {
    assert_eq!(
        root_user_not_allowed().to_string(),
        "using this program as root is not permitted"
    );
    assert_eq!(doas_unavailable().to_string(), "unable to run 'doas'");
    assert_eq!(no_editor_specified().to_string(), "no editor specified");
    assert_eq!(
        doas_cat_permission_denied().to_string(),
        "you are not permitted to call 'doas cat'"
    );
    assert_eq!(
        three_incorrect_password_attempts().to_string(),
        "3 incorrect password attempts"
    );
    assert_eq!(interrupted().to_string(), "interrupted");
    assert_eq!(editor_error().to_string(), "editor exited with non-zero status");
    assert_eq!(user_abort().to_string(), "aborted by user");
}

#[test]
fn messages_with_subject() {
    assert_eq!(invalid_editor("emacs").to_string(), "invalid editor command: 'emacs'");
    assert_eq!(
        cannot_edit_directory("/etc/").to_string(),
        "/etc/: cannot edit directories"
    );
    assert_eq!(not_regular_file("/etc").to_string(), "/etc: not a regular file");
    assert_eq!(
        cannot_edit_own_file("/home/u/x").to_string(),
        "/home/u/x: editing your own files is not permitted"
    );
    assert_eq!(
        cannot_create_file_in_own_dir("/home/u/new").to_string(),
        "/home/u/new: creating files in your own directory is not permitted"
    );
    assert_eq!(
        cannot_create_file_in_writable_dir("/srv/new").to_string(),
        "/srv/new: creating files in a user-writable directory is not permitted"
    );
    assert_eq!(no_directory_exists("/nowhere").to_string(), "/nowhere: no such directory");
    assert_eq!(
        cannot_edit_readable_writable_file("/srv/x").to_string(),
        "/srv/x: editing user-readable and -writable files is not permitted"
    );
    assert_eq!(
        doas_validation_error("Invalid stat output").to_string(),
        "doas validation error: Invalid stat output"
    );
    assert_eq!(io_failure("permission denied").to_string(), "permission denied");
}

#[test]
fn constructors_set_kind_and_subject() {
    let e = cannot_edit_own_file("/a");
    assert_eq!(e.kind, ErrorKind::CannotEditOwnFile);
    assert_eq!(e.subject, "/a");
    let e = user_abort();
    assert_eq!(e.kind, ErrorKind::UserAbort);
    assert_eq!(e.subject, "");
    assert_eq!(
        DoaseditError::with_subject(ErrorKind::NotRegularFile, "/x"),
        not_regular_file("/x")
    );
    assert_eq!(DoaseditError::of_kind(ErrorKind::Interrupted), interrupted());
}

#[test]
fn empty_subject_still_formats() {
    assert_eq!(invalid_editor("").to_string(), "invalid editor command: ''");
    assert_eq!(cannot_edit_directory("").to_string(), ": cannot edit directories");
}
