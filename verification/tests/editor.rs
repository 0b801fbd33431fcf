use doasedit::editor::{
    copy_original_content, create_secure_temp_copy, editor_candidate, editor_to_probe,
    get_editor_command, join_path, open_file_with_editor, parse_choice, read_choice,
    staging_pair_for, validate_doas_config, Choice, Loaded, ValidatorEvent, ValidatorState,
    STAGING_MODE,
};
use doasedit::error::ErrorKind;
use doasedit::event::Event;

fn exited(success: bool) -> Event {
    Event::Exited { success, output: Vec::new() }
}

#[test]
fn first_configured_editor_wins() {
    assert_eq!(editor_candidate(Some("nano"), Some("vim"), Some("ed")), Some("nano"));
    assert_eq!(editor_candidate(None, Some("vim"), Some("ed")), Some("vim"));
    assert_eq!(editor_candidate(Some(""), Some(""), Some("ed")), Some("ed"));
    assert_eq!(editor_candidate(Some(""), None, Some("")), None);
    assert_eq!(editor_candidate(None, None, None), None);
}

#[test]
fn command_to_probe_is_candidate_or_fallback() {
    assert_eq!(editor_to_probe(None, Some("vim"), None), "vim");
    assert_eq!(editor_to_probe(None, None, None), "vi");
    assert_eq!(editor_to_probe(Some(""), Some(""), Some("")), "vi");
}

#[test]
fn runnable_editor_is_chosen() {
    assert_eq!(get_editor_command(Some("nano"), Some("vim"), None, true).unwrap(), "nano");
    assert_eq!(get_editor_command(Some(""), None, Some("ed"), true).unwrap(), "ed");
    assert_eq!(get_editor_command(None, None, None, true).unwrap(), "vi");
}

#[test]
fn named_editor_that_cannot_run_is_an_error() {
    let e = get_editor_command(Some("nano"), Some("vim"), Some("ed"), false).unwrap_err();
    assert_eq!(e.kind, ErrorKind::InvalidEditor);
    assert_eq!(e.to_string(), "invalid editor command: 'nano'");
    let e = get_editor_command(None, None, Some("vi"), false).unwrap_err();
    assert_eq!(e.to_string(), "invalid editor command: 'vi'");
}

#[test]
fn missing_fallback_editor_is_no_editor() {
    let e = get_editor_command(None, Some(""), None, false).unwrap_err();
    assert_eq!(e.kind, ErrorKind::NoEditorSpecified);
    assert_eq!(e.to_string(), "no editor specified");
}

#[test]
fn editor_exit_is_read() {
    assert!(open_file_with_editor(&exited(true)).is_ok());
    assert_eq!(
        open_file_with_editor(&exited(false)).unwrap_err().kind,
        ErrorKind::EditorError
    );
    let e = open_file_with_editor(&Event::SpawnFailure("No such file".to_string())).unwrap_err();
    assert_eq!(e.to_string(), "invalid editor command: 'No such file'");
    assert_eq!(
        open_file_with_editor(&Event::Done).unwrap_err().kind,
        ErrorKind::Interrupted
    );
}

#[test]
fn staging_copies_keep_and_derive_the_name() {
    let pair = create_secure_temp_copy("/etc/hosts", "/tmp/stage").unwrap();
    assert_eq!(pair.working_path, "/tmp/stage/hosts");
    assert_eq!(pair.reference_path, "/tmp/stage/copy-of-hosts");
    let pair = create_secure_temp_copy("relative.conf", "/tmp/stage/").unwrap();
    assert_eq!(pair.working_path, "/tmp/stage/relative.conf");
    assert_eq!(pair.reference_path, "/tmp/stage/copy-of-relative.conf");
    assert_ne!(pair.working_path, pair.reference_path);
    assert_eq!(STAGING_MODE, 0o600);
}

#[test]
fn paths_are_joined_as_the_platform_joins_them() {
    let directories = ["", "/", "/tmp", "/tmp/", "/tmp//", "tmp", "tmp/", ".", "/tmp/a b", "/ü"];
    let names = ["", "hosts", "copy-of-hosts", "/hosts", "/", "a/b", "./x", "..", "ü", " x"];
    for directory in directories {
        for name in names {
            let expected = std::path::Path::new(directory).join(name);
            assert_eq!(
                join_path(directory, name),
                expected.to_str().unwrap(),
                "joining {:?} and {:?}",
                directory,
                name
            );
        }
    }
}

#[test]
fn joined_paths_by_case() {
    assert_eq!(join_path("/tmp", "hosts"), "/tmp/hosts");
    assert_eq!(join_path("/tmp/", "hosts"), "/tmp/hosts");
    assert_eq!(join_path("", "hosts"), "hosts");
    assert_eq!(join_path("/tmp", "/etc/hosts"), "/etc/hosts");
    assert_eq!(join_path("/tmp", ""), "/tmp/");
}

#[test]
fn staging_copies_never_share_a_path() {
    for directory in ["", "/", "/tmp", "/tmp/"] {
        for name in ["", "hosts", "/hosts", "copy-of-hosts", "/"] {
            let pair = staging_pair_for(name, directory);
            assert_ne!(pair.working_path, pair.reference_path);
            assert!(pair.reference_path.starts_with(directory));
        }
    }
}

#[test]
fn staging_pair_for_a_name() {
    let pair = staging_pair_for("doas.conf", "/run/x");
    assert_eq!(pair.working_path, "/run/x/doas.conf");
    assert_eq!(pair.reference_path, "/run/x/copy-of-doas.conf");
}

#[test]
fn staging_needs_a_file_name() {
    let e = create_secure_temp_copy("/", "/tmp/stage").unwrap_err();
    assert_eq!(e.kind, ErrorKind::InvalidEditor);
    assert_eq!(e.subject, "Invalid file path");
}

#[test]
fn direct_load_is_a_file_operation() {
    assert_eq!(copy_original_content(false, Event::Done), Loaded::Complete);
    match copy_original_content(false, Event::IoFailure("denied".to_string())) {
        Loaded::Failed(e) => {
            assert_eq!(e.kind, ErrorKind::Io);
            assert_eq!(e.to_string(), "denied");
        }
        other => panic!("unexpected {:?}", other),
    }
    match copy_original_content(false, exited(true)) {
        Loaded::Failed(e) => assert_eq!(e.kind, ErrorKind::Interrupted),
        other => panic!("unexpected {:?}", other),
    }
}

#[test]
fn privileged_load_hands_over_the_content() {
    let event = Event::Exited { success: true, output: b"secret=1\n".to_vec() };
    assert_eq!(copy_original_content(true, event), Loaded::Store(b"secret=1\n".to_vec()));
    for event in [
        exited(false),
        Event::SpawnFailure("x".to_string()),
        Event::Done,
        Event::IoFailure("y".to_string()),
    ] {
        match copy_original_content(true, event) {
            Loaded::Failed(e) => {
                assert_eq!(e.kind, ErrorKind::DoasCatPermissionDenied);
                assert_eq!(e.to_string(), "you are not permitted to call 'doas cat'");
            }
            other => panic!("unexpected {:?}", other),
        }
    }
}

#[test]
fn normalised_answers() {
    assert_eq!(parse_choice("o"), Choice::Overwrite);
    assert_eq!(parse_choice("a"), Choice::Abort);
    assert_eq!(parse_choice("e"), Choice::EditAgain);
    assert_eq!(parse_choice(""), Choice::EditAgain);
    assert_eq!(parse_choice("O"), Choice::EditAgain);
    assert_eq!(parse_choice("oa"), Choice::EditAgain);
    assert_eq!(parse_choice(" o"), Choice::EditAgain);
}

#[test]
fn answers_are_trimmed() {
    assert_eq!(read_choice("o\n"), Choice::Overwrite);
    assert_eq!(read_choice("  a \t\r\n"), Choice::Abort);
    assert_eq!(read_choice("\n"), Choice::EditAgain);
}

#[test]
fn answers_ignore_case() {
    assert_eq!(read_choice("O"), Choice::Overwrite);
    assert_eq!(read_choice("A"), Choice::Abort);
    assert_eq!(read_choice("E"), Choice::EditAgain);
}

#[test]
fn unknown_answers_edit_again() {
    for line in ["", "e\n", "x\n", "yes\n", "abort\n", "o a\n", "0\n"] {
        assert_eq!(read_choice(line), Choice::EditAgain);
    }
}

#[test]
fn validator_checks_after_the_editor_closes() {
    assert_eq!(
        validate_doas_config(ValidatorState::Editing, ValidatorEvent::EditorClosed),
        ValidatorState::CheckPending { asked: false }
    );
    for event in [
        ValidatorEvent::CheckPassed,
        ValidatorEvent::CheckFailed,
        ValidatorEvent::Chose(Choice::Overwrite),
        ValidatorEvent::Chose(Choice::Abort),
    ] {
        assert_eq!(validate_doas_config(ValidatorState::Editing, event), ValidatorState::Editing);
    }
}

#[test]
fn validator_commits_on_a_passing_check() {
    let pending = ValidatorState::CheckPending { asked: false };
    assert_eq!(
        validate_doas_config(pending, ValidatorEvent::CheckPassed),
        ValidatorState::Committed
    );
    assert_eq!(
        validate_doas_config(pending, ValidatorEvent::CheckFailed),
        ValidatorState::CheckPending { asked: true }
    );
    assert_eq!(
        validate_doas_config(pending, ValidatorEvent::Chose(Choice::Overwrite)),
        pending
    );
    assert_eq!(validate_doas_config(pending, ValidatorEvent::Chose(Choice::Abort)), pending);
}

#[test]
fn validator_follows_the_users_choice() {
    let asked = ValidatorState::CheckPending { asked: true };
    assert_eq!(
        validate_doas_config(asked, ValidatorEvent::Chose(Choice::EditAgain)),
        ValidatorState::Editing
    );
    assert_eq!(
        validate_doas_config(asked, ValidatorEvent::Chose(Choice::Overwrite)),
        ValidatorState::Committed
    );
    assert_eq!(
        validate_doas_config(asked, ValidatorEvent::Chose(Choice::Abort)),
        ValidatorState::Aborted
    );
    assert_eq!(validate_doas_config(asked, ValidatorEvent::CheckPassed), asked);
    assert_eq!(validate_doas_config(asked, ValidatorEvent::EditorClosed), asked);
}

#[test]
fn validator_stays_in_its_final_states() {
    for event in [
        ValidatorEvent::EditorClosed,
        ValidatorEvent::CheckPassed,
        ValidatorEvent::CheckFailed,
        ValidatorEvent::Chose(Choice::EditAgain),
        ValidatorEvent::Chose(Choice::Overwrite),
        ValidatorEvent::Chose(Choice::Abort),
    ] {
        assert_eq!(
            validate_doas_config(ValidatorState::Committed, event),
            ValidatorState::Committed
        );
        assert_eq!(validate_doas_config(ValidatorState::Aborted, event), ValidatorState::Aborted);
    }
}

#[test]
fn validator_loops_until_the_check_passes() {
    let mut state = ValidatorState::Editing;
    for event in [
        ValidatorEvent::EditorClosed,
        ValidatorEvent::CheckFailed,
        ValidatorEvent::Chose(Choice::EditAgain),
        ValidatorEvent::EditorClosed,
        ValidatorEvent::CheckFailed,
        ValidatorEvent::Chose(Choice::EditAgain),
        ValidatorEvent::EditorClosed,
    ] {
        state = validate_doas_config(state, event);
        assert_ne!(state, ValidatorState::Committed);
        assert_ne!(state, ValidatorState::Aborted);
    }
    assert_eq!(
        validate_doas_config(state, ValidatorEvent::CheckPassed),
        ValidatorState::Committed
    );
}
