use doasedit::error::ErrorKind;
use doasedit::event::Event;
use doasedit::utils::{
    create_copy_filename, directory_of, filename_or_error, files_match, get_current_uid,
    get_file_metadata_with_doas, get_filename, get_parent_directory, has_prefix,
    is_dir_owned_by_user, is_dir_writable_by_user, is_directory_path, is_doas_config_file,
    is_file_owned_by_user, is_file_writable_by_user, parse_stat_output, same_text,
    FileMetadata, DEFAULT_MODE,
};

fn meta(is_dir: bool, uid: u32, mode: u32) -> FileMetadata {
    FileMetadata { is_dir, uid, mode }
}

#[test]
fn directory_paths_end_in_a_separator() {
    assert!(is_directory_path("/etc/"));
    assert!(is_directory_path("/"));
    assert!(is_directory_path("dir/"));
    assert!(!is_directory_path("/etc"));
    assert!(!is_directory_path(""));
    assert!(!is_directory_path("/etc/hosts"));
    assert!(!is_directory_path("/ü"));
}

#[test]
fn config_file_class() {
    assert!(is_doas_config_file("/etc/doas.conf"));
    assert!(is_doas_config_file("/etc/doas.d/local.conf"));
    assert!(is_doas_config_file("/etc/doas.d/"));
    assert!(!is_doas_config_file("/etc/doas.d"));
    assert!(!is_doas_config_file("/etc/doas.conf.bak"));
    assert!(!is_doas_config_file("/etc/doas"));
    assert!(!is_doas_config_file("/etc/hosts"));
    assert!(!is_doas_config_file("etc/doas.conf"));
    assert!(!is_doas_config_file(""));
}

#[test]
fn prefix_and_equality_of_texts() {
    assert!(has_prefix("abc", ""));
    assert!(has_prefix("abc", "ab"));
    assert!(has_prefix("abc", "abc"));
    assert!(!has_prefix("abc", "abcd"));
    assert!(!has_prefix("abc", "b"));
    assert!(has_prefix("üxy", "ü"));
    assert!(same_text("", ""));
    assert!(same_text("doas", "doas"));
    assert!(!same_text("doas", "doa"));
    assert!(!same_text("doas", "doaz"));
}

#[test]
fn parent_directory_of_a_path() {
    assert_eq!(get_parent_directory("/etc/doas.conf"), "/etc");
    assert_eq!(get_parent_directory("/etc/doas.d/a.conf"), "/etc/doas.d");
    assert_eq!(get_parent_directory("/hosts"), "/");
    assert_eq!(get_parent_directory("/"), "/");
    assert_eq!(get_parent_directory("hosts"), "");
    assert_eq!(get_parent_directory(""), "/");
}

#[test]
fn directory_without_a_parent_is_the_root() {
    assert_eq!(directory_of(None), "/");
    assert_eq!(directory_of(Some("/var".to_string())), "/var");
    assert_eq!(directory_of(Some(String::new())), "");
}

#[test]
fn file_name_of_a_path() {
    assert_eq!(get_filename("/etc/hosts").unwrap(), "hosts");
    assert_eq!(get_filename("hosts").unwrap(), "hosts");
    assert_eq!(get_filename("/etc/doas.d/a.conf").unwrap(), "a.conf");
    let e = get_filename("/").unwrap_err();
    assert_eq!(e.kind, ErrorKind::InvalidEditor);
    assert_eq!(e.to_string(), "invalid editor command: 'Invalid file path'");
    assert!(get_filename("/etc/..").is_err());
    assert!(get_filename("").is_err());
}

#[test]
fn missing_file_name_is_an_error() {
    assert_eq!(filename_or_error(Some("x".to_string())).unwrap(), "x");
    let e = filename_or_error(None).unwrap_err();
    assert_eq!(e.kind, ErrorKind::InvalidEditor);
    assert_eq!(e.subject, "Invalid file path");
}

#[test]
fn reference_copy_name() {
    assert_eq!(create_copy_filename("hosts"), "copy-of-hosts");
    assert_eq!(create_copy_filename(""), "copy-of-");
    assert_ne!(create_copy_filename("copy-of-x"), "copy-of-x");
}

#[test]
fn byte_exact_comparison() {
    assert!(files_match(b"", b""));
    assert!(files_match(b"abc\n", b"abc\n"));
    assert!(!files_match(b"abc\n", b"abc"));
    assert!(!files_match(b"abc", b"abd"));
    assert!(!files_match(b"a b", b"a  b"));
    assert!(!files_match(b"", b"\n"));
}

#[test]
fn ownership_is_equality_of_identities() {
    assert!(is_file_owned_by_user(&meta(false, 1000, 0o644), 1000));
    assert!(!is_file_owned_by_user(&meta(false, 0, 0o644), 1000));
    assert!(is_dir_owned_by_user(&meta(true, 1000, 0o755), 1000));
    assert!(!is_dir_owned_by_user(&meta(true, 0, 0o777), 1000));
}

#[test]
fn file_writability_needs_owner_and_owner_write_bit() {
    assert!(is_file_writable_by_user(&meta(false, 1000, 0o644), 1000));
    assert!(is_file_writable_by_user(&meta(false, 1000, 0o200), 1000));
    assert!(!is_file_writable_by_user(&meta(false, 1000, 0o444), 1000));
    assert!(!is_file_writable_by_user(&meta(false, 1000, 0o466), 1000));
    assert!(!is_file_writable_by_user(&meta(false, 0, 0o666), 1000));
}

#[test]
fn directory_writability_needs_owner_and_any_write_bit() {
    assert!(is_dir_writable_by_user(&meta(true, 1000, 0o755), 1000));
    assert!(is_dir_writable_by_user(&meta(true, 1000, 0o575), 1000));
    assert!(is_dir_writable_by_user(&meta(true, 1000, 0o557), 1000));
    assert!(!is_dir_writable_by_user(&meta(true, 1000, 0o555), 1000));
    assert!(!is_dir_writable_by_user(&meta(true, 0, 0o777), 1000));
}

#[test]
fn current_uid_is_the_real_identity() {
    assert_eq!(get_current_uid(), nix::unistd::getuid().as_raw());
}

#[test]
fn stat_output_with_owner_and_mode() {
    assert_eq!(parse_stat_output(b"0 644\n").unwrap(), (0, 0o644));
    assert_eq!(parse_stat_output(b"1000 600").unwrap(), (1000, 0o600));
    assert_eq!(parse_stat_output(b"  \t 33   4755  \n").unwrap(), (33, 0o4755));
    assert_eq!(parse_stat_output(b"0 644 trailing words").unwrap(), (0, 0o644));
    assert_eq!(parse_stat_output(b"+5 +7").unwrap(), (5, 7));
    assert_eq!(parse_stat_output(b"4294967295 777").unwrap(), (u32::MAX, 0o777));
    assert_eq!(parse_stat_output(b"007 0644").unwrap(), (7, 0o644));
    assert_eq!(parse_stat_output(b"0 37777777777").unwrap(), (0, u32::MAX));
    assert_eq!(parse_stat_output(b"10 10").unwrap(), (10, 8));
}

#[test]
fn stat_output_parted_by_any_white_space() {
    let blanks = [
        "\u{9}", "\u{a}", "\u{b}", "\u{c}", "\u{d}", " ", "\u{85}", "\u{a0}", "\u{1680}",
        "\u{2000}", "\u{2005}", "\u{200a}", "\u{2028}", "\u{2029}", "\u{202f}", "\u{205f}",
        "\u{3000}",
    ];
    for blank in blanks {
        let text = format!("{}1000{}{}640{}", blank, blank, blank, blank);
        assert_eq!(parse_stat_output(text.as_bytes()).unwrap(), (1000, 0o640), "{:?}", blank);
    }
}

#[test]
fn stat_output_not_parted_by_what_is_no_white_space() {
    for other in ["\u{200b}", "\u{feff}", "\u{2060}", "\u{180e}", "\u{84}", "\u{200c}", "_"] {
        let text = format!("1000{}640", other);
        let e = parse_stat_output(text.as_bytes()).unwrap_err();
        assert_eq!(e.to_string(), "doas validation error: Invalid stat output", "{:?}", other);
    }
    assert!(parse_stat_output(b"1000\xe2\x80 640").is_err());
    assert_eq!(parse_stat_output(b"1000 640\xe2\x80").unwrap(), (1000, 0o644));
    assert_eq!(
        parse_stat_output(b"7\xc2 640\xc2").unwrap_err().to_string(),
        "doas validation error: Invalid UID format"
    );
}

#[test]
fn stat_output_is_split_as_text_is_split() {
    let samples = [
        "0 644", "  12\t\t755\n", "1\u{a0}2", "1\u{2003}2\u{3000}3", "\u{1680}5 6", "5\u{200b}6 7",
        "9", "", "\u{85}", "a\u{2028}b\u{2029}c", "1\u{202f}2\u{205f}3",
    ];
    for sample in samples {
        let words: Vec<&str> = sample.split_whitespace().collect();
        let parsed = parse_stat_output(sample.as_bytes());
        if words.len() < 2 {
            assert_eq!(
                parsed.unwrap_err().to_string(),
                "doas validation error: Invalid stat output"
            );
        } else {
            match words[0].parse::<u32>() {
                Ok(owner) => {
                    let mode = u32::from_str_radix(words[1], 8).unwrap_or(0o644);
                    assert_eq!(parsed.unwrap(), (owner, mode), "{:?}", sample);
                }
                Err(_) => assert_eq!(
                    parsed.unwrap_err().to_string(),
                    "doas validation error: Invalid UID format"
                ),
            }
        }
    }
}

#[test]
fn stat_output_with_unreadable_mode_falls_back() {
    assert_eq!(parse_stat_output(b"0 rw-r--r--").unwrap(), (0, DEFAULT_MODE));
    assert_eq!(parse_stat_output(b"0 648").unwrap(), (0, 0o644));
    assert_eq!(parse_stat_output(b"7 77777777777777").unwrap(), (7, 0o644));
    assert_eq!(parse_stat_output(b"7 40000000000").unwrap(), (7, 0o644));
    assert_eq!(parse_stat_output(b"7 +").unwrap(), (7, 0o644));
    assert_eq!(parse_stat_output(b"7 -1").unwrap(), (7, 0o644));
    assert_eq!(DEFAULT_MODE, 0o644);
}

#[test]
fn stat_output_with_too_few_words() {
    let short: [&[u8]; 4] = [b"", b"\n", b"0", b"  1000  \n"];
    for text in short {
        let e = parse_stat_output(text).unwrap_err();
        assert_eq!(e.kind, ErrorKind::DoasValidationError);
        assert_eq!(e.to_string(), "doas validation error: Invalid stat output");
    }
}

#[test]
fn stat_output_with_unreadable_owner() {
    let unreadable: [&[u8]; 5] =
        [b"root 644", b"-1 644", b"4294967296 644", b"1e3 644", b"+ 644"];
    for text in unreadable {
        let e = parse_stat_output(text).unwrap_err();
        assert_eq!(e.kind, ErrorKind::DoasValidationError);
        assert_eq!(e.to_string(), "doas validation error: Invalid UID format");
    }
}

#[test]
fn metadata_query_through_the_helper() {
    let ok = Event::Exited { success: true, output: b"0 600\n".to_vec() };
    assert_eq!(get_file_metadata_with_doas(&ok).unwrap(), (0, 0o600));
    let refused = Event::Exited { success: false, output: b"0 600\n".to_vec() };
    assert_eq!(
        get_file_metadata_with_doas(&refused).unwrap_err().kind,
        ErrorKind::DoasCatPermissionDenied
    );
    let absent = Event::SpawnFailure("no such file".to_string());
    assert_eq!(
        get_file_metadata_with_doas(&absent).unwrap_err().kind,
        ErrorKind::DoasUnavailable
    );
    assert_eq!(
        get_file_metadata_with_doas(&Event::Done).unwrap_err().kind,
        ErrorKind::DoasUnavailable
    );
    let garbled = Event::Exited { success: true, output: b"nonsense".to_vec() };
    assert_eq!(
        get_file_metadata_with_doas(&garbled).unwrap_err().to_string(),
        "doas validation error: Invalid stat output"
    );
}
