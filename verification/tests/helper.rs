use doasedit::editor::{
    DOAS_EDITOR_VARIABLE, EDITOR_VARIABLE, FALLBACK_EDITOR, VISUAL_VARIABLE,
};
use doasedit::file_handler::{Action, Probe};
use doasedit::helper::{helper_arguments, startup_arguments, HELPER_COMMAND};

fn arguments(action: Action) -> Option<Vec<String>> {
    helper_arguments(action, "/etc/app/conf", "/etc/app", "/tmp/stage/conf")
}

fn words(items: &[&str]) -> Option<Vec<String>> {
    Some(items.iter().map(|item| item.to_string()).collect())
}

#[test]
fn startup_probe_does_nothing() {
    assert_eq!(startup_arguments(), vec!["dd", "status=none", "count=0", "of=/dev/null"]);
    assert_eq!(HELPER_COMMAND, "doas");
}

#[test]
fn helper_probes_test_the_path() {
    assert_eq!(
        arguments(Action::Probe(Probe::PrivilegedExists)),
        words(&["test", "-e", "/etc/app/conf"])
    );
    assert_eq!(
        arguments(Action::Probe(Probe::PrivilegedIsFile)),
        words(&["test", "-f", "/etc/app/conf"])
    );
    assert_eq!(
        arguments(Action::Probe(Probe::PrivilegedParentIsDir)),
        words(&["test", "-d", "/etc/app"])
    );
}

#[test]
fn helper_metadata_query_asks_for_owner_and_mode() {
    assert_eq!(
        arguments(Action::Probe(Probe::PrivilegedMetadata)),
        words(&["stat", "-c", "%u %a", "/etc/app/conf"])
    );
}

#[test]
fn helper_reads_checks_and_writes() {
    assert_eq!(arguments(Action::ReadPrivileged), words(&["cat", "/etc/app/conf"]));
    assert_eq!(arguments(Action::RunValidator), words(&["-C", "/tmp/stage/conf"]));
    assert_eq!(
        arguments(Action::WritePrivileged),
        words(&["dd", "status=none", "of=/etc/app/conf"])
    );
}

#[test]
fn other_actions_need_no_helper() {
    for action in [
        Action::Probe(Probe::DirectMetadata),
        Action::Probe(Probe::ParentMetadata),
        Action::CreateStaging,
        Action::CopyOriginal,
        Action::StoreContent,
        Action::Snapshot,
        Action::RunEditor,
        Action::AskUser,
        Action::ReadCopies,
        Action::WriteDirect,
        Action::RemoveStaging,
        Action::Stop,
    ] {
        assert_eq!(arguments(action), None);
    }
}

#[test]
fn editor_variables_in_their_order() {
    assert_eq!(DOAS_EDITOR_VARIABLE, "DOAS_EDITOR");
    assert_eq!(VISUAL_VARIABLE, "VISUAL");
    assert_eq!(EDITOR_VARIABLE, "EDITOR");
    assert_eq!(FALLBACK_EDITOR, "vi");
}
