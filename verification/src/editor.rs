//! The editor: which command it is, how its exit is read, where the staging
//! copies go, and the validation that a configuration file has to pass after
//! editing.

use crate::error::{about, plain, DoaseditError, ErrorKind, ErrorView};
use crate::error::{
    doas_cat_permission_denied, editor_error, interrupted, invalid_editor, io_failure,
    no_editor_specified,
};
use crate::event::{unit_result, Event, EventView};
use crate::utils::{
    create_copy_filename, get_filename, name_or_error, path_file_name_of, same_text,
    spec_copy_filename, text_result,
};
use vstd::prelude::*;

verus! {

/// The variable that names the editor for this program alone; it is looked at
/// first.
pub const DOAS_EDITOR_VARIABLE: &'static str = "DOAS_EDITOR";

/// The variable that names the visual editor; it is looked at second.
pub const VISUAL_VARIABLE: &'static str = "VISUAL";

/// The variable that names the editor; it is looked at last.
pub const EDITOR_VARIABLE: &'static str = "EDITOR";

/// The command of the editor that is tried where none is configured.
pub const FALLBACK_EDITOR: &'static str = "vi";

/// The editor that is tried where none is configured.
pub open spec fn fallback_editor() -> Seq<char> {
    FALLBACK_EDITOR@
}

/// The first of the three configured editor commands that is set and not empty,
/// in the order of their precedence.
pub open spec fn spec_editor_candidate(
    doas_editor: Option<Seq<char>>,
    visual: Option<Seq<char>>,
    editor: Option<Seq<char>>,
) -> Option<Seq<char>> {
    if doas_editor is Some && doas_editor->0.len() > 0 {
        doas_editor
    } else if visual is Some && visual->0.len() > 0 {
        visual
    } else if editor is Some && editor->0.len() > 0 {
        editor
    } else {
        None
    }
}

/// The command whose presence decides the editor: the configured one, or the
/// fallback.
pub open spec fn spec_editor_to_probe(
    doas_editor: Option<Seq<char>>,
    visual: Option<Seq<char>>,
    editor: Option<Seq<char>>,
) -> Seq<char> {
    match spec_editor_candidate(doas_editor, visual, editor) {
        Some(command) => command,
        None => fallback_editor(),
    }
}

/// The editor to use, given whether the command to probe can be run. A
/// configured command that cannot be run is an error and never gives way to the
/// next one.
pub open spec fn spec_editor_command(
    doas_editor: Option<Seq<char>>,
    visual: Option<Seq<char>>,
    editor: Option<Seq<char>>,
    runnable: bool,
) -> Result<Seq<char>, ErrorView> {
    match spec_editor_candidate(doas_editor, visual, editor) {
        Some(command) => if runnable {
            Ok(command)
        } else {
            Err(about(ErrorKind::InvalidEditor, command))
        },
        None => if runnable {
            Ok(fallback_editor())
        } else {
            Err(plain(ErrorKind::NoEditorSpecified))
        },
    }
}

fn is_set(value: &Option<&str>) -> (set: bool)
    ensures
        set == (value.deep_view() is Some && value.deep_view()->0.len() > 0),
{
    match value {
        Some(text) => !text.is_empty(),
        None => false,
    }
}

/// The configured editor command, from the values of the edit-specific
/// variable, the visual-editor variable and the editor variable.
pub fn editor_candidate<'a>(
    doas_editor: Option<&'a str>,
    visual: Option<&'a str>,
    editor: Option<&'a str>,
) -> (candidate: Option<&'a str>)
    ensures
        candidate.deep_view() == spec_editor_candidate(
            doas_editor.deep_view(),
            visual.deep_view(),
            editor.deep_view(),
        ),
{
    if is_set(&doas_editor) {
        doas_editor
    } else if is_set(&visual) {
        visual
    } else if is_set(&editor) {
        editor
    } else {
        None
    }
}

/// The command that the caller has to try to run before the editor is chosen.
pub fn editor_to_probe(
    doas_editor: Option<&str>,
    visual: Option<&str>,
    editor: Option<&str>,
) -> (command: String)
    ensures
        command@ == spec_editor_to_probe(
            doas_editor.deep_view(),
            visual.deep_view(),
            editor.deep_view(),
        ),
{
    match editor_candidate(doas_editor, visual, editor) {
        Some(command) => String::from_str(command),
        None => String::from_str(FALLBACK_EDITOR),
    }
}

/// The editor command for this run: the first configured one, or the fallback,
/// where `runnable` says that [`editor_to_probe`] of the same values can be run.
pub fn get_editor_command(
    doas_editor: Option<&str>,
    visual: Option<&str>,
    editor: Option<&str>,
    runnable: bool,
) -> (result: Result<String, DoaseditError>)
    ensures
        text_result(result) == spec_editor_command(
            doas_editor.deep_view(),
            visual.deep_view(),
            editor.deep_view(),
            runnable,
        ),
{
    match editor_candidate(doas_editor, visual, editor) {
        Some(command) => if runnable {
            Ok(String::from_str(command))
        } else {
            Err(invalid_editor(command))
        },
        None => if runnable {
            Ok(String::from_str(FALLBACK_EDITOR))
        } else {
            Err(no_editor_specified())
        },
    }
}

/// How an event reads as the end of an editor run: a failure status and an
/// editor that did not start are errors of their own.
pub open spec fn spec_editor_outcome(event: EventView) -> Result<(), ErrorView> {
    match event {
        EventView::Exited { success, .. } => if success {
            Ok(())
        } else {
            Err(plain(ErrorKind::EditorError))
        },
        EventView::SpawnFailure(message) => Err(about(ErrorKind::InvalidEditor, message)),
        _ => Err(plain(ErrorKind::Interrupted)),
    }
}

/// Reads the outcome of the editor's run on the working copy.
pub fn open_file_with_editor(event: &Event) -> (result: Result<(), DoaseditError>)
    ensures
        unit_result(result) == spec_editor_outcome(event@),
{
    match event {
        Event::Exited { success, .. } => if *success {
            Ok(())
        } else {
            Err(editor_error())
        },
        Event::SpawnFailure(message) => Err(invalid_editor(message.as_str())),
        _ => Err(interrupted()),
    }
}

/// The permission bits of the staging copies: read and write for the owner,
/// nothing for anyone else.
pub const STAGING_MODE: u32 = 0o600;

/// Where the two staging copies of one path go.
#[derive(Clone, Debug, PartialEq, Eq)]
pub struct StagingPair {
    /// The copy that the editor works on; it keeps the name of the target.
    pub working_path: String,
    /// The untouched copy that the working copy is compared with.
    pub reference_path: String,
}

/// The path of `name` inside `directory`, as paths are joined on Unix: a name
/// that starts at the root stands for itself; every other name follows the
/// directory, after a separator unless the directory is empty or ends in one.
pub open spec fn spec_join(directory: Seq<char>, name: Seq<char>) -> Seq<char> {
    if name.len() > 0 && name[0] == '/' {
        name
    } else if directory.len() == 0 || directory.last() == '/' {
        directory + name
    } else {
        directory + "/"@ + name
    }
}

/// The path of `name` inside `directory`.
pub fn join_path(directory: &str, name: &str) -> (joined: String)
    ensures
        joined@ == spec_join(directory@, name@),
{
    let name_len = name.unicode_len();
    if name_len > 0 && name.get_char(0) == '/' {
        return String::from_str(name);
    }
    let directory_len = directory.unicode_len();
    if directory_len == 0 || directory.get_char(directory_len - 1) == '/' {
        String::from_str(directory).concat(name)
    } else {
        String::from_str(directory).concat("/").concat(name)
    }
}

/// The staging copies of a file named `name` inside `directory`.
pub open spec fn spec_staging_pair(directory: Seq<char>, name: Seq<char>) -> (
    Seq<char>,
    Seq<char>,
) {
    (spec_join(directory, name), spec_join(directory, spec_copy_filename(name)))
}

/// The two staging copies of a file never go by the same path, whatever the
/// directory and the name.
pub proof fn lemma_staging_paths_differ(directory: Seq<char>, name: Seq<char>)
    ensures
        spec_staging_pair(directory, name).0 != spec_staging_pair(directory, name).1,
{
    reveal_strlit("copy-of-");
    reveal_strlit("/");
    let copy = spec_copy_filename(name);
    assert(copy.len() == name.len() + 8);
    assert(copy[0] == 'c');
    assert(spec_join(directory, copy).len() > spec_join(directory, name).len());
}

/// The reference copy lies inside the staging directory, and so does the
/// working copy of every name that does not start at the root.
pub proof fn lemma_staging_paths_inside(directory: Seq<char>, name: Seq<char>)
    ensures
        directory.is_prefix_of(spec_staging_pair(directory, name).1),
        !(name.len() > 0 && name[0] == '/') ==> directory.is_prefix_of(
            spec_staging_pair(directory, name).0,
        ),
{
    reveal_strlit("copy-of-");
    reveal_strlit("/");
    let copy = spec_copy_filename(name);
    assert(copy[0] == 'c');
    let reference = spec_join(directory, copy);
    assert(reference.subrange(0, directory.len() as int) =~= directory);
    if !(name.len() > 0 && name[0] == '/') {
        let working = spec_join(directory, name);
        assert(working.subrange(0, directory.len() as int) =~= directory);
    }
}

/// The value of a result that holds a staging pair or an error.
pub open spec fn staging_result(result: Result<StagingPair, DoaseditError>) -> Result<
    (Seq<char>, Seq<char>),
    ErrorView,
> {
    match result {
        Ok(pair) => Ok((pair.working_path@, pair.reference_path@)),
        Err(error) => Err(error@),
    }
}

/// The staging copies of a file named `name` inside `temp_dir`: the working
/// copy under the name itself, the reference copy under the name derived from
/// it.
pub fn staging_pair_for(name: &str, temp_dir: &str) -> (pair: StagingPair)
    ensures
        (pair.working_path@, pair.reference_path@) == spec_staging_pair(temp_dir@, name@),
        pair.working_path@ != pair.reference_path@,
        temp_dir@.is_prefix_of(pair.reference_path@),
{
    proof {
        lemma_staging_paths_differ(temp_dir@, name@);
        lemma_staging_paths_inside(temp_dir@, name@);
    }
    let copy_name = create_copy_filename(name);
    StagingPair {
        working_path: join_path(temp_dir, name),
        reference_path: join_path(temp_dir, copy_name.as_str()),
    }
}

/// Where the staging copies of `file_path` go inside the private directory
/// `temp_dir`, or an error where the path has no file name. The caller creates
/// both files empty and gives them [`STAGING_MODE`] before anything is written
/// to them.
pub fn create_secure_temp_copy(file_path: &str, temp_dir: &str) -> (result: Result<
    StagingPair,
    DoaseditError,
>)
    ensures
        staging_result(result) == match name_or_error(path_file_name_of(file_path@)) {
            Ok(name) => Ok(spec_staging_pair(temp_dir@, name)),
            Err(error) => Err(error),
        },
        result matches Ok(pair) ==> pair.working_path@ != pair.reference_path@
            && temp_dir@.is_prefix_of(pair.reference_path@),
{
    match get_filename(file_path) {
        Ok(name) => Ok(staging_pair_for(name.as_str(), temp_dir)),
        Err(error) => Err(error),
    }
}

/// The reference copy never goes by the name of the working copy.
pub proof fn lemma_copy_name_differs(name: Seq<char>)
    ensures
        spec_copy_filename(name) != name,
{
    reveal_strlit("copy-of-");
}

/// How the content of the target comes into the working copy.
#[derive(Clone, Debug, PartialEq, Eq)]
pub enum Loaded {
    /// The working copy holds the content of the target.
    Complete,
    /// The privilege helper handed over the content; it has yet to be written
    /// into the working copy.
    Store(Vec<u8>),
    /// The content could not be had.
    Failed(DoaseditError),
}

/// The mathematical value of a [`Loaded`].
pub enum LoadedView {
    Complete,
    Store(Seq<u8>),
    Failed(ErrorView),
}

impl View for Loaded {
    type V = LoadedView;

    open spec fn view(&self) -> LoadedView {
        match self {
            Loaded::Complete => LoadedView::Complete,
            Loaded::Store(content) => LoadedView::Store(content@),
            Loaded::Failed(error) => LoadedView::Failed(error@),
        }
    }
}

/// How an event reads as the outcome of fetching the target's content. A direct
/// copy is done or fails as a file operation does. Through the privilege helper
/// the content arrives as the helper's output; a helper that refuses or does
/// not run means that reading is not permitted.
pub open spec fn spec_copy_original(use_doas: bool, event: EventView) -> LoadedView {
    if use_doas {
        match event {
            EventView::Exited { success, output } => if success {
                LoadedView::Store(output)
            } else {
                LoadedView::Failed(plain(ErrorKind::DoasCatPermissionDenied))
            },
            _ => LoadedView::Failed(plain(ErrorKind::DoasCatPermissionDenied)),
        }
    } else {
        match event {
            EventView::Done => LoadedView::Complete,
            EventView::IoFailure(message) => LoadedView::Failed(about(ErrorKind::Io, message)),
            _ => LoadedView::Failed(plain(ErrorKind::Interrupted)),
        }
    }
}

/// Reads the outcome of fetching the target's content, directly or, where
/// `use_doas` is set, through the privilege helper.
pub fn copy_original_content(use_doas: bool, event: Event) -> (loaded: Loaded)
    ensures
        loaded@ == spec_copy_original(use_doas, event@),
{
    if use_doas {
        match event {
            Event::Exited { success, output } => if success {
                Loaded::Store(output)
            } else {
                Loaded::Failed(doas_cat_permission_denied())
            },
            _ => Loaded::Failed(doas_cat_permission_denied()),
        }
    } else {
        match event {
            Event::Done => Loaded::Complete,
            Event::IoFailure(message) => Loaded::Failed(io_failure(message.as_str())),
            _ => Loaded::Failed(interrupted()),
        }
    }
}

/// What the user answers when the edited configuration does not pass.
#[derive(Clone, Copy, Debug, PartialEq, Eq, Structural)]
pub enum Choice {
    /// Open the editor once more.
    EditAgain,
    /// Commit the configuration as it is.
    Overwrite,
    /// Give the edit up.
    Abort,
}

/// What `str::trim` returns for a text.
pub uninterp spec fn trimmed(text: Seq<char>) -> Seq<char>;

/// What `str::to_lowercase` returns for a text.
pub uninterp spec fn lowercased(text: Seq<char>) -> Seq<char>;

/// The text without the whitespace at its ends.
///
/// Trusted: calls `str::trim` and copies the result. The result is only named;
/// nothing else is claimed of it.
#[verifier::external_body]
fn trim_text(text: &str) -> (result: String)
    ensures
        result@ == trimmed(text@),
{
    text.trim().to_owned()
}

/// The text in lower case.
///
/// Trusted: calls `str::to_lowercase`. The result is only named; nothing else
/// is claimed of it.
#[verifier::external_body]
fn lowercase_text(text: &str) -> (result: String)
    ensures
        result@ == lowercased(text@),
{
    text.to_lowercase()
}

/// The choice that a normalised answer stands for: the letter `o` overwrites,
/// the letter `a` aborts, and everything else edits again.
pub open spec fn spec_choice(answer: Seq<char>) -> Choice {
    if answer == "o"@ {
        Choice::Overwrite
    } else if answer == "a"@ {
        Choice::Abort
    } else {
        Choice::EditAgain
    }
}

/// The choice that the normalised answer `answer` stands for.
pub fn parse_choice(answer: &str) -> (choice: Choice)
    ensures
        choice == spec_choice(answer@),
{
    if same_text(answer, "o") {
        Choice::Overwrite
    } else if same_text(answer, "a") {
        Choice::Abort
    } else {
        Choice::EditAgain
    }
}

/// The choice that the line `input` stands for, whatever its case and the
/// whitespace around it.
pub fn read_choice(input: &str) -> (choice: Choice)
    ensures
        choice == spec_choice(lowercased(trimmed(input@))),
{
    let stripped = trim_text(input);
    let answer = lowercase_text(stripped.as_str());
    parse_choice(answer.as_str())
}

/// The validation of an edited configuration file.
#[derive(Clone, Copy, Debug, PartialEq, Eq, Structural)]
pub enum ValidatorState {
    /// The editor is open on the working copy.
    Editing,
    /// The working copy is being checked; once the check has failed, `asked`
    /// is set and the user's choice is awaited.
    CheckPending { asked: bool },
    /// The working copy may be committed.
    Committed,
    /// The edit is given up.
    Aborted,
}

/// What can happen during validation.
#[derive(Clone, Copy, Debug, PartialEq, Eq, Structural)]
pub enum ValidatorEvent {
    /// The editor was closed.
    EditorClosed,
    /// The syntax check passed.
    CheckPassed,
    /// The syntax check failed.
    CheckFailed,
    /// The user made a choice.
    Chose(Choice),
}

/// The state of the validator after `event`. An event that the state does not wait
/// for changes nothing, and nothing leaves a final state.
pub open spec fn spec_validate(state: ValidatorState, event: ValidatorEvent) -> ValidatorState {
    match state {
        ValidatorState::Editing => match event {
            ValidatorEvent::EditorClosed => ValidatorState::CheckPending { asked: false },
            _ => state,
        },
        ValidatorState::CheckPending { asked } => if asked {
            match event {
                ValidatorEvent::Chose(Choice::EditAgain) => ValidatorState::Editing,
                ValidatorEvent::Chose(Choice::Overwrite) => ValidatorState::Committed,
                ValidatorEvent::Chose(Choice::Abort) => ValidatorState::Aborted,
                _ => state,
            }
        } else {
            match event {
                ValidatorEvent::CheckPassed => ValidatorState::Committed,
                ValidatorEvent::CheckFailed => ValidatorState::CheckPending { asked: true },
                _ => state,
            }
        },
        ValidatorState::Committed => state,
        ValidatorState::Aborted => state,
    }
}

/// One step of the validation of an edited configuration file. It starts in
/// [`ValidatorState::Editing`]; it commits only on a check that passed or on
/// the user's choice to overwrite, and aborts only on the user's choice to
/// abort.
pub fn validate_doas_config(state: ValidatorState, event: ValidatorEvent) -> (next: ValidatorState)
    ensures
        next == spec_validate(state, event),
        next == ValidatorState::Committed && state != ValidatorState::Committed ==> event
            == ValidatorEvent::CheckPassed || event == ValidatorEvent::Chose(Choice::Overwrite),
        next == ValidatorState::Aborted && state != ValidatorState::Aborted ==> event
            == ValidatorEvent::Chose(Choice::Abort),
{
    match state {
        ValidatorState::Editing => match event {
            ValidatorEvent::EditorClosed => ValidatorState::CheckPending { asked: false },
            _ => state,
        },
        ValidatorState::CheckPending { asked } => if asked {
            match event {
                ValidatorEvent::Chose(Choice::EditAgain) => ValidatorState::Editing,
                ValidatorEvent::Chose(Choice::Overwrite) => ValidatorState::Committed,
                ValidatorEvent::Chose(Choice::Abort) => ValidatorState::Aborted,
                _ => state,
            }
        } else {
            match event {
                ValidatorEvent::CheckPassed => ValidatorState::Committed,
                ValidatorEvent::CheckFailed => ValidatorState::CheckPending { asked: true },
                _ => state,
            }
        },
        ValidatorState::Committed => state,
        ValidatorState::Aborted => state,
    }
}

/// The state of the validator after all of `events`, in their order, from `state`.
pub open spec fn validator_run(state: ValidatorState, events: Seq<ValidatorEvent>) -> ValidatorState
    decreases events.len(),
{
    if events.len() == 0 {
        state
    } else {
        spec_validate(validator_run(state, events.drop_last()), events.last())
    }
}

/// However the validator is driven from its start, it is committed only if a check
/// passed or the user chose to overwrite.
pub proof fn lemma_commit_needs_pass_or_override(events: Seq<ValidatorEvent>)
    requires
        validator_run(ValidatorState::Editing, events) == ValidatorState::Committed,
    ensures
        exists|i: int|
            0 <= i < events.len() && (#[trigger] events[i] == ValidatorEvent::CheckPassed
                || events[i] == ValidatorEvent::Chose(Choice::Overwrite)),
    decreases events.len(),
{
    if events.len() > 0 {
        let before = events.drop_last();
        let last = events.len() - 1;
        if validator_run(ValidatorState::Editing, before) == ValidatorState::Committed {
            lemma_commit_needs_pass_or_override(before);
            let i = choose|i: int|
                0 <= i < before.len() && (#[trigger] before[i] == ValidatorEvent::CheckPassed
                    || before[i] == ValidatorEvent::Chose(Choice::Overwrite));
            assert(events[i] == before[i]);
        } else {
            assert(events[last] == ValidatorEvent::CheckPassed || events[last]
                == ValidatorEvent::Chose(Choice::Overwrite));
        }
    }
}

/// However the validator is driven from its start, it is aborted only if the
/// user chose to abort.
pub proof fn lemma_abort_needs_choice(events: Seq<ValidatorEvent>)
    requires
        validator_run(ValidatorState::Editing, events) == ValidatorState::Aborted,
    ensures
        exists|i: int|
            0 <= i < events.len() && #[trigger] events[i] == ValidatorEvent::Chose(Choice::Abort),
    decreases events.len(),
{
    if events.len() > 0 {
        let before = events.drop_last();
        let last = events.len() - 1;
        if validator_run(ValidatorState::Editing, before) == ValidatorState::Aborted {
            lemma_abort_needs_choice(before);
            let i = choose|i: int|
                0 <= i < before.len() && #[trigger] before[i] == ValidatorEvent::Chose(
                    Choice::Abort,
                );
            assert(events[i] == before[i]);
        } else {
            assert(events[last] == ValidatorEvent::Chose(Choice::Abort));
        }
    }
}

} // verus!
