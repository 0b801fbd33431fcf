//! The errors a run can end with, and the one-line message of each.

use vstd::prelude::*;

verus! {

/// What went wrong, without the text that names the offending path or command.
#[derive(Clone, Copy, Debug, PartialEq, Eq, Structural)]
pub enum ErrorKind {
    /// The program runs as the privileged user already.
    RootUserNotAllowed,
    /// The privilege helper could not be run.
    DoasUnavailable,
    /// No editor is configured and the fallback editor cannot be run.
    NoEditorSpecified,
    /// A named editor cannot be run, or a path has no file name.
    InvalidEditor,
    /// The path is written as a directory.
    CannotEditDirectory,
    /// The path exists and is no regular file.
    NotRegularFile,
    /// The file belongs to the caller.
    CannotEditOwnFile,
    /// The file is missing and its directory belongs to the caller.
    CannotCreateFileInOwnDir,
    /// The file is missing and its directory is writable by the caller.
    CannotCreateFileInWritableDir,
    /// The file is missing and so is its directory.
    NoDirectoryExists,
    /// The caller can read and write the file without help.
    CannotEditReadableWritableFile,
    /// The privilege helper refused to read the file.
    DoasCatPermissionDenied,
    /// The privileged write failed three times in a row.
    ThreeIncorrectPasswordAttempts,
    /// The privilege helper answered a metadata query with something unreadable.
    DoasValidationError,
    /// The dialogue with the user broke off.
    Interrupted,
    /// The editor ended with a failure status.
    EditorError,
    /// The user chose to abort.
    UserAbort,
    /// A file operation failed; the subject is the platform's own message.
    Io,
}

/// An error of one run: its kind and the path, command or message it is about.
/// The subject is empty for the kinds whose message names nothing.
#[derive(Clone, Debug, PartialEq, Eq)]
pub struct DoaseditError {
    pub kind: ErrorKind,
    pub subject: String,
}

/// The mathematical value of a [`DoaseditError`].
pub struct ErrorView {
    pub kind: ErrorKind,
    pub subject: Seq<char>,
}

impl View for DoaseditError {
    type V = ErrorView;

    open spec fn view(&self) -> ErrorView {
        ErrorView { kind: self.kind, subject: self.subject@ }
    }
}

/// The message shown for an error of kind `kind` about `subject`.
pub open spec fn message_of(kind: ErrorKind, subject: Seq<char>) -> Seq<char> {
    match kind {
        ErrorKind::RootUserNotAllowed => "using this program as root is not permitted"@,
        ErrorKind::DoasUnavailable => "unable to run 'doas'"@,
        ErrorKind::NoEditorSpecified => "no editor specified"@,
        ErrorKind::InvalidEditor => "invalid editor command: '"@ + subject + "'"@,
        ErrorKind::CannotEditDirectory => subject + ": cannot edit directories"@,
        ErrorKind::NotRegularFile => subject + ": not a regular file"@,
        ErrorKind::CannotEditOwnFile => subject + ": editing your own files is not permitted"@,
        ErrorKind::CannotCreateFileInOwnDir => subject
            + ": creating files in your own directory is not permitted"@,
        ErrorKind::CannotCreateFileInWritableDir => subject
            + ": creating files in a user-writable directory is not permitted"@,
        ErrorKind::NoDirectoryExists => subject + ": no such directory"@,
        ErrorKind::CannotEditReadableWritableFile => subject
            + ": editing user-readable and -writable files is not permitted"@,
        ErrorKind::DoasCatPermissionDenied => "you are not permitted to call 'doas cat'"@,
        ErrorKind::ThreeIncorrectPasswordAttempts => "3 incorrect password attempts"@,
        ErrorKind::DoasValidationError => "doas validation error: "@ + subject,
        ErrorKind::Interrupted => "interrupted"@,
        ErrorKind::EditorError => "editor exited with non-zero status"@,
        ErrorKind::UserAbort => "aborted by user"@,
        ErrorKind::Io => subject,
    }
}

/// Whether the message of `kind` mentions the subject at all.
pub open spec fn names_subject(kind: ErrorKind) -> bool {
    match kind {
        ErrorKind::InvalidEditor
        | ErrorKind::CannotEditDirectory
        | ErrorKind::NotRegularFile
        | ErrorKind::CannotEditOwnFile
        | ErrorKind::CannotCreateFileInOwnDir
        | ErrorKind::CannotCreateFileInWritableDir
        | ErrorKind::NoDirectoryExists
        | ErrorKind::CannotEditReadableWritableFile
        | ErrorKind::DoasValidationError
        | ErrorKind::Io => true,
        _ => false,
    }
}

/// The value of an error that names nothing.
pub open spec fn plain(kind: ErrorKind) -> ErrorView {
    ErrorView { kind, subject: Seq::<char>::empty() }
}

/// The value of an error about `subject`.
pub open spec fn about(kind: ErrorKind, subject: Seq<char>) -> ErrorView {
    ErrorView { kind, subject }
}

impl DoaseditError {
    /// The message of this error.
    pub open spec fn message(&self) -> Seq<char> {
        message_of(self.kind, self.subject@)
    }

    /// An error of kind `kind` that names nothing.
    pub fn of_kind(kind: ErrorKind) -> (e: DoaseditError)
        ensures
            e@ == plain(kind),
    {
        DoaseditError { kind, subject: String::new() }
    }

    /// An error of kind `kind` about `subject`.
    pub fn with_subject(kind: ErrorKind, subject: &str) -> (e: DoaseditError)
        ensures
            e@ == about(kind, subject@),
    {
        DoaseditError { kind, subject: String::from_str(subject) }
    }

    /// The one-line message of this error, as it is shown to the user.
    pub fn to_string(&self) -> (text: String)
        ensures
            text@ == self.message(),
    {
        let subject = self.subject.as_str();
        match self.kind {
            ErrorKind::RootUserNotAllowed => String::from_str(
                "using this program as root is not permitted",
            ),
            ErrorKind::DoasUnavailable => String::from_str("unable to run 'doas'"),
            ErrorKind::NoEditorSpecified => String::from_str("no editor specified"),
            ErrorKind::InvalidEditor => String::from_str("invalid editor command: '").concat(
                subject,
            ).concat("'"),
            ErrorKind::CannotEditDirectory => String::from_str(subject).concat(
                ": cannot edit directories",
            ),
            ErrorKind::NotRegularFile => String::from_str(subject).concat(": not a regular file"),
            ErrorKind::CannotEditOwnFile => String::from_str(subject).concat(
                ": editing your own files is not permitted",
            ),
            ErrorKind::CannotCreateFileInOwnDir => String::from_str(subject).concat(
                ": creating files in your own directory is not permitted",
            ),
            ErrorKind::CannotCreateFileInWritableDir => String::from_str(subject).concat(
                ": creating files in a user-writable directory is not permitted",
            ),
            ErrorKind::NoDirectoryExists => String::from_str(subject).concat(": no such directory"),
            ErrorKind::CannotEditReadableWritableFile => String::from_str(subject).concat(
                ": editing user-readable and -writable files is not permitted",
            ),
            ErrorKind::DoasCatPermissionDenied => String::from_str(
                "you are not permitted to call 'doas cat'",
            ),
            ErrorKind::ThreeIncorrectPasswordAttempts => String::from_str(
                "3 incorrect password attempts",
            ),
            ErrorKind::DoasValidationError => String::from_str("doas validation error: ").concat(
                subject,
            ),
            ErrorKind::Interrupted => String::from_str("interrupted"),
            ErrorKind::EditorError => String::from_str("editor exited with non-zero status"),
            ErrorKind::UserAbort => String::from_str("aborted by user"),
            ErrorKind::Io => String::from_str(subject),
        }
    }
}

/// The program was started by the privileged user.
pub fn root_user_not_allowed() -> (e: DoaseditError)
    ensures
        e@ == plain(ErrorKind::RootUserNotAllowed),
{
    DoaseditError::of_kind(ErrorKind::RootUserNotAllowed)
}

/// The privilege helper could not be run.
pub fn doas_unavailable() -> (e: DoaseditError)
    ensures
        e@ == plain(ErrorKind::DoasUnavailable),
{
    DoaseditError::of_kind(ErrorKind::DoasUnavailable)
}

/// No editor is configured and the fallback cannot be run.
pub fn no_editor_specified() -> (e: DoaseditError)
    ensures
        e@ == plain(ErrorKind::NoEditorSpecified),
{
    DoaseditError::of_kind(ErrorKind::NoEditorSpecified)
}

/// The editor command `editor` cannot be run.
pub fn invalid_editor(editor: &str) -> (e: DoaseditError)
    ensures
        e@ == about(ErrorKind::InvalidEditor, editor@),
{
    DoaseditError::with_subject(ErrorKind::InvalidEditor, editor)
}

/// `path` is written as a directory.
pub fn cannot_edit_directory(path: &str) -> (e: DoaseditError)
    ensures
        e@ == about(ErrorKind::CannotEditDirectory, path@),
{
    DoaseditError::with_subject(ErrorKind::CannotEditDirectory, path)
}

/// `path` exists and is no regular file.
pub fn not_regular_file(path: &str) -> (e: DoaseditError)
    ensures
        e@ == about(ErrorKind::NotRegularFile, path@),
{
    DoaseditError::with_subject(ErrorKind::NotRegularFile, path)
}

/// `path` belongs to the caller.
pub fn cannot_edit_own_file(path: &str) -> (e: DoaseditError)
    ensures
        e@ == about(ErrorKind::CannotEditOwnFile, path@),
{
    DoaseditError::with_subject(ErrorKind::CannotEditOwnFile, path)
}

/// `path` is missing and would be created in a directory of the caller's own.
pub fn cannot_create_file_in_own_dir(path: &str) -> (e: DoaseditError)
    ensures
        e@ == about(ErrorKind::CannotCreateFileInOwnDir, path@),
{
    DoaseditError::with_subject(ErrorKind::CannotCreateFileInOwnDir, path)
}

/// `path` is missing and would be created in a directory the caller can write.
pub fn cannot_create_file_in_writable_dir(path: &str) -> (e: DoaseditError)
    ensures
        e@ == about(ErrorKind::CannotCreateFileInWritableDir, path@),
{
    DoaseditError::with_subject(ErrorKind::CannotCreateFileInWritableDir, path)
}

/// The directory `path` does not exist.
pub fn no_directory_exists(path: &str) -> (e: DoaseditError)
    ensures
        e@ == about(ErrorKind::NoDirectoryExists, path@),
{
    DoaseditError::with_subject(ErrorKind::NoDirectoryExists, path)
}

/// The caller can read and write `path` without help.
pub fn cannot_edit_readable_writable_file(path: &str) -> (e: DoaseditError)
    ensures
        e@ == about(ErrorKind::CannotEditReadableWritableFile, path@),
{
    DoaseditError::with_subject(ErrorKind::CannotEditReadableWritableFile, path)
}

/// The privilege helper refused to read the file.
pub fn doas_cat_permission_denied() -> (e: DoaseditError)
    ensures
        e@ == plain(ErrorKind::DoasCatPermissionDenied),
{
    DoaseditError::of_kind(ErrorKind::DoasCatPermissionDenied)
}

/// The privileged write failed three times in a row.
pub fn three_incorrect_password_attempts() -> (e: DoaseditError)
    ensures
        e@ == plain(ErrorKind::ThreeIncorrectPasswordAttempts),
{
    DoaseditError::of_kind(ErrorKind::ThreeIncorrectPasswordAttempts)
}

/// The privilege helper's answer to a metadata query could not be read; `msg`
/// says what is wrong with it.
pub fn doas_validation_error(msg: &str) -> (e: DoaseditError)
    ensures
        e@ == about(ErrorKind::DoasValidationError, msg@),
{
    DoaseditError::with_subject(ErrorKind::DoasValidationError, msg)
}

/// The dialogue with the user broke off.
pub fn interrupted() -> (e: DoaseditError)
    ensures
        e@ == plain(ErrorKind::Interrupted),
{
    DoaseditError::of_kind(ErrorKind::Interrupted)
}

/// The editor ended with a failure status.
pub fn editor_error() -> (e: DoaseditError)
    ensures
        e@ == plain(ErrorKind::EditorError),
{
    DoaseditError::of_kind(ErrorKind::EditorError)
}

/// The user chose to abort.
pub fn user_abort() -> (e: DoaseditError)
    ensures
        e@ == plain(ErrorKind::UserAbort),
{
    DoaseditError::of_kind(ErrorKind::UserAbort)
}

/// A file operation failed with the platform message `message`.
pub fn io_failure(message: &str) -> (e: DoaseditError)
    ensures
        e@ == about(ErrorKind::Io, message@),
{
    DoaseditError::with_subject(ErrorKind::Io, message)
}

} // verus!
