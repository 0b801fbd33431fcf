//! The per-path rules: what a path is, whether it may be edited, and how its
//! edit moves from staging to commit.

use crate::editor::{
    copy_original_content, lowercased, open_file_with_editor, read_choice, spec_choice,
    spec_copy_original, spec_editor_outcome, spec_validate, trimmed, validate_doas_config, Loaded,
    LoadedView, ValidatorEvent, ValidatorState,
};
use crate::error::{
    cannot_create_file_in_own_dir, cannot_create_file_in_writable_dir, cannot_edit_directory,
    cannot_edit_own_file, cannot_edit_readable_writable_file, doas_unavailable, interrupted,
    io_failure, no_directory_exists, not_regular_file, three_incorrect_password_attempts,
    user_abort,
};
use crate::error::{about, plain, DoaseditError, ErrorKind, ErrorView};
use crate::event::{helper_outcome, local_outcome, Event, EventView, HelperOutcome};
use crate::utils::{
    filename_or_error, files_match, get_current_uid, get_file_metadata_with_doas, get_filename,
    get_parent_directory, is_dir_owned_by_user, is_dir_writable_by_user, is_directory_path,
    is_doas_config_file, is_file_owned_by_user, is_file_writable_by_user, FileMetadata,
};
use crate::utils::{
    name_or_error, parent_or_root, path_file_name_of, path_parent_of, spec_dir_writable,
    spec_file_metadata_with_doas, spec_file_writable, spec_is_directory_path,
    spec_is_doas_config_file,
};
use vstd::prelude::*;

verus! {

/// By which way a path came to be known, and so by which way its content is
/// to be had.
#[derive(Clone, Copy, Debug, PartialEq, Eq, Structural)]
pub enum Channel {
    /// The caller could look at the path itself.
    Direct,
    /// Only the privilege helper could look at the path.
    Privileged,
}

/// What is known of a target path.
#[derive(Clone, Copy, Debug, PartialEq, Eq, Structural)]
pub struct FileInfo {
    /// Something exists at the path.
    pub exists: bool,
    /// Its content can be had, by the way that `channel` names.
    pub readable: bool,
    /// The caller may write it without help.
    pub writable: bool,
    /// It is no regular file.
    pub is_directory: bool,
    /// It belongs to the caller.
    pub is_owned_by_user: bool,
    /// The way by which the path came to be known.
    pub channel: Channel,
}

impl FileInfo {
    /// Nothing is claimed of a path at which nothing exists, and nothing but
    /// its kind of a path that is no regular file.
    pub open spec fn well_formed(&self) -> bool {
        &&& !self.exists ==> !self.is_directory
        &&& (!self.exists || self.is_directory) ==> !self.readable && !self.writable
            && !self.is_owned_by_user && self.channel == Channel::Direct
    }

    /// Whether the content has to be read through the privilege helper: the
    /// caller could not look at the path itself, or cannot count on reading
    /// it.
    pub open spec fn reads_through_helper(&self) -> bool {
        self.channel == Channel::Privileged || !self.readable
    }

    /// Whether the content has to be read through the privilege helper.
    pub fn needs_helper(&self) -> (needed: bool)
        ensures
            needed == self.reads_through_helper(),
    {
        self.channel == Channel::Privileged || !self.readable
    }
}

/// What is known of a path at which nothing exists.
pub open spec fn missing_info() -> FileInfo {
    FileInfo {
        exists: false,
        readable: false,
        writable: false,
        is_directory: false,
        is_owned_by_user: false,
        channel: Channel::Direct,
    }
}

/// What is known of a path that exists and is no regular file.
pub open spec fn directory_info() -> FileInfo {
    FileInfo {
        exists: true,
        readable: false,
        writable: false,
        is_directory: true,
        is_owned_by_user: false,
        channel: Channel::Direct,
    }
}

/// What the metadata of an existing path says of it for the user `uid`, where
/// the metadata came by the way `channel`. The content of a regular file
/// counts as obtainable as soon as its metadata could be had, and is to be had
/// by the same way.
pub open spec fn info_of(metadata: FileMetadata, uid: u32, channel: Channel) -> FileInfo {
    if metadata.is_dir {
        directory_info()
    } else {
        FileInfo {
            exists: true,
            readable: true,
            writable: spec_file_writable(metadata, uid),
            is_directory: false,
            is_owned_by_user: metadata.uid == uid,
            channel,
        }
    }
}

/// One question about a path that the caller can answer by looking.
#[derive(Clone, Copy, Debug, PartialEq, Eq, Structural)]
pub enum Probe {
    /// Read the metadata of the path.
    DirectMetadata,
    /// Ask the privilege helper whether the path exists.
    PrivilegedExists,
    /// Ask the privilege helper whether the path is a regular file.
    PrivilegedIsFile,
    /// Ask the privilege helper for owner and permission bits of the path.
    PrivilegedMetadata,
    /// Read the metadata of the directory the path lies in.
    ParentMetadata,
    /// Ask the privilege helper whether the directory the path lies in exists.
    PrivilegedParentIsDir,
}

/// How far the look at a path has come.
#[derive(Clone, Debug, PartialEq, Eq)]
pub enum StatusCheck {
    /// The answer to this probe is needed next.
    Ask(Probe),
    /// The path is known, and may be edited as far as its surroundings go.
    Found(FileInfo),
    /// The path cannot be edited.
    Rejected(DoaseditError),
}

/// The mathematical value of a [`StatusCheck`].
pub enum StatusCheckView {
    Ask(Probe),
    Found(FileInfo),
    Rejected(ErrorView),
}

impl View for StatusCheck {
    type V = StatusCheckView;

    open spec fn view(&self) -> StatusCheckView {
        match self {
            StatusCheck::Ask(probe) => StatusCheckView::Ask(*probe),
            StatusCheck::Found(info) => StatusCheckView::Found(*info),
            StatusCheck::Rejected(error) => StatusCheckView::Rejected(error@),
        }
    }
}

/// What follows from the answer `event` to `probe` about `path`, which lies in
/// the directory `parent`, for the user `uid`.
///
/// The path's own metadata settles it where it can be read. Where it cannot,
/// the privilege helper is asked whether the path exists, whether it is a
/// regular file, and for its owner and permission bits; such a file is
/// marked as known through the helper, and its content is read through the
/// helper too. A path that does not exist may be created unless its directory
/// belongs to the user, is writable by the user, or does not exist either; a
/// directory counts as writable only for its owner, so the first of these
/// tests already covers the second. A helper that does not run ends the look
/// with an error.
pub open spec fn spec_classify(
    probe: Probe,
    event: EventView,
    path: Seq<char>,
    parent: Seq<char>,
    uid: u32,
) -> StatusCheckView {
    match probe {
        Probe::DirectMetadata => match event {
            EventView::Metadata(metadata) => StatusCheckView::Found(
                info_of(metadata, uid, Channel::Direct),
            ),
            _ => StatusCheckView::Ask(Probe::PrivilegedExists),
        },
        Probe::PrivilegedExists => match helper_outcome(event) {
            HelperOutcome::Unavailable => StatusCheckView::Rejected(
                plain(ErrorKind::DoasUnavailable),
            ),
            HelperOutcome::Granted => StatusCheckView::Ask(Probe::PrivilegedIsFile),
            HelperOutcome::Refused => StatusCheckView::Ask(Probe::ParentMetadata),
        },
        Probe::PrivilegedIsFile => match helper_outcome(event) {
            HelperOutcome::Unavailable => StatusCheckView::Rejected(
                plain(ErrorKind::DoasUnavailable),
            ),
            HelperOutcome::Granted => StatusCheckView::Ask(Probe::PrivilegedMetadata),
            HelperOutcome::Refused => StatusCheckView::Found(directory_info()),
        },
        Probe::PrivilegedMetadata => match spec_file_metadata_with_doas(event) {
            Ok((owner, mode)) => StatusCheckView::Found(
                info_of(
                    FileMetadata { is_dir: false, uid: owner, mode },
                    uid,
                    Channel::Privileged,
                ),
            ),
            Err(error) => StatusCheckView::Rejected(error),
        },
        Probe::ParentMetadata => match event {
            EventView::Metadata(metadata) => if metadata.uid == uid {
                StatusCheckView::Rejected(about(ErrorKind::CannotCreateFileInOwnDir, path))
            } else if spec_dir_writable(metadata, uid) {
                StatusCheckView::Rejected(about(ErrorKind::CannotCreateFileInWritableDir, path))
            } else {
                StatusCheckView::Found(missing_info())
            },
            _ => StatusCheckView::Ask(Probe::PrivilegedParentIsDir),
        },
        Probe::PrivilegedParentIsDir => match helper_outcome(event) {
            HelperOutcome::Unavailable => StatusCheckView::Rejected(
                plain(ErrorKind::DoasUnavailable),
            ),
            HelperOutcome::Granted => StatusCheckView::Found(missing_info()),
            HelperOutcome::Refused => StatusCheckView::Rejected(
                about(ErrorKind::NoDirectoryExists, parent),
            ),
        },
    }
}

/// How many further probes can at most follow `probe`.
pub open spec fn probes_left(probe: Probe) -> nat {
    match probe {
        Probe::DirectMetadata => 3,
        Probe::PrivilegedExists => 2,
        Probe::PrivilegedIsFile => 1,
        Probe::PrivilegedMetadata => 0,
        Probe::ParentMetadata => 1,
        Probe::PrivilegedParentIsDir => 0,
    }
}

/// What the metadata of an existing path says of it for the user `uid`, where
/// the metadata came by the way `channel`.
pub fn file_info_of(metadata: &FileMetadata, uid: u32, channel: Channel) -> (info: FileInfo)
    ensures
        info == info_of(*metadata, uid, channel),
        info.well_formed(),
        info.writable ==> info.is_owned_by_user,
{
    if metadata.is_dir {
        FileInfo {
            exists: true,
            readable: false,
            writable: false,
            is_directory: true,
            is_owned_by_user: false,
            channel: Channel::Direct,
        }
    } else {
        FileInfo {
            exists: true,
            readable: true,
            writable: is_file_writable_by_user(metadata, uid),
            is_directory: false,
            is_owned_by_user: is_file_owned_by_user(metadata, uid),
            channel,
        }
    }
}

/// One step of the look at `path`: what follows from the answer `event` to
/// `probe`, for the user `uid` and the directory `parent` that the path lies in.
pub fn classify(probe: Probe, event: &Event, path: &str, parent: &str, uid: u32) -> (next:
    StatusCheck)
    ensures
        next@ == spec_classify(probe, event@, path@, parent@, uid),
        next matches StatusCheck::Found(info) ==> info.well_formed(),
        next matches StatusCheck::Ask(then) ==> probes_left(then) < probes_left(probe),
{
    match probe {
        Probe::DirectMetadata => match event {
            Event::Metadata(metadata) => StatusCheck::Found(
                file_info_of(metadata, uid, Channel::Direct),
            ),
            _ => StatusCheck::Ask(Probe::PrivilegedExists),
        },
        Probe::PrivilegedExists => match event.as_helper_outcome() {
            HelperOutcome::Unavailable => StatusCheck::Rejected(doas_unavailable()),
            HelperOutcome::Granted => StatusCheck::Ask(Probe::PrivilegedIsFile),
            HelperOutcome::Refused => StatusCheck::Ask(Probe::ParentMetadata),
        },
        Probe::PrivilegedIsFile => match event.as_helper_outcome() {
            HelperOutcome::Unavailable => StatusCheck::Rejected(doas_unavailable()),
            HelperOutcome::Granted => StatusCheck::Ask(Probe::PrivilegedMetadata),
            HelperOutcome::Refused => StatusCheck::Found(
                FileInfo {
                    exists: true,
                    readable: false,
                    writable: false,
                    is_directory: true,
                    is_owned_by_user: false,
                    channel: Channel::Direct,
                },
            ),
        },
        Probe::PrivilegedMetadata => match get_file_metadata_with_doas(event) {
            Ok((owner, mode)) => {
                let metadata = FileMetadata { is_dir: false, uid: owner, mode };
                StatusCheck::Found(file_info_of(&metadata, uid, Channel::Privileged))
            },
            Err(error) => StatusCheck::Rejected(error),
        },
        Probe::ParentMetadata => match event {
            Event::Metadata(metadata) => if is_dir_owned_by_user(metadata, uid) {
                StatusCheck::Rejected(cannot_create_file_in_own_dir(path))
            } else if is_dir_writable_by_user(metadata, uid) {
                StatusCheck::Rejected(cannot_create_file_in_writable_dir(path))
            } else {
                StatusCheck::Found(
                    FileInfo {
                        exists: false,
                        readable: false,
                        writable: false,
                        is_directory: false,
                        is_owned_by_user: false,
                        channel: Channel::Direct,
                    },
                )
            },
            _ => StatusCheck::Ask(Probe::PrivilegedParentIsDir),
        },
        Probe::PrivilegedParentIsDir => match event.as_helper_outcome() {
            HelperOutcome::Unavailable => StatusCheck::Rejected(doas_unavailable()),
            HelperOutcome::Granted => StatusCheck::Found(
                FileInfo {
                    exists: false,
                    readable: false,
                    writable: false,
                    is_directory: false,
                    is_owned_by_user: false,
                    channel: Channel::Direct,
                },
            ),
            HelperOutcome::Refused => StatusCheck::Rejected(no_directory_exists(parent)),
        },
    }
}

/// One step of the look at `path` for the user that runs the process: what
/// follows from the answer `event` to `probe`. The look starts with
/// [`Probe::DirectMetadata`] and is over when the result asks no further probe.
pub fn check_file_status(probe: Probe, event: &Event, path: &str) -> (next: StatusCheck)
    ensures
        exists|uid: u32|
            next@ == spec_classify(
                probe,
                event@,
                path@,
                parent_or_root(path_parent_of(path@)),
                uid,
            ),
        next matches StatusCheck::Found(info) ==> info.well_formed(),
        next matches StatusCheck::Ask(then) ==> probes_left(then) < probes_left(probe),
{
    let uid = get_current_uid();
    let parent = get_parent_directory(path);
    classify(probe, event, path, parent.as_str(), uid)
}

/// What the rules make of a path once it is known.
#[derive(Clone, Copy, Debug, PartialEq, Eq, Structural)]
pub enum PolicyDecision {
    /// Nothing exists at the path; a new file may be created.
    Missing,
    /// The path is written as a directory, or is no regular file.
    DirectoryRejected,
    /// The file belongs to the caller.
    OwnedByCaller,
    /// The caller can read and write the file without help.
    ReadableAndWritableByCaller,
    /// The content has to be read through the privilege helper.
    NeedsPrivilegedRead,
    /// The caller can read the file, and not write it.
    DirectlyReadable,
}

/// The decision for `path`, of which `info` is known. The order of the tests
/// is part of the rule: the way the path is written, then ownership, then
/// direct access, and only then the kind of what exists. A file that may be
/// edited is read directly where the caller could look at it, and through the
/// privilege helper where only the helper could.
pub open spec fn spec_policy(path: Seq<char>, info: FileInfo) -> PolicyDecision {
    if spec_is_directory_path(path) {
        PolicyDecision::DirectoryRejected
    } else if !info.exists {
        PolicyDecision::Missing
    } else if info.is_owned_by_user {
        PolicyDecision::OwnedByCaller
    } else if info.readable && info.writable {
        PolicyDecision::ReadableAndWritableByCaller
    } else if info.is_directory {
        PolicyDecision::DirectoryRejected
    } else if info.reads_through_helper() {
        PolicyDecision::NeedsPrivilegedRead
    } else {
        PolicyDecision::DirectlyReadable
    }
}

/// The error that ends the work on `path` where the decision forbids the edit.
pub open spec fn spec_policy_error(path: Seq<char>, info: FileInfo) -> Option<ErrorView> {
    match spec_policy(path, info) {
        PolicyDecision::DirectoryRejected => if spec_is_directory_path(path) {
            Some(about(ErrorKind::CannotEditDirectory, path))
        } else {
            Some(about(ErrorKind::NotRegularFile, path))
        },
        PolicyDecision::OwnedByCaller => Some(about(ErrorKind::CannotEditOwnFile, path)),
        PolicyDecision::ReadableAndWritableByCaller => Some(
            about(ErrorKind::CannotEditReadableWritableFile, path),
        ),
        _ => None,
    }
}

/// The value of an error that may be absent.
pub open spec fn error_option(error: Option<DoaseditError>) -> Option<ErrorView> {
    match error {
        Some(error) => Some(error@),
        None => None,
    }
}

/// The decision for `file_path`, of which `info` is known.
pub fn policy_decision(file_path: &str, info: &FileInfo) -> (decision: PolicyDecision)
    ensures
        decision == spec_policy(file_path@, *info),
{
    if is_directory_path(file_path) {
        PolicyDecision::DirectoryRejected
    } else if !info.exists {
        PolicyDecision::Missing
    } else if info.is_owned_by_user {
        PolicyDecision::OwnedByCaller
    } else if info.readable && info.writable {
        PolicyDecision::ReadableAndWritableByCaller
    } else if info.is_directory {
        PolicyDecision::DirectoryRejected
    } else if info.needs_helper() {
        PolicyDecision::NeedsPrivilegedRead
    } else {
        PolicyDecision::DirectlyReadable
    }
}

/// The error that ends the work on `file_path`, where the rules forbid the
/// edit; nothing where the edit may go on.
pub fn policy_rejection(file_path: &str, info: &FileInfo) -> (error: Option<DoaseditError>)
    ensures
        error_option(error) == spec_policy_error(file_path@, *info),
{
    match policy_decision(file_path, info) {
        PolicyDecision::DirectoryRejected => if is_directory_path(file_path) {
            Some(cannot_edit_directory(file_path))
        } else {
            Some(not_regular_file(file_path))
        },
        PolicyDecision::OwnedByCaller => Some(cannot_edit_own_file(file_path)),
        PolicyDecision::ReadableAndWritableByCaller => Some(
            cannot_edit_readable_writable_file(file_path),
        ),
        _ => None,
    }
}

/// How often the privileged write is attempted for one path.
pub const MAX_WRITE_ATTEMPTS: u8 = 3;

/// How far the commit of an edited copy has come.
#[derive(Clone, Debug, PartialEq, Eq)]
pub enum Writeback {
    /// The privileged write failed `failures` times and is to be tried again.
    Retry { failures: u8 },
    /// The target holds the edited content.
    Written,
    /// The commit is given up.
    Failed(DoaseditError),
}

/// The mathematical value of a [`Writeback`].
pub enum WritebackView {
    Retry { failures: u8 },
    Written,
    Failed(ErrorView),
}

impl View for Writeback {
    type V = WritebackView;

    open spec fn view(&self) -> WritebackView {
        match self {
            Writeback::Retry { failures } => WritebackView::Retry { failures: *failures },
            Writeback::Written => WritebackView::Written,
            Writeback::Failed(error) => WritebackView::Failed(error@),
        }
    }
}

/// What follows from the outcome `event` of one write to the target, after
/// `failures` failed attempts. A direct write is done or fails as a file
/// operation does. A privileged write that the helper refuses is tried again
/// until it has been refused [`MAX_WRITE_ATTEMPTS`] times; a helper that does
/// not run ends the commit at once.
pub open spec fn spec_write_back(writable: bool, failures: u8, event: EventView) -> WritebackView {
    if writable {
        match local_outcome(event) {
            Ok(_) => WritebackView::Written,
            Err(error) => WritebackView::Failed(error),
        }
    } else {
        match helper_outcome(event) {
            HelperOutcome::Granted => WritebackView::Written,
            HelperOutcome::Unavailable => WritebackView::Failed(plain(ErrorKind::DoasUnavailable)),
            HelperOutcome::Refused => if failures + 1 >= MAX_WRITE_ATTEMPTS {
                WritebackView::Failed(plain(ErrorKind::ThreeIncorrectPasswordAttempts))
            } else {
                WritebackView::Retry { failures: (failures + 1) as u8 }
            },
        }
    }
}

/// One step of the commit: reads the outcome `event` of a write to the target,
/// which was direct where `writable` is set and went through the privilege
/// helper where it is not, after `failures` refused attempts.
pub fn write_file_back(writable: bool, failures: u8, event: &Event) -> (next: Writeback)
    ensures
        next@ == spec_write_back(writable, failures, event@),
        next matches Writeback::Retry { failures: again } ==> again == failures + 1 && again
            < MAX_WRITE_ATTEMPTS,
{
    if writable {
        match event.as_local_outcome() {
            Ok(_) => Writeback::Written,
            Err(error) => Writeback::Failed(error),
        }
    } else {
        match event.as_helper_outcome() {
            HelperOutcome::Granted => Writeback::Written,
            HelperOutcome::Unavailable => Writeback::Failed(doas_unavailable()),
            HelperOutcome::Refused => if failures >= MAX_WRITE_ATTEMPTS - 1 {
                Writeback::Failed(three_incorrect_password_attempts())
            } else {
                Writeback::Retry { failures: failures + 1 }
            },
        }
    }
}

/// Where the commit stands after the outcomes `events` of successive writes,
/// the first of them made after `failures` refused attempts. Outcomes that
/// follow the end of the commit do not count.
pub open spec fn write_run(writable: bool, failures: u8, events: Seq<EventView>) -> WritebackView
    decreases events.len(),
{
    if events.len() == 0 {
        WritebackView::Retry { failures }
    } else {
        match spec_write_back(writable, failures, events.first()) {
            WritebackView::Retry { failures: again } => write_run(
                writable,
                again,
                events.drop_first(),
            ),
            done => done,
        }
    }
}

/// A commit that is still open has made as many attempts as it has seen
/// refusals, and fewer than [`MAX_WRITE_ATTEMPTS`]: no further attempt follows
/// the last one allowed.
pub proof fn lemma_attempts_are_bounded(writable: bool, failures: u8, events: Seq<EventView>)
    requires
        failures < MAX_WRITE_ATTEMPTS,
        write_run(writable, failures, events) is Retry,
    ensures
        write_run(writable, failures, events)->failures == failures + events.len(),
        failures + events.len() < MAX_WRITE_ATTEMPTS,
        events.len() > 0 ==> !writable,
        forall|i: int|
            0 <= i < events.len() ==> helper_outcome(#[trigger] events[i])
                == HelperOutcome::Refused,
    decreases events.len(),
{
    if events.len() > 0 {
        let rest = events.drop_first();
        let again = spec_write_back(writable, failures, events.first())->failures;
        lemma_attempts_are_bounded(writable, again, rest);
        assert forall|i: int| 0 <= i < events.len() implies helper_outcome(#[trigger] events[i])
            == HelperOutcome::Refused by {
            if i > 0 {
                assert(events[i] == rest[i - 1]);
            }
        }
    }
}

/// The privileged write that is refused on every attempt is given up with the
/// error of the exhausted attempts as soon as the last allowed attempt has
/// been refused.
pub proof fn lemma_refusals_exhaust(failures: u8, events: Seq<EventView>)
    requires
        failures < MAX_WRITE_ATTEMPTS,
        events.len() >= MAX_WRITE_ATTEMPTS - failures,
        forall|i: int|
            0 <= i < MAX_WRITE_ATTEMPTS - failures ==> helper_outcome(#[trigger] events[i])
                == HelperOutcome::Refused,
    ensures
        write_run(false, failures, events) == WritebackView::Failed(
            plain(ErrorKind::ThreeIncorrectPasswordAttempts),
        ),
    decreases events.len(),
{
    if failures + 1 < MAX_WRITE_ATTEMPTS {
        let rest = events.drop_first();
        assert forall|i: int| 0 <= i < MAX_WRITE_ATTEMPTS - (failures + 1) implies helper_outcome(
            #[trigger] rest[i],
        ) == HelperOutcome::Refused by {
            assert(rest[i] == events[i + 1]);
        }
        lemma_refusals_exhaust((failures + 1) as u8, rest);
    }
}

/// The error of the exhausted attempts is never reported before the helper has
/// refused the last allowed attempt, and is never reported for a direct write.
pub proof fn lemma_exhaustion_needs_refusals(writable: bool, failures: u8, events: Seq<EventView>)
    requires
        failures < MAX_WRITE_ATTEMPTS,
        write_run(writable, failures, events) == WritebackView::Failed(
            plain(ErrorKind::ThreeIncorrectPasswordAttempts),
        ),
    ensures
        !writable,
        events.len() >= MAX_WRITE_ATTEMPTS - failures,
        forall|i: int|
            0 <= i < MAX_WRITE_ATTEMPTS - failures ==> helper_outcome(#[trigger] events[i])
                == HelperOutcome::Refused,
    decreases events.len(),
{
    let first = spec_write_back(writable, failures, events.first());
    if first is Retry {
        let rest = events.drop_first();
        lemma_exhaustion_needs_refusals(writable, first->failures, rest);
        assert forall|i: int| 0 <= i < MAX_WRITE_ATTEMPTS - failures implies helper_outcome(
            #[trigger] events[i],
        ) == HelperOutcome::Refused by {
            if i > 0 {
                assert(events[i] == rest[i - 1]);
            }
        }
    }
}

/// Whether the edited copy differs from what the target held.
#[derive(Clone, Copy, Debug, PartialEq, Eq, Structural)]
pub enum CommitDecision {
    /// The working copy equals the reference copy; nothing is written.
    Unchanged,
    /// The working copy differs and was written to the target.
    Changed,
}

/// Where the work on one path stands: the step whose outcome is awaited, or
/// the end.
#[derive(Debug, PartialEq, Eq)]
pub enum Stage {
    /// The answer to a probe of the path is awaited.
    Classifying { probe: Probe },
    /// The private directory and the two empty copies are being created.
    Staging { info: FileInfo },
    /// The content of the target is being fetched.
    Loading { info: FileInfo },
    /// Content that the privilege helper handed over is being written into
    /// the working copy.
    Storing { info: FileInfo, content: Vec<u8> },
    /// The working copy is being copied to the reference copy.
    Snapshotting { info: FileInfo },
    /// The editor is open on the working copy of an ordinary file.
    Editing { info: FileInfo },
    /// The working copy of a configuration file is being validated.
    Validating { info: FileInfo, state: ValidatorState },
    /// The two copies are being read for comparison.
    Comparing { info: FileInfo },
    /// `content` is being written to the target, after `failures` refused
    /// attempts.
    Writing { info: FileInfo, failures: u8, content: Vec<u8> },
    /// The private directory is being removed.
    TearingDown { result: Result<CommitDecision, DoaseditError> },
    /// The work on the path is over.
    Finished { result: Result<CommitDecision, DoaseditError> },
}

/// The mathematical value of a [`Stage`].
pub enum StageView {
    Classifying { probe: Probe },
    Staging { info: FileInfo },
    Loading { info: FileInfo },
    Storing { info: FileInfo, content: Seq<u8> },
    Snapshotting { info: FileInfo },
    Editing { info: FileInfo },
    Validating { info: FileInfo, state: ValidatorState },
    Comparing { info: FileInfo },
    Writing { info: FileInfo, failures: u8, content: Seq<u8> },
    TearingDown { result: Result<CommitDecision, ErrorView> },
    Finished { result: Result<CommitDecision, ErrorView> },
}

/// The value of the result of the work on one path.
pub open spec fn result_view(result: Result<CommitDecision, DoaseditError>) -> Result<
    CommitDecision,
    ErrorView,
> {
    match result {
        Ok(decision) => Ok(decision),
        Err(error) => Err(error@),
    }
}

impl View for Stage {
    type V = StageView;

    open spec fn view(&self) -> StageView {
        match self {
            Stage::Classifying { probe } => StageView::Classifying { probe: *probe },
            Stage::Staging { info } => StageView::Staging { info: *info },
            Stage::Loading { info } => StageView::Loading { info: *info },
            Stage::Storing { info, content } => StageView::Storing {
                info: *info,
                content: content@,
            },
            Stage::Snapshotting { info } => StageView::Snapshotting { info: *info },
            Stage::Editing { info } => StageView::Editing { info: *info },
            Stage::Validating { info, state } => StageView::Validating {
                info: *info,
                state: *state,
            },
            Stage::Comparing { info } => StageView::Comparing { info: *info },
            Stage::Writing { info, failures, content } => StageView::Writing {
                info: *info,
                failures: *failures,
                content: content@,
            },
            Stage::TearingDown { result } => StageView::TearingDown {
                result: result_view(*result),
            },
            Stage::Finished { result } => StageView::Finished { result: result_view(*result) },
        }
    }
}

/// What the caller has to do at a stage.
#[derive(Clone, Copy, Debug, PartialEq, Eq, Structural)]
pub enum Action {
    /// Answer the probe.
    Probe(Probe),
    /// Create the private directory and, inside it, the two copies, empty and
    /// readable and writable by their owner alone.
    CreateStaging,
    /// Copy the target to the working copy.
    CopyOriginal,
    /// Have the privilege helper read the target.
    ReadPrivileged,
    /// Write the content held by the stage into the working copy.
    StoreContent,
    /// Copy the working copy to the reference copy.
    Snapshot,
    /// Run the editor on the working copy.
    RunEditor,
    /// Have the privilege helper check the syntax of the working copy.
    RunValidator,
    /// Ask the user whether to edit again, to overwrite or to abort.
    AskUser,
    /// Read the working copy and the reference copy.
    ReadCopies,
    /// Write the content held by the stage to the target.
    WriteDirect,
    /// Have the privilege helper write the content held by the stage to the
    /// target, fed on the helper's standard input.
    WritePrivileged,
    /// Remove the private directory and what it holds.
    RemoveStaging,
    /// Nothing is left to do.
    Stop,
}

/// What the caller has to do at `stage`.
pub open spec fn spec_action(stage: StageView) -> Action {
    match stage {
        StageView::Classifying { probe } => Action::Probe(probe),
        StageView::Staging { .. } => Action::CreateStaging,
        StageView::Loading { info } => if info.reads_through_helper() {
            Action::ReadPrivileged
        } else {
            Action::CopyOriginal
        },
        StageView::Storing { .. } => Action::StoreContent,
        StageView::Snapshotting { .. } => Action::Snapshot,
        StageView::Editing { .. } => Action::RunEditor,
        StageView::Validating { state, .. } => match state {
            ValidatorState::Editing => Action::RunEditor,
            ValidatorState::CheckPending { asked } => if asked {
                Action::AskUser
            } else {
                Action::RunValidator
            },
            _ => Action::ReadCopies,
        },
        StageView::Comparing { .. } => Action::ReadCopies,
        StageView::Writing { info, .. } => if info.writable {
            Action::WriteDirect
        } else {
            Action::WritePrivileged
        },
        StageView::TearingDown { .. } => Action::RemoveStaging,
        StageView::Finished { .. } => Action::Stop,
    }
}

/// Whether a private directory may exist on disk at `stage`: from the moment
/// its creation is asked for until its removal has been reported.
pub open spec fn holds_staging(stage: StageView) -> bool {
    !(stage is Classifying) && !(stage is Finished)
}

/// The stage at which the editor is opened for `path`: under validation where the
/// path belongs to the helper's configuration, plainly where it does not.
pub open spec fn spec_edit_stage(path: Seq<char>, info: FileInfo) -> StageView {
    if spec_is_doas_config_file(path) {
        StageView::Validating { info, state: ValidatorState::Editing }
    } else {
        StageView::Editing { info }
    }
}

/// The stage that follows the validation in `state`: the comparison once it has
/// committed, the end with the user's abort once it has aborted, and the
/// validation itself otherwise.
pub open spec fn spec_after_validation(info: FileInfo, state: ValidatorState) -> StageView {
    match state {
        ValidatorState::Committed => StageView::Comparing { info },
        ValidatorState::Aborted => StageView::TearingDown {
            result: Err(plain(ErrorKind::UserAbort)),
        },
        _ => StageView::Validating { info, state },
    }
}

/// The stage that follows a failure once staging has begun: the private
/// directory is removed before the error is reported.
pub open spec fn spec_give_up(error: ErrorView) -> StageView {
    StageView::TearingDown { result: Err(error) }
}

/// The stage that follows a file operation: `then` where it went through.
pub open spec fn spec_after_local(event: EventView, then: StageView) -> StageView {
    match local_outcome(event) {
        Ok(_) => then,
        Err(error) => spec_give_up(error),
    }
}

/// What the validation of a configuration file makes of `event`.
pub open spec fn spec_at_validation(
    info: FileInfo,
    state: ValidatorState,
    event: EventView,
) -> StageView {
    match state {
        ValidatorState::Editing => match spec_editor_outcome(event) {
            Ok(_) => spec_after_validation(
                info,
                spec_validate(state, ValidatorEvent::EditorClosed),
            ),
            Err(error) => spec_give_up(error),
        },
        ValidatorState::CheckPending { asked } => if asked {
            match event {
                EventView::Input(line) => spec_after_validation(
                    info,
                    spec_validate(
                        state,
                        ValidatorEvent::Chose(spec_choice(lowercased(trimmed(line)))),
                    ),
                ),
                _ => spec_give_up(plain(ErrorKind::Interrupted)),
            }
        } else {
            match helper_outcome(event) {
                HelperOutcome::Unavailable => spec_give_up(plain(ErrorKind::DoasUnavailable)),
                HelperOutcome::Granted => spec_after_validation(
                    info,
                    spec_validate(state, ValidatorEvent::CheckPassed),
                ),
                HelperOutcome::Refused => spec_after_validation(
                    info,
                    spec_validate(state, ValidatorEvent::CheckFailed),
                ),
            }
        },
        _ => spec_after_validation(info, state),
    }
}

/// The stage that follows `stage` on `event`, for the path `path` in the
/// directory `parent` and the user `uid`.
///
/// A path is looked at first; one that the rules reject ends at once, before
/// anything is staged. Then the copies are staged, the target's content is
/// fetched and kept as reference, the editor runs, a configuration file is
/// validated, and the copies are compared: equal copies end the work, differing
/// ones are written to the target. Whatever happens after staging has begun,
/// the private directory is removed before the work ends. An event that is no
/// answer to the step awaited counts as a failure of that step.
pub open spec fn spec_process(
    stage: StageView,
    event: EventView,
    path: Seq<char>,
    parent: Seq<char>,
    uid: u32,
) -> StageView {
    match stage {
        StageView::Classifying { probe } => match spec_classify(probe, event, path, parent, uid) {
            StatusCheckView::Ask(then) => StageView::Classifying { probe: then },
            StatusCheckView::Rejected(error) => StageView::Finished { result: Err(error) },
            StatusCheckView::Found(info) => match spec_policy_error(path, info) {
                Some(error) => StageView::Finished { result: Err(error) },
                None => StageView::Staging { info },
            },
        },
        StageView::Staging { info } => spec_after_local(
            event,
            if info.exists {
                StageView::Loading { info }
            } else {
                spec_edit_stage(path, info)
            },
        ),
        StageView::Loading { info } => match spec_copy_original(
            info.reads_through_helper(),
            event,
        ) {
            LoadedView::Complete => StageView::Snapshotting { info },
            LoadedView::Store(content) => StageView::Storing { info, content },
            LoadedView::Failed(error) => spec_give_up(error),
        },
        StageView::Storing { info, .. } => spec_after_local(
            event,
            StageView::Snapshotting { info },
        ),
        StageView::Snapshotting { info } => spec_after_local(event, spec_edit_stage(path, info)),
        StageView::Editing { info } => match spec_editor_outcome(event) {
            Ok(_) => StageView::Comparing { info },
            Err(error) => spec_give_up(error),
        },
        StageView::Validating { info, state } => spec_at_validation(info, state, event),
        StageView::Comparing { info } => match event {
            EventView::Contents { working, reference } => if working == reference {
                StageView::TearingDown { result: Ok(CommitDecision::Unchanged) }
            } else {
                StageView::Writing { info, failures: 0, content: working }
            },
            EventView::IoFailure(message) => spec_give_up(about(ErrorKind::Io, message)),
            _ => spec_give_up(plain(ErrorKind::Interrupted)),
        },
        StageView::Writing { info, failures, content } => match spec_write_back(
            info.writable,
            failures,
            event,
        ) {
            WritebackView::Retry { failures: again } => StageView::Writing {
                info,
                failures: again,
                content,
            },
            WritebackView::Written => StageView::TearingDown {
                result: Ok(CommitDecision::Changed),
            },
            WritebackView::Failed(error) => spec_give_up(error),
        },
        StageView::TearingDown { result } => StageView::Finished { result },
        StageView::Finished { result } => StageView::Finished { result },
    }
}

/// The stage at which the work on `path` starts, given the path's file name
/// where it has one: a path written as a directory and a path without a file
/// name end at once, every other path is looked at.
pub open spec fn spec_start(path: Seq<char>, name: Option<Seq<char>>) -> StageView {
    if spec_is_directory_path(path) {
        StageView::Finished { result: Err(about(ErrorKind::CannotEditDirectory, path)) }
    } else {
        match name_or_error(name) {
            Ok(_) => StageView::Classifying { probe: Probe::DirectMetadata },
            Err(error) => StageView::Finished { result: Err(error) },
        }
    }
}

impl Stage {
    /// What the caller has to do at this stage.
    pub fn action(&self) -> (action: Action)
        ensures
            action == spec_action(self@),
    {
        match self {
            Stage::Classifying { probe } => Action::Probe(*probe),
            Stage::Staging { .. } => Action::CreateStaging,
            Stage::Loading { info } => if info.needs_helper() {
                Action::ReadPrivileged
            } else {
                Action::CopyOriginal
            },
            Stage::Storing { .. } => Action::StoreContent,
            Stage::Snapshotting { .. } => Action::Snapshot,
            Stage::Editing { .. } => Action::RunEditor,
            Stage::Validating { state, .. } => match state {
                ValidatorState::Editing => Action::RunEditor,
                ValidatorState::CheckPending { asked } => if *asked {
                    Action::AskUser
                } else {
                    Action::RunValidator
                },
                _ => Action::ReadCopies,
            },
            Stage::Comparing { .. } => Action::ReadCopies,
            Stage::Writing { info, .. } => if info.writable {
                Action::WriteDirect
            } else {
                Action::WritePrivileged
            },
            Stage::TearingDown { .. } => Action::RemoveStaging,
            Stage::Finished { .. } => Action::Stop,
        }
    }
}

fn edit_stage(path: &str, info: FileInfo) -> (stage: Stage)
    ensures
        stage@ == spec_edit_stage(path@, info),
{
    if is_doas_config_file(path) {
        Stage::Validating { info, state: ValidatorState::Editing }
    } else {
        Stage::Editing { info }
    }
}

fn after_validation(info: FileInfo, state: ValidatorState) -> (stage: Stage)
    ensures
        stage@ == spec_after_validation(info, state),
{
    match state {
        ValidatorState::Committed => Stage::Comparing { info },
        ValidatorState::Aborted => Stage::TearingDown { result: Err(user_abort()) },
        _ => Stage::Validating { info, state },
    }
}

fn give_up(error: DoaseditError) -> (stage: Stage)
    ensures
        stage@ == spec_give_up(error@),
{
    Stage::TearingDown { result: Err(error) }
}

fn after_local(event: &Event, then: Stage) -> (stage: Stage)
    ensures
        stage@ == spec_after_local(event@, then@),
{
    match event.as_local_outcome() {
        Ok(_) => then,
        Err(error) => give_up(error),
    }
}

fn at_validation(info: FileInfo, state: ValidatorState, event: &Event) -> (stage: Stage)
    ensures
        stage@ == spec_at_validation(info, state, event@),
{
    match state {
        ValidatorState::Editing => match open_file_with_editor(event) {
            Ok(_) => after_validation(
                info,
                validate_doas_config(state, ValidatorEvent::EditorClosed),
            ),
            Err(error) => give_up(error),
        },
        ValidatorState::CheckPending { asked } => if asked {
            match event {
                Event::Input(line) => {
                    let choice = read_choice(line.as_str());
                    after_validation(
                        info,
                        validate_doas_config(state, ValidatorEvent::Chose(choice)),
                    )
                },
                _ => give_up(interrupted()),
            }
        } else {
            match event.as_helper_outcome() {
                HelperOutcome::Unavailable => give_up(doas_unavailable()),
                HelperOutcome::Granted => after_validation(
                    info,
                    validate_doas_config(state, ValidatorEvent::CheckPassed),
                ),
                HelperOutcome::Refused => after_validation(
                    info,
                    validate_doas_config(state, ValidatorEvent::CheckFailed),
                ),
            }
        },
        _ => after_validation(info, state),
    }
}

/// One step of the work on `path` for the user `uid`, where the path lies in
/// the directory `parent`: the stage that follows `stage` on `event`.
pub fn advance(stage: Stage, event: Event, path: &str, parent: &str, uid: u32) -> (next: Stage)
    ensures
        next@ == spec_process(stage@, event@, path@, parent@, uid),
{
    match stage {
        Stage::Classifying { probe } => match classify(probe, &event, path, parent, uid) {
            StatusCheck::Ask(then) => Stage::Classifying { probe: then },
            StatusCheck::Rejected(error) => Stage::Finished { result: Err(error) },
            StatusCheck::Found(info) => match policy_rejection(path, &info) {
                Some(error) => Stage::Finished { result: Err(error) },
                None => Stage::Staging { info },
            },
        },
        Stage::Staging { info } => {
            let then = if info.exists {
                Stage::Loading { info }
            } else {
                edit_stage(path, info)
            };
            after_local(&event, then)
        },
        Stage::Loading { info } => match copy_original_content(info.needs_helper(), event) {
            Loaded::Complete => Stage::Snapshotting { info },
            Loaded::Store(content) => Stage::Storing { info, content },
            Loaded::Failed(error) => give_up(error),
        },
        Stage::Storing { info, content } => after_local(&event, Stage::Snapshotting { info }),
        Stage::Snapshotting { info } => after_local(&event, edit_stage(path, info)),
        Stage::Editing { info } => match open_file_with_editor(&event) {
            Ok(_) => Stage::Comparing { info },
            Err(error) => give_up(error),
        },
        Stage::Validating { info, state } => at_validation(info, state, &event),
        Stage::Comparing { info } => match event {
            Event::Contents { working, reference } => if files_match(
                working.as_slice(),
                reference.as_slice(),
            ) {
                Stage::TearingDown { result: Ok(CommitDecision::Unchanged) }
            } else {
                Stage::Writing { info, failures: 0, content: working }
            },
            Event::IoFailure(message) => give_up(io_failure(message.as_str())),
            _ => give_up(interrupted()),
        },
        Stage::Writing { info, failures, content } => match write_file_back(
            info.writable,
            failures,
            &event,
        ) {
            Writeback::Retry { failures: again } => Stage::Writing {
                info,
                failures: again,
                content,
            },
            Writeback::Written => Stage::TearingDown { result: Ok(CommitDecision::Changed) },
            Writeback::Failed(error) => give_up(error),
        },
        Stage::TearingDown { result } => Stage::Finished { result },
        Stage::Finished { result } => Stage::Finished { result },
    }
}

/// One step of the work on `file_path` for the user that runs the process:
/// the stage that follows `stage` on `event`. The caller carries out
/// [`Stage::action`] of the stage returned and comes back with its outcome,
/// until that action is [`Action::Stop`].
pub fn process_file(stage: Stage, event: Event, file_path: &str) -> (next: Stage)
    ensures
        exists|uid: u32|
            next@ == spec_process(
                stage@,
                event@,
                file_path@,
                parent_or_root(path_parent_of(file_path@)),
                uid,
            ),
{
    let uid = get_current_uid();
    let parent = get_parent_directory(file_path);
    advance(stage, event, file_path, parent.as_str(), uid)
}

/// The stage at which the work on `file_path` starts, given what the search
/// for its file name came to.
pub fn start_with_name(file_path: &str, name: Option<String>) -> (stage: Stage)
    ensures
        stage@ == spec_start(file_path@, name.deep_view()),
{
    if is_directory_path(file_path) {
        Stage::Finished { result: Err(cannot_edit_directory(file_path)) }
    } else {
        match filename_or_error(name) {
            Ok(_) => Stage::Classifying { probe: Probe::DirectMetadata },
            Err(error) => Stage::Finished { result: Err(error) },
        }
    }
}

/// The stage at which the work on `file_path` starts.
pub fn start_processing(file_path: &str) -> (stage: Stage)
    ensures
        stage@ == spec_start(file_path@, path_file_name_of(file_path@)),
{
    if is_directory_path(file_path) {
        Stage::Finished { result: Err(cannot_edit_directory(file_path)) }
    } else {
        match get_filename(file_path) {
            Ok(_) => Stage::Classifying { probe: Probe::DirectMetadata },
            Err(error) => Stage::Finished { result: Err(error) },
        }
    }
}

} // verus!
