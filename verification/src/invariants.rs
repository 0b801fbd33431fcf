//! What holds of every run of the work on one path: what is rejected is never
//! staged, what is staged is removed, what only the helper could look at is
//! read through the helper, what is written was compared, and a configuration
//! file is committed only through its validation.

use crate::editor::{lowercased, spec_choice, trimmed, Choice, ValidatorState};
use crate::error::{about, plain, ErrorKind, ErrorView};
use crate::event::{helper_outcome, local_outcome, EventView, HelperOutcome};
use crate::file_handler::{
    holds_staging, info_of, spec_action, spec_classify, spec_give_up, spec_policy,
    spec_policy_error, spec_process, spec_write_back, Action, Channel, CommitDecision, FileInfo,
    PolicyDecision, Probe, StageView, StatusCheckView, MAX_WRITE_ATTEMPTS,
};
use crate::utils::{
    spec_file_metadata_with_doas, spec_is_directory_path, spec_is_doas_config_file, FileMetadata,
};
use vstd::prelude::*;

verus! {

/// Whether the rules let the edit of `path`, of which `info` is known, go on.
pub open spec fn admitted(path: Seq<char>, info: FileInfo) -> bool {
    info.well_formed() && spec_policy_error(path, info) is None
}

/// Whether a result is the rejection of a file that the caller owns or can
/// read and write without help.
pub open spec fn is_policy_rejection(result: Result<CommitDecision, ErrorView>) -> bool {
    match result {
        Err(error) => error.kind == ErrorKind::CannotEditOwnFile || error.kind
            == ErrorKind::CannotEditReadableWritableFile,
        Ok(_) => false,
    }
}

/// What holds of every stage that the work on `path` can come to: only a path
/// that the rules admit is staged, only an existing file is loaded, only a
/// configuration file is validated, and a write has been refused fewer times
/// than it may be attempted.
pub open spec fn stage_well_formed(stage: StageView, path: Seq<char>) -> bool {
    match stage {
        StageView::Classifying { .. } => true,
        StageView::Staging { info } => admitted(path, info),
        StageView::Loading { info } => admitted(path, info) && info.exists,
        StageView::Storing { info, .. } => {
            &&& admitted(path, info)
            &&& info.exists
            &&& info.reads_through_helper()
        },
        StageView::Snapshotting { info } => admitted(path, info) && info.exists,
        StageView::Editing { info } => admitted(path, info) && !spec_is_doas_config_file(path),
        StageView::Validating { info, state } => {
            &&& admitted(path, info)
            &&& spec_is_doas_config_file(path)
            &&& state != ValidatorState::Committed
            &&& state != ValidatorState::Aborted
        },
        StageView::Comparing { info } => admitted(path, info),
        StageView::Writing { info, failures, .. } => {
            &&& admitted(path, info)
            &&& failures < MAX_WRITE_ATTEMPTS
        },
        StageView::TearingDown { result } => !is_policy_rejection(result),
        StageView::Finished { .. } => true,
    }
}

/// Whether `event` is a line by which the user makes the choice `choice`.
pub open spec fn answers_with(event: EventView, choice: Choice) -> bool {
    match event {
        EventView::Input(line) => spec_choice(lowercased(trimmed(line))) == choice,
        _ => false,
    }
}

/// Whether `event`, met by a validation that stands at `state`, lets the
/// working copy through: a syntax check that passed, or the user's choice to
/// overwrite.
pub open spec fn lets_through(state: ValidatorState, event: EventView) -> bool {
    ||| state == (ValidatorState::CheckPending { asked: false }) && helper_outcome(event)
        == HelperOutcome::Granted
    ||| state == (ValidatorState::CheckPending { asked: true }) && answers_with(
        event,
        Choice::Overwrite,
    )
}

/// Whether `event` is a comparison that found the working copy to hold
/// `content` and the reference copy to differ from it.
pub open spec fn found_changed(event: EventView, content: Seq<u8>) -> bool {
    match event {
        EventView::Contents { working, reference } => working == content && reference != content,
        _ => false,
    }
}

/// Every step leads from a well-formed stage to a well-formed stage.
pub proof fn lemma_step_keeps_well_formed(
    stage: StageView,
    event: EventView,
    path: Seq<char>,
    parent: Seq<char>,
    uid: u32,
)
    requires
        stage_well_formed(stage, path),
    ensures
        stage_well_formed(spec_process(stage, event, path, parent, uid), path),
{
}

/// A file that the caller owns, or can read and write without help, is
/// rejected by the very step that comes to know it: the work ends there with
/// the error of the rule, and no staging is asked for.
pub proof fn lemma_rejected_before_staging(
    probe: Probe,
    event: EventView,
    path: Seq<char>,
    parent: Seq<char>,
    uid: u32,
    info: FileInfo,
)
    requires
        spec_classify(probe, event, path, parent, uid) == StatusCheckView::Found(info),
        spec_policy(path, info) == PolicyDecision::OwnedByCaller || spec_policy(path, info)
            == PolicyDecision::ReadableAndWritableByCaller,
    ensures
        spec_process(StageView::Classifying { probe }, event, path, parent, uid)
            == (StageView::Finished {
            result: Err(
                about(
                    if spec_policy(path, info) == PolicyDecision::OwnedByCaller {
                        ErrorKind::CannotEditOwnFile
                    } else {
                        ErrorKind::CannotEditReadableWritableFile
                    },
                    path,
                ),
            ),
        }),
        !holds_staging(spec_process(StageView::Classifying { probe }, event, path, parent, uid)),
{
}

/// A file is read by the way by which it came to be known: what the caller
/// could look at is copied directly, and what only the privilege helper could
/// look at is read through the helper.
pub proof fn lemma_channel_follows_probe(
    probe: Probe,
    event: EventView,
    path: Seq<char>,
    parent: Seq<char>,
    uid: u32,
)
    requires
        spec_process(StageView::Classifying { probe }, event, path, parent, uid) is Staging,
    ensures
        ({
            let info = spec_process(
                StageView::Classifying { probe },
                event,
                path,
                parent,
                uid,
            )->Staging_info;
            &&& info.exists <==> probe == Probe::DirectMetadata || probe
                == Probe::PrivilegedMetadata
            &&& info.exists ==> (info.reads_through_helper() <==> probe
                == Probe::PrivilegedMetadata)
            &&& info.channel == Channel::Privileged <==> probe == Probe::PrivilegedMetadata
        }),
{
}

/// The content that the privilege helper hands over is what is stored in the
/// working copy: the step that reads through the helper is followed, where
/// the helper succeeds, by the step that stores the helper's output.
pub proof fn lemma_helper_output_is_stored(
    info: FileInfo,
    output: Seq<u8>,
    path: Seq<char>,
    parent: Seq<char>,
    uid: u32,
)
    requires
        info.reads_through_helper(),
    ensures
        spec_action(StageView::Loading { info }) == Action::ReadPrivileged,
        spec_process(
            StageView::Loading { info },
            EventView::Exited { success: true, output },
            path,
            parent,
            uid,
        ) == (StageView::Storing { info, content: output }),
{
}

/// Equal copies end the work without a write: the comparison reports that
/// nothing changed, and the step that follows removes the staging.
pub proof fn lemma_unchanged_skips_writeback(
    info: FileInfo,
    content: Seq<u8>,
    path: Seq<char>,
    parent: Seq<char>,
    uid: u32,
)
    ensures
        spec_process(
            StageView::Comparing { info },
            EventView::Contents { working: content, reference: content },
            path,
            parent,
            uid,
        ) == (StageView::TearingDown { result: Ok(CommitDecision::Unchanged) }),
{
}

/// A write to the target is asked for only after a comparison that found the
/// copies to differ, and then with the very bytes of the working copy that
/// were compared; a write that is tried again, after the helper refused the
/// last one, carries the same bytes to the same target.
pub proof fn lemma_write_carries_compared_content(
    stage: StageView,
    event: EventView,
    path: Seq<char>,
    parent: Seq<char>,
    uid: u32,
)
    requires
        spec_process(stage, event, path, parent, uid) is Writing,
    ensures
        match stage {
            StageView::Comparing { info } => {
                let content = spec_process(stage, event, path, parent, uid)->Writing_content;
                &&& found_changed(event, content)
                &&& spec_process(stage, event, path, parent, uid) == (StageView::Writing {
                    info,
                    failures: 0,
                    content,
                })
            },
            StageView::Writing { info, failures, content } => {
                &&& !info.writable
                &&& helper_outcome(event) == HelperOutcome::Refused
                &&& spec_process(stage, event, path, parent, uid) == (StageView::Writing {
                    info,
                    failures: (failures + 1) as u8,
                    content,
                })
            },
            _ => false,
        },
{
}

/// The work reports a change only once a write to the target has gone
/// through.
pub proof fn lemma_change_reported_after_write(
    stage: StageView,
    event: EventView,
    path: Seq<char>,
    parent: Seq<char>,
    uid: u32,
)
    requires
        spec_process(stage, event, path, parent, uid) == (StageView::TearingDown {
            result: Ok(CommitDecision::Changed),
        }),
    ensures
        stage is Writing,
        spec_write_back(stage->Writing_info.writable, stage->Writing_failures, event) is Written,
{
}

/// The work on a path ends, once staging has been asked for, only by the step
/// that removes the staging, and that step hands on the result unchanged.
pub proof fn lemma_staging_removed_before_end(
    stage: StageView,
    event: EventView,
    path: Seq<char>,
    parent: Seq<char>,
    uid: u32,
)
    requires
        holds_staging(stage),
    ensures
        !(spec_process(stage, event, path, parent, uid) is Classifying),
        spec_process(stage, event, path, parent, uid) is Finished ==> stage is TearingDown,
        stage is TearingDown ==> spec_process(stage, event, path, parent, uid)
            == (StageView::Finished { result: stage->TearingDown_result }),
{
}

/// Whether `action` puts content into a staging copy.
pub open spec fn fills_staging(action: Action) -> bool {
    action == Action::CopyOriginal || action == Action::StoreContent || action == Action::Snapshot
        || action == Action::RunEditor
}

/// Nothing is put into a staging copy before the copies exist with their
/// permissions: a step that asks for content follows the creation of the
/// staging that went through, or a later step.
pub proof fn lemma_content_follows_staging(
    stage: StageView,
    event: EventView,
    path: Seq<char>,
    parent: Seq<char>,
    uid: u32,
)
    requires
        fills_staging(spec_action(spec_process(stage, event, path, parent, uid))),
    ensures
        holds_staging(stage),
        stage is Staging ==> local_outcome(event) is Ok,
{
}

/// A configuration file leaves its validation for the comparison only on a
/// syntax check that passed or on the user's choice to overwrite, and its edit
/// is given up as aborted only on the user's choice to abort.
pub proof fn lemma_validator_guards_commit(
    info: FileInfo,
    state: ValidatorState,
    event: EventView,
    path: Seq<char>,
    parent: Seq<char>,
    uid: u32,
)
    requires
        state != ValidatorState::Committed,
        state != ValidatorState::Aborted,
    ensures
        spec_process(StageView::Validating { info, state }, event, path, parent, uid)
            is Comparing ==> lets_through(state, event),
        spec_process(StageView::Validating { info, state }, event, path, parent, uid)
            == spec_give_up(plain(ErrorKind::UserAbort)) ==> state
            == (ValidatorState::CheckPending { asked: true }) && answers_with(
            event,
            Choice::Abort,
        ),
{
}

/// The edited copy of a configuration file comes to the comparison, and so to
/// the target, only out of its validation, and only on a syntax check that
/// passed or on the user's choice to overwrite.
pub proof fn lemma_config_commit_is_validated(
    stage: StageView,
    event: EventView,
    path: Seq<char>,
    parent: Seq<char>,
    uid: u32,
)
    requires
        stage_well_formed(stage, path),
        spec_is_doas_config_file(path),
        !(stage is Comparing),
        spec_process(stage, event, path, parent, uid) is Comparing,
    ensures
        stage is Validating,
        lets_through(stage->Validating_state, event),
{
}

/// The work on one path from a first stage through a sequence of events.
pub struct Run {
    /// The stage at which the run starts.
    pub start: StageView,
    /// What the caller reported, in order.
    pub events: Seq<EventView>,
    /// The path that is worked on.
    pub path: Seq<char>,
    /// The directory that the path lies in.
    pub parent: Seq<char>,
    /// The user for whom the path is worked on.
    pub uid: u32,
}

impl Run {
    /// The stage that the run has come to after its first `k` events.
    pub open spec fn stage_at(self, k: int) -> StageView
        decreases k,
    {
        if k <= 0 {
            self.start
        } else {
            spec_process(
                self.stage_at(k - 1),
                self.events[k - 1],
                self.path,
                self.parent,
                self.uid,
            )
        }
    }

    /// The stage that the run has come to after all of its events.
    pub open spec fn end(self) -> StageView {
        self.stage_at(self.events.len() as int)
    }

    /// Whether step `i` of the run is a comparison that found the working copy
    /// to hold `content` and the reference copy to differ from it.
    pub open spec fn compared_at(self, i: int, content: Seq<u8>) -> bool {
        &&& 0 <= i < self.events.len()
        &&& self.stage_at(i) is Comparing
        &&& found_changed(self.events[i], content)
    }
}

/// Whether staging has been asked for on the way to `stage`, as far as the
/// stage itself shows it.
spec fn past_staging(stage: StageView) -> bool {
    match stage {
        StageView::Classifying { .. } => false,
        StageView::TearingDown { result } => !is_policy_rejection(result),
        StageView::Finished { result } => !is_policy_rejection(result),
        _ => true,
    }
}

/// Whether a write has been asked for on the way to `stage`, as far as the
/// stage itself shows it.
spec fn past_writing(stage: StageView) -> bool {
    match stage {
        StageView::Writing { .. } => true,
        StageView::TearingDown { result } => result != Ok::<CommitDecision, ErrorView>(
            CommitDecision::Unchanged,
        ),
        StageView::Finished { result } => result != Ok::<CommitDecision, ErrorView>(
            CommitDecision::Unchanged,
        ),
        _ => false,
    }
}

proof fn lemma_past_staging_lasts(run: Run, k: int, n: int)
    requires
        0 <= k <= n,
        past_staging(run.stage_at(k)),
    ensures
        past_staging(run.stage_at(n)),
    decreases n - k,
{
    if k < n {
        lemma_past_staging_lasts(run, k, n - 1);
    }
}

proof fn lemma_past_writing_lasts(run: Run, k: int, n: int)
    requires
        0 <= k <= n,
        past_writing(run.stage_at(k)),
    ensures
        past_writing(run.stage_at(n)),
    decreases n - k,
{
    if k < n {
        lemma_past_writing_lasts(run, k, n - 1);
    }
}

/// Every stage of a run that starts at a well-formed stage is well-formed.
pub proof fn lemma_run_keeps_well_formed(run: Run, k: int)
    requires
        stage_well_formed(run.start, run.path),
    ensures
        stage_well_formed(run.stage_at(k), run.path),
    decreases k,
{
    if k > 0 {
        lemma_run_keeps_well_formed(run, k - 1);
        lemma_step_keeps_well_formed(
            run.stage_at(k - 1),
            run.events[k - 1],
            run.path,
            run.parent,
            run.uid,
        );
    }
}

/// A run that ends with the rejection of a file that the caller owns, or can
/// read and write without help, has asked for no staging at any of its
/// stages.
pub proof fn lemma_rejection_leaves_nothing_staged(run: Run, k: int)
    requires
        run.start is Classifying,
        run.end() is Finished,
        is_policy_rejection(run.end()->Finished_result),
        0 <= k <= run.events.len(),
    ensures
        !holds_staging(run.stage_at(k)),
{
    if holds_staging(run.stage_at(k)) {
        lemma_run_keeps_well_formed(run, k);
        lemma_past_staging_lasts(run, k, run.events.len() as int);
    }
}

/// A run that has asked for staging and has come to its end has passed the
/// step that removes the staging: whatever the result, nothing staged is left
/// behind.
pub proof fn lemma_finished_run_removed_staging(run: Run, k: int)
    requires
        0 <= k <= run.events.len(),
        holds_staging(run.stage_at(k)),
        run.end() is Finished,
    ensures
        exists|j: int| k <= j < run.events.len() && (#[trigger] run.stage_at(j)) is TearingDown,
    decreases run.events.len() - k,
{
    lemma_staging_removed_before_end(
        run.stage_at(k),
        run.events[k],
        run.path,
        run.parent,
        run.uid,
    );
    if !(run.stage_at(k) is TearingDown) {
        lemma_finished_run_removed_staging(run, k + 1);
    }
}

/// A run that ends with the report that nothing changed has asked for no
/// write to the target at any of its stages.
pub proof fn lemma_unchanged_run_never_wrote(run: Run, k: int)
    requires
        0 <= k <= run.events.len(),
        run.end() == (StageView::Finished { result: Ok(CommitDecision::Unchanged) }),
    ensures
        !(run.stage_at(k) is Writing),
{
    if run.stage_at(k) is Writing {
        lemma_past_writing_lasts(run, k, run.events.len() as int);
    }
}

/// Whatever a run asks to write to the target, on the first attempt or on a
/// later one, is byte for byte what an earlier comparison of the same run
/// found in the working copy.
pub proof fn lemma_written_content_was_compared(run: Run, j: int)
    requires
        run.start is Classifying,
        0 <= j <= run.events.len(),
        run.stage_at(j) is Writing,
    ensures
        exists|i: int| i < j && #[trigger] run.compared_at(i, run.stage_at(j)->Writing_content),
    decreases j,
{
    let content = run.stage_at(j)->Writing_content;
    if j > 0 {
        let before = run.stage_at(j - 1);
        lemma_write_carries_compared_content(
            before,
            run.events[j - 1],
            run.path,
            run.parent,
            run.uid,
        );
        if before is Comparing {
            assert(run.compared_at(j - 1, content));
        } else {
            lemma_written_content_was_compared(run, j - 1);
            let i = choose|i: int| i < j - 1 && #[trigger] run.compared_at(i, content);
            assert(run.compared_at(i, content));
        }
    }
}

/// A run that reports a change has written to the target: one of its stages
/// asked for the write.
pub proof fn lemma_changed_run_wrote(run: Run, n: int)
    requires
        run.start is Classifying,
        0 <= n <= run.events.len(),
        run.stage_at(n) == (StageView::Finished { result: Ok(CommitDecision::Changed) })
            || run.stage_at(n) == (StageView::TearingDown { result: Ok(CommitDecision::Changed) }),
    ensures
        exists|j: int| 0 <= j < n && (#[trigger] run.stage_at(j)) is Writing,
    decreases n,
{
    if n > 0 {
        if !(run.stage_at(n - 1) is Writing) {
            lemma_changed_run_wrote(run, n - 1);
        }
    }
}

/// A run comes to compare the copies of a configuration file only by the step
/// that lets the working copy through its validation.
pub proof fn lemma_config_run_is_validated(run: Run, j: int)
    requires
        run.start is Classifying,
        spec_is_doas_config_file(run.path),
        run.stage_at(j) is Comparing,
    ensures
        j > 0,
        run.stage_at(j - 1) is Validating,
        lets_through(run.stage_at(j - 1)->Validating_state, run.events[j - 1]),
{
    if j > 0 {
        lemma_run_keeps_well_formed(run, j - 1);
        lemma_config_commit_is_validated(
            run.stage_at(j - 1),
            run.events[j - 1],
            run.path,
            run.parent,
            run.uid,
        );
    }
}

impl Run {
    /// How many of the first `n` stages of the run ask for a write to the
    /// target.
    pub open spec fn writes_among(self, n: int) -> nat
        decreases n,
    {
        if n <= 0 {
            0
        } else if self.stage_at(n - 1) is Writing {
            self.writes_among(n - 1) + 1
        } else {
            self.writes_among(n - 1)
        }
    }
}

/// How the number of writes asked for so far shows in the stage that a run
/// has come to: none before the comparison is over, one more than the
/// refusals while the write is open, and never more than allowed.
spec fn writes_counted(stage: StageView, writes: nat) -> bool {
    match stage {
        StageView::Writing { failures, .. } => writes == failures + 1 && failures
            < MAX_WRITE_ATTEMPTS,
        StageView::TearingDown { .. } => writes <= MAX_WRITE_ATTEMPTS,
        StageView::Finished { .. } => writes <= MAX_WRITE_ATTEMPTS,
        _ => writes == 0,
    }
}

proof fn lemma_writes_counted(run: Run, n: int)
    requires
        run.start is Classifying,
        0 <= n,
    ensures
        writes_counted(run.stage_at(n), run.writes_among(n + 1)),
    decreases n,
{
    if n > 0 {
        lemma_writes_counted(run, n - 1);
    } else {
        assert(run.writes_among(0) == 0);
    }
}

/// However long a run lasts and whatever it is told, it asks for a write to
/// the target no more often than a write may be attempted.
pub proof fn lemma_write_attempts_are_bounded(run: Run, n: int)
    requires
        run.start is Classifying,
    ensures
        run.writes_among(n) <= MAX_WRITE_ATTEMPTS,
{
    if n > 0 {
        lemma_writes_counted(run, n - 1);
    }
}

/// A run gives the write up as exhausted only when the helper has refused the
/// last attempt allowed: by then it has asked for the write as often as a
/// write may be attempted, and the helper has just refused again.
pub proof fn lemma_exhaustion_follows_last_refusal(run: Run, n: int)
    requires
        run.start is Classifying,
        0 <= n,
        run.stage_at(n) == spec_give_up(plain(ErrorKind::ThreeIncorrectPasswordAttempts)),
    ensures
        n > 0,
        run.stage_at(n - 1) is Writing,
        helper_outcome(run.events[n - 1]) == HelperOutcome::Refused,
        run.writes_among(n) == MAX_WRITE_ATTEMPTS,
{
    if n > 0 {
        lemma_writes_counted(run, n - 1);
    }
}

/// A run that comes to know an existing file only through the privilege
/// helper loads it through the helper: once the file is admitted and its
/// staging has gone through, the run asks the helper to read the target,
/// stores what the helper hands over in the working copy, and then takes the
/// reference copy.
pub proof fn lemma_hidden_file_is_loaded_through_helper(run: Run, k: int, content: Seq<u8>)
    requires
        0 <= k,
        run.stage_at(k) == (StageView::Classifying { probe: Probe::PrivilegedMetadata }),
        run.stage_at(k + 1) is Staging,
        local_outcome(run.events[k + 1]) is Ok,
        run.events[k + 2] == (EventView::Exited { success: true, output: content }),
        local_outcome(run.events[k + 3]) is Ok,
    ensures
        ({
            let info = run.stage_at(k + 1)->Staging_info;
            &&& info.channel == Channel::Privileged
            &&& run.stage_at(k + 2) == (StageView::Loading { info })
            &&& spec_action(run.stage_at(k + 2)) == Action::ReadPrivileged
            &&& run.stage_at(k + 3) == (StageView::Storing { info, content })
            &&& spec_action(run.stage_at(k + 3)) == Action::StoreContent
            &&& run.stage_at(k + 4) == (StageView::Snapshotting { info })
        }),
{
    lemma_channel_follows_probe(
        Probe::PrivilegedMetadata,
        run.events[k],
        run.path,
        run.parent,
        run.uid,
    );
    assert(run.stage_at(k + 4) == spec_process(
        run.stage_at(k + 3),
        run.events[k + 3],
        run.path,
        run.parent,
        run.uid,
    ));
    assert(run.stage_at(k + 3) == spec_process(
        run.stage_at(k + 2),
        run.events[k + 2],
        run.path,
        run.parent,
        run.uid,
    ));
    assert(run.stage_at(k + 2) == spec_process(
        run.stage_at(k + 1),
        run.events[k + 1],
        run.path,
        run.parent,
        run.uid,
    ));
}

/// A run that could look at an existing file itself never asks the privilege
/// helper to read it: the staged file is copied directly.
pub proof fn lemma_visible_file_is_copied_directly(run: Run, k: int)
    requires
        0 <= k,
        run.stage_at(k) == (StageView::Classifying { probe: Probe::DirectMetadata }),
        run.stage_at(k + 1) is Staging,
        local_outcome(run.events[k + 1]) is Ok,
    ensures
        run.stage_at(k + 2) == (StageView::Loading { info: run.stage_at(k + 1)->Staging_info }),
        spec_action(run.stage_at(k + 2)) == Action::CopyOriginal,
{
    lemma_channel_follows_probe(
        Probe::DirectMetadata,
        run.events[k],
        run.path,
        run.parent,
        run.uid,
    );
    assert(run.stage_at(k + 2) == spec_process(
        run.stage_at(k + 1),
        run.events[k + 1],
        run.path,
        run.parent,
        run.uid,
    ));
}

/// A file that the caller cannot look at, that the privilege helper finds to
/// exist as a regular file of another owner, is staged and then read through
/// the helper: the run that learns this from its first four answers asks for
/// the staging, then for the privileged read, and stores what the helper
/// hands over in the working copy.
pub proof fn lemma_hidden_file_reaches_storing(
    run: Run,
    owner: u32,
    mode: u32,
    content: Seq<u8>,
)
    requires
        run.start == (StageView::Classifying { probe: Probe::DirectMetadata }),
        !spec_is_directory_path(run.path),
        !(run.events[0] is Metadata),
        helper_outcome(run.events[1]) == HelperOutcome::Granted,
        helper_outcome(run.events[2]) == HelperOutcome::Granted,
        spec_file_metadata_with_doas(run.events[3]) == Ok::<(u32, u32), ErrorView>((owner, mode)),
        owner != run.uid,
        local_outcome(run.events[4]) is Ok,
        run.events[5] == (EventView::Exited { success: true, output: content }),
    ensures
        ({
            let info = info_of(
                FileMetadata { is_dir: false, uid: owner, mode },
                run.uid,
                Channel::Privileged,
            );
            &&& run.stage_at(4) == (StageView::Staging { info })
            &&& run.stage_at(5) == (StageView::Loading { info })
            &&& spec_action(run.stage_at(5)) == Action::ReadPrivileged
            &&& run.stage_at(6) == (StageView::Storing { info, content })
        }),
{
    assert(run.stage_at(0) == run.start);
    assert(run.stage_at(1) == (StageView::Classifying { probe: Probe::PrivilegedExists }));
    assert(run.stage_at(2) == (StageView::Classifying { probe: Probe::PrivilegedIsFile }));
    assert(run.stage_at(3) == (StageView::Classifying { probe: Probe::PrivilegedMetadata }));
    let info = info_of(
        FileMetadata { is_dir: false, uid: owner, mode },
        run.uid,
        Channel::Privileged,
    );
    assert(spec_policy_error(run.path, info) is None);
    assert(run.stage_at(4) == (StageView::Staging { info }));
    assert(run.stage_at(5) == (StageView::Loading { info }));
    assert(run.stage_at(6) == (StageView::Storing { info, content }));
}

} // verus!
