//! What a restore does to the files it touches: a model of the three files,
//! of the runs a restore can take, and the guarantees every run gives.

use vstd::prelude::*;
use crate::host::Reply;
use crate::restore::{
    answers, outcome_result, pending, restore_next, RestoreAction, RestoreOutcome, RestoreState,
};
use crate::service::CloudService;

verus! {

/// The files a restore reads and writes, each with its bytes if it exists.
pub struct Files {
    /// The snapshot in the backup folder.
    pub snapshot: Option<Seq<u8>>,
    /// The live data file.
    pub live: Option<Seq<u8>>,
    /// The copy of the live data file taken before it is overwritten.
    pub checkpoint: Option<Seq<u8>>,
}

/// Whether `after` can be what the files are once `action` was carried out on
/// `before` and reported as `reply`. A probe changes nothing and tells the
/// truth. Work that succeeded did what it is for. Work that failed may have
/// left its target in any state and touched nothing else.
pub open spec fn may_follow(
    action: RestoreAction,
    reply: Reply<Seq<char>>,
    before: Files,
    after: Files,
) -> bool {
    match (action, reply) {
        (RestoreAction::ProbeSnapshot, Reply::Probed(found)) => after == before && found
            == before.snapshot.is_some(),
        (RestoreAction::ProbeLive, Reply::Probed(found)) => after == before && found
            == before.live.is_some(),
        (RestoreAction::Download, Reply::Finished(r)) => {
            &&& after.live == before.live
            &&& after.checkpoint == before.checkpoint
            &&& r is Ok ==> after.snapshot is Some
        },
        (RestoreAction::WriteCheckpoint, Reply::Finished(r)) => {
            &&& after.live == before.live
            &&& after.snapshot == before.snapshot
            &&& r is Ok ==> before.live is Some && after.checkpoint == before.live
        },
        (RestoreAction::Apply, Reply::Finished(r)) => {
            &&& after.snapshot == before.snapshot
            &&& after.checkpoint == before.checkpoint
            &&& r is Ok ==> before.snapshot is Some && after.live == before.snapshot
        },
        (RestoreAction::RollBack, Reply::Finished(r)) => {
            &&& after.snapshot == before.snapshot
            &&& after.checkpoint == before.checkpoint
            &&& r is Ok ==> before.checkpoint is Some && after.live == before.checkpoint
        },
        (RestoreAction::RemoveCheckpoint, Reply::Finished(r)) => {
            &&& after.snapshot == before.snapshot
            &&& after.live == before.live
            &&& after.checkpoint == if r is Ok {
                None
            } else {
                before.checkpoint
            }
        },
        _ => false,
    }
}

/// One step of a run: what the caller reported and the files as they were then.
pub struct Moment {
    pub reply: Reply<Seq<char>>,
    pub files: Files,
}

/// Whether `steps` is a run of a restore from `state` on `files`: each reply
/// answers the action pending at its turn, and the files change as that action
/// may change them.
pub open spec fn is_run(state: RestoreState<Seq<char>>, files: Files, steps: Seq<Moment>) -> bool
    decreases steps.len(),
{
    if steps.len() == 0 {
        true
    } else {
        &&& answers(pending(state), steps[0].reply)
        &&& may_follow(pending(state), steps[0].reply, files, steps[0].files)
        &&& is_run(restore_next(state, steps[0].reply), steps[0].files, steps.skip(1))
    }
}

/// The state a run ends in.
pub open spec fn run_end(
    state: RestoreState<Seq<char>>,
    steps: Seq<Moment>,
) -> RestoreState<Seq<char>>
    decreases steps.len(),
{
    if steps.len() == 0 {
        state
    } else {
        run_end(restore_next(state, steps[0].reply), steps.skip(1))
    }
}

/// The files at the end of a run.
pub open spec fn run_files(files: Files, steps: Seq<Moment>) -> Files {
    if steps.len() == 0 {
        files
    } else {
        steps.last().files
    }
}

/// Whether a run removed the checkpoint in its last step.
pub open spec fn checkpoint_removed(steps: Seq<Moment>) -> bool {
    steps.len() > 0 && steps.last().reply == Reply::<Seq<char>>::Finished(Ok(()))
}

/// What holds of the files in every state a restore can reach from files whose
/// live data was `old`: the old data is in the live data file or in the
/// checkpoint until the snapshot is in place.
pub open spec fn data_is_safe(
    state: RestoreState<Seq<char>>,
    old: Option<Seq<u8>>,
    now: Files,
) -> bool {
    match state {
        RestoreState::Locating(_) => now.live == old,
        RestoreState::Downloading => now.live == old,
        RestoreState::Verifying => now.live == old,
        RestoreState::CheckingLive => now.live == old && now.snapshot is Some,
        RestoreState::Checkpointing => now.live == old && now.snapshot is Some && old is Some,
        RestoreState::Applying(checkpointed) => {
            &&& now.live == old
            &&& now.snapshot is Some
            &&& if checkpointed {
                old is Some && now.checkpoint == old
            } else {
                old is None
            }
        },
        RestoreState::Committing => now.live == now.snapshot && now.live is Some,
        RestoreState::RollingBack(_) => old is Some && now.checkpoint == old,
        RestoreState::Discarding(_) => old is Some && now.live == old,
        RestoreState::Done(outcome) => match outcome {
            RestoreOutcome::Restored => now.live == now.snapshot && now.live is Some,
            RestoreOutcome::SnapshotMissing => now.live == old,
            RestoreOutcome::DownloadFailed(_) => now.live == old,
            RestoreOutcome::CheckpointFailed(_) => now.live == old,
            RestoreOutcome::ApplyFailed(_) => old is Some ==> now.live == old,
            RestoreOutcome::RollbackFailed(_, _) => old is Some && now.checkpoint == old,
        },
    }
}

/// A run that starts in a safe state ends in one.
pub proof fn lemma_run_keeps_data_safe(
    state: RestoreState<Seq<char>>,
    old: Option<Seq<u8>>,
    files: Files,
    steps: Seq<Moment>,
)
    requires
        is_run(state, files, steps),
        data_is_safe(state, old, files),
    ensures
        data_is_safe(run_end(state, steps), old, run_files(files, steps)),
    decreases steps.len(),
{
    if steps.len() > 0 {
        let next = restore_next(state, steps[0].reply);
        let rest = steps.skip(1);
        lemma_run_keeps_data_safe(next, old, steps[0].files, rest);
        if rest.len() > 0 {
            assert(rest.last() == steps.last());
        }
    }
}

/// When a restore reports success, the live data file holds the bytes of the
/// snapshot.
pub proof fn lemma_restore_success(service: CloudService, files: Files, steps: Seq<Moment>)
    requires
        is_run(RestoreState::Locating(service), files, steps),
        run_end(RestoreState::Locating(service), steps) == RestoreState::<Seq<char>>::Done(
            RestoreOutcome::Restored,
        ),
    ensures
        run_files(files, steps).live is Some,
        run_files(files, steps).live == run_files(files, steps).snapshot,
{
    lemma_run_keeps_data_safe(RestoreState::Locating(service), files.live, files, steps);
}

/// When a restore fails for any reason but a failed rollback, the live data
/// file that was there before is there afterwards, byte for byte, and the
/// caller is told of the failure.
pub proof fn lemma_restore_rollback(service: CloudService, files: Files, steps: Seq<Moment>)
    requires
        is_run(RestoreState::Locating(service), files, steps),
        files.live is Some,
        run_end(RestoreState::Locating(service), steps) matches RestoreState::Done(outcome)
            && !(outcome is Restored) && !(outcome is RollbackFailed),
    ensures
        run_files(files, steps).live == files.live,
        outcome_result(run_end(RestoreState::Locating(service), steps)->Done_0) is Err,
{
    lemma_run_keeps_data_safe(RestoreState::Locating(service), files.live, files, steps);
}

/// When putting the old data back fails as well, the old data is still in
/// the checkpoint, which is left in place.
pub proof fn lemma_failed_rollback_keeps_checkpoint(
    service: CloudService,
    files: Files,
    steps: Seq<Moment>,
)
    requires
        is_run(RestoreState::Locating(service), files, steps),
        run_end(RestoreState::Locating(service), steps) matches RestoreState::Done(outcome)
            && outcome is RollbackFailed,
    ensures
        files.live is Some,
        run_files(files, steps).checkpoint == files.live,
{
    lemma_run_keeps_data_safe(RestoreState::Locating(service), files.live, files, steps);
}

/// The data that was there before a restore is never lost: at every point of
/// every run it is in the live data file or in the checkpoint, unless the
/// snapshot has taken its place.
pub proof fn lemma_old_data_survives(service: CloudService, files: Files, steps: Seq<Moment>)
    requires
        is_run(RestoreState::Locating(service), files, steps),
        files.live is Some,
    ensures
        ({
            let end = run_end(RestoreState::Locating(service), steps);
            let now = run_files(files, steps);
            ||| now.live == files.live
            ||| now.checkpoint == files.live
            ||| (now.live == now.snapshot && (end is Committing || end
                == RestoreState::<Seq<char>>::Done(RestoreOutcome::Restored)))
        }),
{
    lemma_run_keeps_data_safe(RestoreState::Locating(service), files.live, files, steps);
}

/// What the last reply of a run that reached `end` from `state` was, given
/// the run is not empty and `end` is over.
proof fn lemma_last_step(state: RestoreState<Seq<char>>, files: Files, steps: Seq<Moment>)
    requires
        is_run(state, files, steps),
        steps.len() > 0,
        !(state is Done),
        run_end(state, steps) == RestoreState::<Seq<char>>::Done(RestoreOutcome::Restored),
    ensures
        exists|before: Files|
            may_follow(
                RestoreAction::RemoveCheckpoint,
                steps.last().reply,
                before,
                #[trigger] run_files(before, steps),
            ),
    decreases steps.len(),
{
    let next = restore_next(state, steps[0].reply);
    let rest = steps.skip(1);
    if rest.len() == 0 {
        assert(steps.last() == steps[0]);
        assert(run_end(next, rest) == next);
        assert(state is Committing);
        assert(run_files(files, steps) == steps.last().files);
        assert(may_follow(
            RestoreAction::RemoveCheckpoint,
            steps.last().reply,
            files,
            run_files(files, steps),
        ));
    } else {
        assert(rest.last() == steps.last());
        assert(!(next is Done)) by {
            if next is Done {
                lemma_done_stays(next, rest);
                assert(is_run(next, steps[0].files, rest));
                assert(answers(pending(next), rest[0].reply));
            }
        }
        lemma_last_step(next, steps[0].files, rest);
        let before = choose|before: Files|
            may_follow(
                RestoreAction::RemoveCheckpoint,
                rest.last().reply,
                before,
                #[trigger] run_files(before, rest),
            );
        assert(run_files(before, rest) == run_files(before, steps));
    }
}

/// No run leads out of a state that is over: no reply answers it.
pub proof fn lemma_done_stays(state: RestoreState<Seq<char>>, steps: Seq<Moment>)
    requires
        state is Done,
    ensures
        run_end(state, steps) == state,
        steps.len() > 0 ==> !answers(pending(state), steps[0].reply),
    decreases steps.len(),
{
    if steps.len() > 0 {
        lemma_done_stays(state, steps.skip(1));
    }
}

/// What holds in every state of a restore that began without a live data
/// file and without a checkpoint: none is made, for there is nothing to copy
/// aside.
pub open spec fn nothing_is_aside(state: RestoreState<Seq<char>>, now: Files) -> bool {
    match state {
        RestoreState::Locating(_) => now.live is None && now.checkpoint is None,
        RestoreState::Downloading => now.live is None && now.checkpoint is None,
        RestoreState::Verifying => now.live is None && now.checkpoint is None,
        RestoreState::CheckingLive => now.live is None && now.checkpoint is None,
        RestoreState::Applying(checkpointed) => !checkpointed && now.checkpoint is None,
        RestoreState::Committing => now.checkpoint is None,
        RestoreState::Done(_) => now.checkpoint is None,
        _ => false,
    }
}

/// A run keeps what `nothing_is_aside` says.
pub proof fn lemma_run_leaves_nothing_aside(
    state: RestoreState<Seq<char>>,
    files: Files,
    steps: Seq<Moment>,
)
    requires
        is_run(state, files, steps),
        nothing_is_aside(state, files),
    ensures
        nothing_is_aside(run_end(state, steps), run_files(files, steps)),
    decreases steps.len(),
{
    if steps.len() > 0 {
        let rest = steps.skip(1);
        lemma_run_leaves_nothing_aside(restore_next(state, steps[0].reply), steps[0].files, rest);
        if rest.len() > 0 {
            assert(rest.last() == steps.last());
        }
    }
}

/// When a restore reports success, no checkpoint remains, provided that
/// deleting the checkpoint did not fail or that there was nothing to copy
/// aside: no live data file and no checkpoint before.
pub proof fn lemma_no_checkpoint_remains(service: CloudService, files: Files, steps: Seq<Moment>)
    requires
        is_run(RestoreState::Locating(service), files, steps),
        run_end(RestoreState::Locating(service), steps) == RestoreState::<Seq<char>>::Done(
            RestoreOutcome::Restored,
        ),
        checkpoint_removed(steps) || (files.live is None && files.checkpoint is None),
    ensures
        run_files(files, steps).checkpoint is None,
{
    if checkpoint_removed(steps) {
        lemma_last_step(RestoreState::Locating(service), files, steps);
    } else {
        lemma_run_leaves_nothing_aside(RestoreState::Locating(service), files, steps);
    }
}

/// The number of reports a restore can still take in a state, at most.
pub open spec fn steps_left(state: RestoreState<Seq<char>>) -> nat {
    match state {
        RestoreState::Locating(_) => 8,
        RestoreState::Downloading => 7,
        RestoreState::Verifying => 6,
        RestoreState::CheckingLive => 5,
        RestoreState::Checkpointing => 4,
        RestoreState::Applying(_) => 3,
        RestoreState::RollingBack(_) => 2,
        RestoreState::Committing => 1,
        RestoreState::Discarding(_) => 1,
        RestoreState::Done(_) => 0,
    }
}

/// A restore ends: every report that answers the pending action brings it
/// closer to its end, so no run is longer than eight reports, and a run that
/// cannot be continued has ended.
pub proof fn lemma_restore_ends(state: RestoreState<Seq<char>>, files: Files, steps: Seq<Moment>)
    requires
        is_run(state, files, steps),
    ensures
        steps.len() + steps_left(run_end(state, steps)) <= steps_left(state),
        steps_left(run_end(state, steps)) == 0 <==> run_end(state, steps) is Done,
    decreases steps.len(),
{
    if steps.len() > 0 {
        lemma_restore_ends(restore_next(state, steps[0].reply), steps[0].files, steps.skip(1));
    }
}

} // verus!
