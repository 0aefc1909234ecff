//! What holds of a session and its recorders over whole runs.
//!
//! A run is modelled by the reports that the tracker makes, one per tracked
//! frame; the laws are stated over the views that the contracts of the
//! session and of the recorders use.

use vstd::prelude::*;
use crate::camera_path::CameraPathView;
use crate::display::{expand_gray, highlight};
use crate::frames::AssociationView;
use crate::session::{HypothesisView, SessionView, WasmTracker};
use crate::tracker::{CameraProfile, TrackerReportView};

verus! {

/// One tracked frame: what the tracker reported, and whether it started a
/// new keyframe.
pub ghost struct Step {
    pub change_keyframe: bool,
    pub report: TrackerReportView,
}

/// The session after it tracked `steps`, one call of `track` per step.
pub open spec fn track_all(session: SessionView, steps: Seq<Step>) -> SessionView
    decreases steps.len(),
{
    if steps.len() == 0 {
        session
    } else {
        track_all(session, steps.drop_last()).track(steps.last().change_keyframe, steps.last().report)
    }
}

/// The camera path after it ticked once after each step of `steps`.
pub open spec fn tick_all(path: CameraPathView, steps: Seq<Step>) -> CameraPathView
    decreases steps.len(),
{
    if steps.len() == 0 {
        path
    } else {
        tick_all(path, steps.drop_last()).tick(
            steps.last().report.frame.pose.translation,
            steps.last().change_keyframe,
        )
    }
}

/// Tracking only appends: after `steps` the pose history is longer by the
/// number of steps, and the histories that the session had are a prefix of
/// the histories that it has.
pub proof fn lemma_track_all_appends(session: SessionView, steps: Seq<Step>)
    ensures
        track_all(session, steps).poses_history.len() == session.poses_history.len() + steps.len(),
        track_all(session, steps).poses_history.take(session.poses_history.len() as int)
            == session.poses_history,
        track_all(session, steps).keyframes.len() >= session.keyframes.len(),
        track_all(session, steps).keyframes.take(session.keyframes.len() as int) == session.keyframes,
        track_all(session, steps).keyframes_candidates.len() >= session.keyframes_candidates.len(),
        track_all(session, steps).keyframes_candidates.take(session.keyframes_candidates.len() as int)
            == session.keyframes_candidates,
    decreases steps.len(),
{
    if steps.len() == 0 {
        assert(session.poses_history.take(session.poses_history.len() as int) =~= session.poses_history);
        assert(session.keyframes.take(session.keyframes.len() as int) =~= session.keyframes);
        assert(session.keyframes_candidates.take(session.keyframes_candidates.len() as int)
            =~= session.keyframes_candidates);
    } else {
        lemma_track_all_appends(session, steps.drop_last());
        let before = track_all(session, steps.drop_last());
        let after = track_all(session, steps);
        assert(after.poses_history.take(session.poses_history.len() as int) =~= before.poses_history.take(
            session.poses_history.len() as int,
        ));
        assert(after.keyframes.take(session.keyframes.len() as int) =~= before.keyframes.take(
            session.keyframes.len() as int,
        ));
        assert(after.keyframes_candidates.take(session.keyframes_candidates.len() as int)
            =~= before.keyframes_candidates.take(session.keyframes_candidates.len() as int));
    }
}

/// The histories that tracking builds depend on the histories it starts
/// from and on the steps, and on nothing else of the session.
pub proof fn lemma_track_all_histories(a: SessionView, b: SessionView, steps: Seq<Step>)
    requires
        a.poses_history == b.poses_history,
        a.keyframes == b.keyframes,
        a.keyframes_candidates == b.keyframes_candidates,
    ensures
        track_all(a, steps).poses_history == track_all(b, steps).poses_history,
        track_all(a, steps).keyframes == track_all(b, steps).keyframes,
        track_all(a, steps).keyframes_candidates == track_all(b, steps).keyframes_candidates,
    decreases steps.len(),
{
    if steps.len() > 0 {
        lemma_track_all_histories(a, b, steps.drop_last());
    }
}

/// Tracking keeps the session's invariant; in particular the session goes on
/// holding as many candidate sets as keyframes.
pub proof fn law_tracking_keeps_invariant(session: SessionView, steps: Seq<Step>)
    requires
        session.wf(),
        session.tracker is Some,
    ensures
        track_all(session, steps).wf(),
        track_all(session, steps).tracker is Some,
    decreases steps.len(),
{
    if steps.len() > 0 {
        law_tracking_keeps_invariant(session, steps.drop_last());
    }
}

/// After initialization and any number of tracked frames, the pose history
/// holds one pose more than frames were tracked: the pose of frame 0 and one
/// per call of `track`.
pub proof fn law_pose_history_length(
    session: SessionView,
    camera: CameraProfile,
    associations: Seq<AssociationView>,
    report: TrackerReportView,
    steps: Seq<Step>,
)
    ensures
        track_all(session.init(camera, associations, report), steps).poses_history.len() == 1
            + steps.len(),
{
    lemma_track_all_appends(session.init(camera, associations, report), steps);
}

/// A session always holds as many candidate sets as keyframes.
pub proof fn law_keyframes_have_candidates(session: &WasmTracker)
    requires
        session.wf(),
    ensures
        session@.keyframes.len() == session@.keyframes_candidates.len(),
{
    session.lemma_wf_view();
}

/// The keyframe offsets of a camera path are strictly increasing.
pub proof fn law_keyframe_offsets_increase(path: CameraPathView, i: int, j: int)
    requires
        path.wf(),
        0 <= i < j < path.indices_kf.len(),
    ensures
        path.indices_kf[i] < path.indices_kf[j],
{
}

/// Ticking once after each call of `track` keeps the camera path's
/// invariant as long as there is room, and the path gains as many keyframe
/// offsets as the session gains keyframes.
pub proof fn lemma_tick_all(session: SessionView, path: CameraPathView, steps: Seq<Step>)
    requires
        path.wf(),
        path.end + 3 * steps.len() <= path.poses.len(),
    ensures
        tick_all(path, steps).wf(),
        tick_all(path, steps).end == path.end + 3 * steps.len(),
        tick_all(path, steps).poses.len() == path.poses.len(),
        tick_all(path, steps).indices_kf.len() - path.indices_kf.len() == track_all(
            session,
            steps,
        ).keyframes.len() - session.keyframes.len(),
    decreases steps.len(),
{
    if steps.len() > 0 {
        lemma_tick_all(session, path, steps.drop_last());
        let before = tick_all(path, steps.drop_last());
        let after = tick_all(path, steps);
        assert forall|i: int, j: int| 0 <= i < j < after.indices_kf.len() implies (#[trigger] after.indices_kf[i])
            < (#[trigger] after.indices_kf[j]) by {
            if j < before.indices_kf.len() {
                assert(before.indices_kf[i] < before.indices_kf[j]);
            } else {
                assert(before.indices_kf[i] < before.end);
            }
        }
    }
}

/// Whether the camera path holds one keyframe offset less than the session
/// holds keyframes: the first keyframe began at offset 0 and is not
/// recorded.
pub open spec fn offsets_follow_keyframes(session: SessionView, path: CameraPathView) -> bool {
    path.indices_kf.len() == session.keyframes.len() - 1
}

/// A path without keyframe offsets follows a session that was just
/// initialized.
pub proof fn law_keyframe_offsets_after_init(
    session: SessionView,
    camera: CameraProfile,
    associations: Seq<AssociationView>,
    report: TrackerReportView,
    path: CameraPathView,
)
    requires
        path.indices_kf.len() == 0,
    ensures
        offsets_follow_keyframes(session.init(camera, associations, report), path),
{
}

/// A path that follows the session still follows it, and keeps its
/// invariant, after any number of tracked frames with one tick of the path
/// after each call of `track`.
pub proof fn law_keyframe_offsets_after_tracking(session: SessionView, path: CameraPathView, steps: Seq<Step>)
    requires
        path.wf(),
        path.end + 3 * steps.len() <= path.poses.len(),
        offsets_follow_keyframes(session, path),
    ensures
        tick_all(path, steps).wf(),
        offsets_follow_keyframes(track_all(session, steps), tick_all(path, steps)),
{
    lemma_tick_all(session, path, steps);
}

/// A path rewound to where keyframe `kf_id` began follows a session that
/// was rewound to keep that keyframe's predecessors and the keyframe that
/// the rebuilt tracker starts with: `kf_id + 1` keyframes.
pub proof fn law_keyframe_offsets_after_rewind(
    session: SessionView,
    path: CameraPathView,
    kf_id: int,
    base_frame_id: int,
    last_tracked_frame_id: int,
    report: TrackerReportView,
)
    requires
        path.wf(),
        0 <= kf_id < path.indices_kf.len(),
        kf_id + 1 <= session.keyframes.len(),
    ensures
        path.reset_kf(kf_id).wf(),
        offsets_follow_keyframes(
            session.reset_at(base_frame_id, last_tracked_frame_id, kf_id + 1, report),
            path.reset_kf(kf_id),
        ),
{
    let after = path.reset_kf(kf_id);
    assert forall|i: int| 0 <= i < after.indices_kf.len() implies (#[trigger] after.indices_kf[i]) % 3 == 0
        && after.indices_kf[i] < after.end by {
        assert(path.indices_kf[i] < path.indices_kf[kf_id]);
    }
    assert forall|i: int, j: int| 0 <= i < j < after.indices_kf.len() implies (#[trigger] after.indices_kf[i])
        < (#[trigger] after.indices_kf[j]) by {
        assert(path.indices_kf[i] < path.indices_kf[j]);
    }
}

/// Rewind and replay: a session that stands at frame `base_frame_id` with
/// `keyframe_id` keyframes tracks `steps`, is rewound to where it stood, and
/// tracks the same steps again. It then holds the histories that it held
/// before the rewind; in particular the pose history has the same length
/// and there are as many keyframes.
pub proof fn law_rewind_replay(
    session: SessionView,
    base_frame_id: int,
    keyframe_id: int,
    steps: Seq<Step>,
    report: TrackerReportView,
)
    requires
        session.wf(),
        session.tracker is Some,
        session.poses_history.len() == base_frame_id + 1,
        session.keyframes.len() == keyframe_id,
    ensures
        ({
            let first_run = track_all(session, steps);
            let rewound = first_run.reset_at(base_frame_id, base_frame_id, keyframe_id, report);
            let replayed = track_all(rewound, steps);
            &&& rewound.poses_history == session.poses_history
            &&& rewound.keyframes == session.keyframes
            &&& rewound.keyframes_candidates == session.keyframes_candidates
            &&& replayed.poses_history == first_run.poses_history
            &&& replayed.poses_history.len() == base_frame_id + steps.len() + 1
            &&& replayed.keyframes == first_run.keyframes
            &&& replayed.keyframes_candidates == first_run.keyframes_candidates
        }),
{
    let first_run = track_all(session, steps);
    let rewound = first_run.reset_at(base_frame_id, base_frame_id, keyframe_id, report);
    lemma_track_all_appends(session, steps);
    lemma_track_all_histories(rewound, session, steps);
}

/// Showing the same keyframe in the current display buffer twice leaves the
/// buffer as showing it once does.
pub proof fn law_pick_current_idempotent(session: SessionView, index: int)
    ensures
        session.pick_current_kf_data(index).pick_current_kf_data(index) == session.pick_current_kf_data(
            index,
        ),
{
    let pixels = session.keyframes[index].pixels;
    let once = expand_gray(session.current_keyframe_data, pixels);
    assert(expand_gray(once, pixels) =~= once);
}

/// Showing the same keyframe in the reference display buffer twice leaves
/// the buffer as showing it once does.
pub proof fn law_pick_reference_idempotent(session: SessionView, index: int)
    ensures
        session.pick_reference_kf_data(index).pick_reference_kf_data(index)
            == session.pick_reference_kf_data(index),
{
    let pixels = session.keyframes[index].pixels;
    let width = session.keyframes[index].width;
    let candidates = session.keyframes_candidates[index];
    let once = highlight(expand_gray(session.reference_keyframe_data, pixels), width, candidates);
    assert(highlight(expand_gray(once, pixels), width, candidates) =~= once);
}

/// After a rewind the session holds exactly the asked number of keyframes
/// and as many candidate sets, and it keeps its invariant.
pub proof fn law_rewind_keeps_lockstep(
    session: SessionView,
    base_frame_id: int,
    last_tracked_frame_id: int,
    keyframe_id: int,
    report: TrackerReportView,
)
    requires
        session.wf(),
        session.tracker is Some,
        0 <= keyframe_id <= session.keyframes.len(),
        0 <= last_tracked_frame_id < session.poses_history.len(),
    ensures
        ({
            let rewound = session.reset_at(base_frame_id, last_tracked_frame_id, keyframe_id, report);
            &&& rewound.wf()
            &&& rewound.keyframes.len() == keyframe_id
            &&& rewound.keyframes_candidates.len() == keyframe_id
            &&& rewound.poses_history.len() == last_tracked_frame_id + 1
        }),
{
}

/// After a relocalization that proposed `n` hypotheses the session holds
/// `n + 1` pending poses: first the pose of the last tracked frame, then
/// the poses of the hypotheses in their order.
pub proof fn law_pending_poses(session: SessionView, last_tracked_frame_id: int, hypotheses: Seq<HypothesisView>)
    ensures
        ({
            let pending = session.p3p_visualize(last_tracked_frame_id, hypotheses).p3p_poses;
            &&& pending.len() == hypotheses.len() + 1
            &&& pending[0] == session.poses_history[last_tracked_frame_id]
            &&& forall|i: int| 0 <= i < hypotheses.len() ==> pending[i + 1] == (#[trigger] hypotheses[i]).pose
        }),
{
}

} // verus!
