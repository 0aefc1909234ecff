//! The tracking session: the archive it reads from, the tracker it drives and
//! the histories that let it rewind.

use vstd::prelude::*;
use crate::archive::{index_archive, insert_all, tar_listing, EntriesMap, FileEntry};
use crate::display::{
    duplicate_candidates, expand_gray, highlight, highlight_candidates, overlay_fits, overlay_fits_in,
    update_kf_data, GrayImage, GrayImageView,
};
use crate::error::SessionError;
use crate::frames::{image_pair_of, read_image_pair, Association, AssociationView, DepthMap};
use crate::geometry::{Frame, Point3, Pose};
use crate::point_cloud::{PointCloud, PointCloudView};
use crate::tracker::{
    camera_profile, create_camera, session_config, CameraProfile, Config, Tracker, TrackerReport,
    TrackerReportView, TrackerView, CANDIDATES_DIFF_THRESHOLD, NB_LEVELS,
};

verus! {

/// Size in bytes of the two display buffers: 320 by 240 pixels, four
/// channels each.
pub const DISPLAY_BYTES: usize = 307200;

/// One pose that relocalization proposes, with the point cloud that the
/// tracker reconstructs under it.
pub struct Hypothesis {
    pub pose: Pose,
    pub points_3d: Vec<Point3>,
}

/// The mathematical content of a [`Hypothesis`].
pub ghost struct HypothesisView {
    pub pose: Pose,
    pub points_3d: Seq<Point3>,
}

impl View for Hypothesis {
    type V = HypothesisView;

    open spec fn view(&self) -> HypothesisView {
        HypothesisView { pose: self.pose, points_3d: self.points_3d@ }
    }
}

/// The hypotheses of a list, each by its view.
pub open spec fn hypothesis_views(hypotheses: Seq<Hypothesis>) -> Seq<HypothesisView> {
    hypotheses.map_values(|h: Hypothesis| h@)
}

/// The poses of a list of hypotheses, in order.
pub open spec fn hypothesis_poses(hypotheses: Seq<HypothesisView>) -> Seq<Pose> {
    hypotheses.map_values(|h: HypothesisView| h.pose)
}

/// The number of points that a list of hypotheses holds in all.
pub open spec fn total_points(hypotheses: Seq<HypothesisView>) -> nat
    decreases hypotheses.len(),
{
    if hypotheses.len() == 0 {
        0
    } else {
        total_points(hypotheses.drop_last()) + hypotheses.last().points_3d.len()
    }
}

/// A point cloud after the points of each hypothesis were appended as a
/// section of its own, in order.
pub open spec fn push_sections(cloud: PointCloudView, hypotheses: Seq<HypothesisView>) -> PointCloudView
    decreases hypotheses.len(),
{
    if hypotheses.len() == 0 {
        cloud
    } else {
        push_sections(cloud, hypotheses.drop_last()).push_section(hypotheses.last().points_3d)
    }
}

/// The session. It is either uninitialized (no tracker) or tracking.
pub struct WasmTracker {
    tar_buffer: Vec<u8>,
    entries: EntriesMap,
    associations: Vec<Association>,
    tracker: Option<Tracker>,
    change_keyframe: bool,
    keyframes: Vec<GrayImage>,
    keyframes_candidates: Vec<Vec<(usize, usize)>>,
    current_keyframe_data: Vec<u8>,
    reference_keyframe_data: Vec<u8>,
    poses_history: Vec<Pose>,
    p3p_poses: Vec<Pose>,
}

/// The mathematical content of a [`WasmTracker`].
pub ghost struct SessionView {
    pub tar_buffer: Seq<u8>,
    pub entries: Map<Seq<char>, FileEntry>,
    pub associations: Seq<AssociationView>,
    pub tracker: Option<TrackerView>,
    /// Whether the last step of the tracker started a new keyframe.
    pub change_keyframe: bool,
    pub keyframes: Seq<GrayImageView>,
    pub keyframes_candidates: Seq<Seq<(usize, usize)>>,
    pub current_keyframe_data: Seq<u8>,
    pub reference_keyframe_data: Seq<u8>,
    pub poses_history: Seq<Pose>,
    pub p3p_poses: Seq<Pose>,
}

/// The associations of a table, each by its view.
pub open spec fn association_views(associations: Seq<Association>) -> Seq<AssociationView> {
    associations.map_values(|a: Association| a@)
}

impl SessionView {
    /// The invariant of the session: every keyframe has its candidate set,
    /// the display buffers keep their size, and without a tracker nothing
    /// was recorded.
    pub open spec fn wf(self) -> bool {
        &&& self.keyframes.len() == self.keyframes_candidates.len()
        &&& self.current_keyframe_data.len() == DISPLAY_BYTES
        &&& self.reference_keyframe_data.len() == DISPLAY_BYTES
        &&& self.tracker is None ==> {
            &&& self.keyframes.len() == 0
            &&& self.poses_history.len() == 0
            &&& self.p3p_poses.len() == 0
        }
        &&& self.tracker is Some ==> self.poses_history.len() > 0
    }

    /// The session after it was initialized: it tracks, and its histories
    /// hold the first keyframe, its candidates and the pose of frame 0.
    pub open spec fn init(
        self,
        camera: CameraProfile,
        associations: Seq<AssociationView>,
        report: TrackerReportView,
    ) -> SessionView {
        SessionView {
            associations,
            tracker: Some(TrackerView { config: session_config(camera), state: report }),
            change_keyframe: true,
            keyframes: seq![report.keyframe_img],
            keyframes_candidates: seq![report.keyframe_candidates],
            current_keyframe_data: expand_gray(self.current_keyframe_data, report.keyframe_img.pixels),
            poses_history: seq![report.frame.pose],
            p3p_poses: Seq::empty(),
            ..self
        }
    }

    /// The session after the tracker tracked one more frame.
    pub open spec fn track(self, change_keyframe: bool, report: TrackerReportView) -> SessionView {
        SessionView {
            tracker: Some(TrackerView { config: self.tracker->Some_0.config, state: report }),
            change_keyframe,
            keyframes: if change_keyframe {
                self.keyframes.push(report.keyframe_img)
            } else {
                self.keyframes
            },
            keyframes_candidates: if change_keyframe {
                self.keyframes_candidates.push(report.keyframe_candidates)
            } else {
                self.keyframes_candidates
            },
            poses_history: self.poses_history.push(report.frame.pose),
            ..self
        }
    }

    /// What the session records of a tracker that was rebuilt and whose pose
    /// was then set to `pose`.
    pub open spec fn rebuilt(self, report: TrackerReportView, pose: Pose) -> TrackerView {
        TrackerView {
            config: self.tracker->Some_0.config,
            state: TrackerReportView {
                frame: Frame { timestamp: report.frame.timestamp, pose },
                ..report
            },
        }
    }

    /// The session after a rewind: the tracker was rebuilt at the pose
    /// `pose`, `keyframe_id` keyframes and the poses of frames
    /// `0..=last_tracked_frame_id` are kept.
    pub open spec fn rewind(
        self,
        last_tracked_frame_id: int,
        keyframe_id: int,
        report: TrackerReportView,
        pose: Pose,
    ) -> SessionView {
        SessionView {
            tracker: Some(self.rebuilt(report, pose)),
            change_keyframe: true,
            keyframes: self.keyframes.take(keyframe_id),
            keyframes_candidates: self.keyframes_candidates.take(keyframe_id),
            current_keyframe_data: expand_gray(self.current_keyframe_data, report.keyframe_img.pixels),
            poses_history: self.poses_history.take(last_tracked_frame_id + 1),
            ..self
        }
    }

    /// The session after a rewind to the historical pose of `base_frame_id`.
    pub open spec fn reset_at(
        self,
        base_frame_id: int,
        last_tracked_frame_id: int,
        keyframe_id: int,
        report: TrackerReportView,
    ) -> SessionView {
        self.rewind(last_tracked_frame_id, keyframe_id, report, self.poses_history[base_frame_id])
    }

    /// The session after the hypothesis `id` was committed: the last keyframe
    /// and the last pose are dropped, and the tracker restarts at the pose of
    /// the hypothesis.
    pub open spec fn choose_p3p_initial(self, id: int, report: TrackerReportView) -> SessionView {
        self.rewind(self.poses_history.len() - 2, self.keyframes.len() - 1, report, self.p3p_poses[id])
    }

    /// The session after keyframe `index` was shown in the current display
    /// buffer.
    pub open spec fn pick_current_kf_data(self, index: int) -> SessionView {
        SessionView {
            current_keyframe_data: expand_gray(self.current_keyframe_data, self.keyframes[index].pixels),
            ..self
        }
    }

    /// The session after keyframe `index` was shown in the reference display
    /// buffer, its candidates highlighted.
    pub open spec fn pick_reference_kf_data(self, index: int) -> SessionView {
        SessionView {
            reference_keyframe_data: highlight(
                expand_gray(self.reference_keyframe_data, self.keyframes[index].pixels),
                self.keyframes[index].width,
                self.keyframes_candidates[index],
            ),
            ..self
        }
    }

    /// The session after relocalization proposed `hypotheses`: the pending
    /// poses are the pose of `last_tracked_frame_id`, which stands for "no
    /// change", followed by the poses of the hypotheses in order.
    pub open spec fn p3p_visualize(self, last_tracked_frame_id: int, hypotheses: Seq<HypothesisView>) -> SessionView {
        SessionView {
            p3p_poses: seq![self.poses_history[last_tracked_frame_id]] + hypothesis_poses(hypotheses),
            ..self
        }
    }
}

/// The images of a list, each by its view.
pub open spec fn gray_views(images: Seq<GrayImage>) -> Seq<GrayImageView> {
    images.map_values(|image: GrayImage| image@)
}

/// The candidate sets of a list, each by its view.
pub open spec fn candidate_views(sets: Seq<Vec<(usize, usize)>>) -> Seq<Seq<(usize, usize)>> {
    sets.map_values(|set: Vec<(usize, usize)>| set@)
}

impl View for WasmTracker {
    type V = SessionView;

    closed spec fn view(&self) -> SessionView {
        SessionView {
            tar_buffer: self.tar_buffer@,
            entries: self.entries@,
            associations: association_views(self.associations@),
            tracker: match self.tracker {
                Some(tracker) => Some(tracker@),
                None => None,
            },
            change_keyframe: self.change_keyframe,
            keyframes: gray_views(self.keyframes@),
            keyframes_candidates: candidate_views(self.keyframes_candidates@),
            current_keyframe_data: self.current_keyframe_data@,
            reference_keyframe_data: self.reference_keyframe_data@,
            poses_history: self.poses_history@,
            p3p_poses: self.p3p_poses@,
        }
    }
}

impl WasmTracker {
    /// The invariant of the session.
    pub closed spec fn wf(&self) -> bool {
        self.entries.wf() && self@.wf()
    }

    /// What the invariant says of the session's content.
    pub proof fn lemma_wf_view(&self)
        requires
            self.wf(),
        ensures
            self@.wf(),
    {
    }

    /// An uninitialized session with an empty archive buffer and blank
    /// display buffers.
    pub fn new() -> (session: WasmTracker)
        ensures
            session.wf(),
            session@.wf(),
            session@ == (SessionView {
                tar_buffer: Seq::empty(),
                entries: Map::empty(),
                associations: Seq::empty(),
                tracker: None,
                change_keyframe: false,
                keyframes: Seq::empty(),
                keyframes_candidates: Seq::empty(),
                current_keyframe_data: Seq::new(DISPLAY_BYTES as nat, |i: int| 0u8),
                reference_keyframe_data: Seq::new(DISPLAY_BYTES as nat, |i: int| 0u8),
                poses_history: Seq::empty(),
                p3p_poses: Seq::empty(),
            }),
    {
        let session = WasmTracker {
            tar_buffer: Vec::new(),
            entries: EntriesMap::new(),
            associations: Vec::new(),
            tracker: None,
            change_keyframe: false,
            keyframes: Vec::new(),
            keyframes_candidates: Vec::new(),
            current_keyframe_data: vec![0u8; DISPLAY_BYTES],
            reference_keyframe_data: vec![0u8; DISPLAY_BYTES],
            poses_history: Vec::new(),
            p3p_poses: Vec::new(),
        };
        assert(session@.tar_buffer =~= Seq::empty());
        assert(session@.associations =~= Seq::empty());
        assert(session@.keyframes =~= Seq::empty());
        assert(session@.keyframes_candidates =~= Seq::empty());
        assert(session@.poses_history =~= Seq::empty());
        assert(session@.p3p_poses =~= Seq::empty());
        assert(session@.current_keyframe_data =~= Seq::new(DISPLAY_BYTES as nat, |i: int| 0u8));
        assert(session@.reference_keyframe_data =~= Seq::new(DISPLAY_BYTES as nat, |i: int| 0u8));
        session
    }

    /// Replaces the archive buffer by `length` zero bytes.
    pub fn allocate(&mut self, length: usize)
        requires
            old(self).wf(),
        ensures
            final(self).wf(),
            final(self)@ == (SessionView {
                tar_buffer: Seq::new(length as nat, |i: int| 0u8),
                ..old(self)@
            }),
    {
        self.tar_buffer = vec![0u8; length];
        assert(self.tar_buffer@ =~= Seq::new(length as nat, |i: int| 0u8));
    }

    /// Copies `bytes` into the archive buffer, starting at `offset`.
    pub fn write_memory(&mut self, offset: usize, bytes: &[u8])
        requires
            old(self).wf(),
            offset + bytes@.len() <= old(self)@.tar_buffer.len(),
        ensures
            final(self).wf(),
            final(self)@ == (SessionView {
                tar_buffer: old(self)@.tar_buffer.subrange(0, offset as int) + bytes@ + old(
                    self,
                )@.tar_buffer.subrange(offset + bytes@.len(), old(self)@.tar_buffer.len() as int),
                ..old(self)@
            }),
    {
        let ghost before = self.tar_buffer@;
        let n = bytes.len();
        let mut i: usize = 0;
        while i < n
            invariant
                0 <= i <= n,
                n == bytes@.len(),
                offset + n <= self.tar_buffer.len(),
                self.tar_buffer@.len() == before.len(),
                forall|k: int| 0 <= k < offset ==> self.tar_buffer@[k] == before[k],
                forall|k: int| 0 <= k < i ==> self.tar_buffer@[offset + k] == bytes@[k],
                forall|k: int| offset + i <= k < before.len() ==> self.tar_buffer@[k] == before[k],
                self.entries == old(self).entries,
                self.associations == old(self).associations,
                self.tracker == old(self).tracker,
                self.change_keyframe == old(self).change_keyframe,
                self.keyframes == old(self).keyframes,
                self.keyframes_candidates == old(self).keyframes_candidates,
                self.current_keyframe_data == old(self).current_keyframe_data,
                self.reference_keyframe_data == old(self).reference_keyframe_data,
                self.poses_history == old(self).poses_history,
                self.p3p_poses == old(self).p3p_poses,
            decreases n - i,
        {
            self.tar_buffer[offset + i] = bytes[i];
            i = i + 1;
        }
        assert(self.tar_buffer@ =~= before.subrange(0, offset as int) + bytes@ + before.subrange(
            offset + bytes@.len(),
            before.len() as int,
        ));
    }

    /// The archive buffer.
    pub fn memory_pos(&self) -> (memory: &Vec<u8>)
        ensures
            memory@ == self@.tar_buffer,
    {
        &self.tar_buffer
    }

    /// The display buffer of the reference keyframe.
    pub fn reference_keyframe_data(&self) -> (data: &Vec<u8>)
        ensures
            data@ == self@.reference_keyframe_data,
    {
        &self.reference_keyframe_data
    }

    /// The display buffer of the current keyframe.
    pub fn current_keyframe_data(&self) -> (data: &Vec<u8>)
        ensures
            data@ == self@.current_keyframe_data,
    {
        &self.current_keyframe_data
    }

    /// The index of the archive.
    pub fn entries(&self) -> (entries: &EntriesMap)
        requires
            self.wf(),
        ensures
            entries.wf(),
            entries@ == self@.entries,
    {
        &self.entries
    }

    /// Whether the last step of the tracker started a new keyframe.
    pub fn change_keyframe(&self) -> (changed: bool)
        ensures
            changed == self@.change_keyframe,
    {
        self.change_keyframe
    }

    /// The number of frames of the association table.
    pub fn nb_frames(&self) -> (n: usize)
        ensures
            n == self@.associations.len(),
    {
        self.associations.len()
    }

    /// The tracker as last reported, if the session is tracking.
    pub fn tracker(&self) -> (tracker: Option<&Tracker>)
        ensures
            match tracker {
                Some(t) => self@.tracker == Some(t@),
                None => self@.tracker is None,
            },
    {
        self.tracker.as_ref()
    }

    /// The number of keyframes in the history.
    pub fn nb_keyframes(&self) -> (n: usize)
        ensures
            n == self@.keyframes.len(),
    {
        self.keyframes.len()
    }

    /// The image of keyframe `index`.
    pub fn keyframe(&self, index: usize) -> (image: &GrayImage)
        requires
            index < self@.keyframes.len(),
        ensures
            image@ == self@.keyframes[index as int],
    {
        &self.keyframes[index]
    }

    /// The candidate pixels of keyframe `index`.
    pub fn keyframe_candidates(&self, index: usize) -> (candidates: &Vec<(usize, usize)>)
        requires
            self.wf(),
            index < self@.keyframes.len(),
        ensures
            candidates@ == self@.keyframes_candidates[index as int],
    {
        &self.keyframes_candidates[index]
    }

    /// The association of frame `frame_id`.
    pub fn association(&self, frame_id: usize) -> (association: &Association)
        requires
            frame_id < self@.associations.len(),
        ensures
            association@ == self@.associations[frame_id as int],
    {
        &self.associations[frame_id]
    }

    /// The number of poses in the history.
    pub fn nb_poses(&self) -> (n: usize)
        ensures
            n == self@.poses_history.len(),
    {
        self.poses_history.len()
    }

    /// The pose that was recorded for `frame_id`.
    pub fn pose_at(&self, frame_id: usize) -> (pose: Pose)
        requires
            frame_id < self@.poses_history.len(),
        ensures
            pose == self@.poses_history[frame_id as int],
    {
        self.poses_history[frame_id]
    }

    /// The number of pending relocalization poses.
    pub fn nb_p3p_poses(&self) -> (n: usize)
        ensures
            n == self@.p3p_poses.len(),
    {
        self.p3p_poses.len()
    }

    /// The pending relocalization pose `id`; pose 0 stands for "no change".
    pub fn p3p_pose(&self, id: usize) -> (pose: Pose)
        requires
            id < self@.p3p_poses.len(),
        ensures
            pose == self@.p3p_poses[id as int],
    {
        self.p3p_poses[id]
    }

    /// Lists the archive buffer and adds its members to the index. An
    /// archive that cannot be listed changes nothing.
    pub fn build_entries_map(&mut self) -> (result: Result<(), SessionError>)
        requires
            old(self).wf(),
        ensures
            final(self).wf(),
            match tar_listing(old(self)@.tar_buffer) {
                Some(listing) => result == Ok::<(), SessionError>(()) && final(self)@ == (SessionView {
                    entries: insert_all(old(self)@.entries, listing),
                    ..old(self)@
                }),
                None => result == Err::<(), SessionError>(SessionError::MalformedArchive) && final(self)@
                    == old(self)@,
            },
    {
        index_archive(self.tar_buffer.as_slice(), &mut self.entries)
    }

    /// Reads the depth and colour images of frame `frame_id` from the archive.
    pub fn read_frame(&self, frame_id: usize) -> (result: Result<(DepthMap, GrayImage), SessionError>)
        requires
            self.wf(),
            frame_id < self@.associations.len(),
        ensures
            match image_pair_of(self@.associations[frame_id as int], self@.tar_buffer, self@.entries) {
                Ok((depth, gray)) => result is Ok && result->Ok_0.0@ == depth && result->Ok_0.1@ == gray,
                Err(error) => result is Err && result->Err_0 == error,
            },
    {
        read_image_pair(&self.associations[frame_id], self.tar_buffer.as_slice(), &self.entries)
    }

    /// Starts tracking. `associations` is the parsed association table, or
    /// `None` where it could not be parsed; `report` is what the tracker
    /// reports once it was built on frame 0, so a table has a frame 0. An unknown camera profile is
    /// reported first, then a table that could not be parsed; both leave the
    /// session as it was. Otherwise the histories are seeded with the first
    /// keyframe, and the number of frames is returned.
    pub fn init(&mut self, camera_id: &str, associations: Option<Vec<Association>>, report: TrackerReport) -> (result:
        Result<usize, SessionError>)
        requires
            old(self).wf(),
            associations matches Some(table) ==> table@.len() > 0,
        ensures
            final(self).wf(),
            match (camera_profile(camera_id@), associations) {
                (None, _) => result == Err::<usize, SessionError>(SessionError::UnknownCameraProfile)
                    && final(self)@ == old(self)@,
                (Some(_), None) => result == Err::<usize, SessionError>(
                    SessionError::MalformedAssociationFile,
                ) && final(self)@ == old(self)@,
                (Some(camera), Some(table)) => result == Ok::<usize, SessionError>(table.len())
                    && final(self)@ == old(self)@.init(camera, association_views(table@), report@),
            },
    {
        let camera = match create_camera(camera_id) {
            Ok(camera) => camera,
            Err(error) => return Err(error),
        };
        let table = match associations {
            Some(table) => table,
            None => return Err(SessionError::MalformedAssociationFile),
        };
        let config = Config {
            nb_levels: NB_LEVELS,
            candidates_diff_threshold: CANDIDATES_DIFF_THRESHOLD,
            camera,
        };
        let nb_frames = table.len();
        self.associations = table;
        update_kf_data(&mut self.current_keyframe_data, &report.keyframe_img);
        let mut keyframes: Vec<GrayImage> = Vec::new();
        keyframes.push(report.keyframe_img.duplicate());
        let mut keyframes_candidates: Vec<Vec<(usize, usize)>> = Vec::new();
        keyframes_candidates.push(duplicate_candidates(&report.keyframe_candidates));
        let mut poses_history: Vec<Pose> = Vec::new();
        poses_history.push(report.frame.pose);
        self.keyframes = keyframes;
        self.keyframes_candidates = keyframes_candidates;
        self.poses_history = poses_history;
        self.p3p_poses = Vec::new();
        self.tracker = Some(Tracker { config, state: report });
        self.change_keyframe = true;
        proof {
            let after = old(self)@.init(camera, association_views(table@), report@);
            assert(self@.keyframes =~= after.keyframes);
            assert(self@.keyframes_candidates =~= after.keyframes_candidates);
            assert(self@.poses_history =~= after.poses_history);
            assert(self@.p3p_poses =~= after.p3p_poses);
        }
        Ok(nb_frames)
    }

    /// Records what the tracker reports after it tracked frame `frame_id`:
    /// the pose joins the history, and so do the keyframe and its candidates
    /// where the tracker started a new keyframe. Returns the tracked frame.
    pub fn track(&mut self, frame_id: usize, change_keyframe: bool, report: TrackerReport) -> (frame: Frame)
        requires
            old(self).wf(),
            old(self)@.tracker is Some,
            frame_id < old(self)@.associations.len(),
        ensures
            final(self).wf(),
            final(self)@ == old(self)@.track(change_keyframe, report@),
            frame == report.frame,
    {
        let config = match &self.tracker {
            Some(tracker) => tracker.config,
            None => Config {
                nb_levels: NB_LEVELS,
                candidates_diff_threshold: CANDIDATES_DIFF_THRESHOLD,
                camera: CameraProfile::Fr1,
            },
        };
        self.change_keyframe = change_keyframe;
        let frame = report.frame;
        if change_keyframe {
            let ghost images = self.keyframes@;
            let ghost sets = self.keyframes_candidates@;
            let image = report.keyframe_img.duplicate();
            let candidates = duplicate_candidates(&report.keyframe_candidates);
            self.keyframes.push(image);
            self.keyframes_candidates.push(candidates);
            assert(gray_views(self.keyframes@) =~= gray_views(images).push(report@.keyframe_img));
            assert(candidate_views(self.keyframes_candidates@) =~= candidate_views(sets).push(
                report@.keyframe_candidates,
            ));
        }
        self.poses_history.push(frame.pose);
        self.tracker = Some(Tracker { config, state: report });
        frame
    }

    /// Rewinds the session. `report` is what the tracker reports once it was
    /// rebuilt on frame `base_frame_id`; the session records it at the pose
    /// `pose`, keeps `keyframe_id` keyframes and the poses of frames
    /// `0..=last_tracked_frame_id`, and shows the tracker's keyframe.
    fn rewind(&mut self, last_tracked_frame_id: usize, keyframe_id: usize, report: TrackerReport, pose: Pose)
        requires
            old(self).wf(),
            old(self)@.tracker is Some,
            last_tracked_frame_id < old(self)@.poses_history.len(),
            keyframe_id <= old(self)@.keyframes.len(),
        ensures
            final(self).wf(),
            final(self)@ == old(self)@.rewind(
                last_tracked_frame_id as int,
                keyframe_id as int,
                report@,
                pose,
            ),
    {
        let config = match &self.tracker {
            Some(tracker) => tracker.config,
            None => Config {
                nb_levels: NB_LEVELS,
                candidates_diff_threshold: CANDIDATES_DIFF_THRESHOLD,
                camera: CameraProfile::Fr1,
            },
        };
        let ghost images = self.keyframes@;
        let ghost sets = self.keyframes_candidates@;
        update_kf_data(&mut self.current_keyframe_data, &report.keyframe_img);
        self.keyframes.truncate(keyframe_id);
        self.keyframes_candidates.truncate(keyframe_id);
        assert(last_tracked_frame_id < self.poses_history.len());
        self.poses_history.truncate(last_tracked_frame_id + 1);
        let state = TrackerReport {
            frame: Frame { timestamp: report.frame.timestamp, pose },
            keyframe_img: report.keyframe_img,
            keyframe_candidates: report.keyframe_candidates,
            points_3d: report.points_3d,
        };
        self.tracker = Some(Tracker { config, state });
        self.change_keyframe = true;
        proof {
            assert(gray_views(self.keyframes@) =~= gray_views(images).take(keyframe_id as int));
            assert(candidate_views(self.keyframes_candidates@) =~= candidate_views(sets).take(
                keyframe_id as int,
            ));
            assert(self.poses_history@ =~= old(self)@.poses_history.take(last_tracked_frame_id + 1));
        }
    }

    /// Rewinds the session to the historical pose of `base_frame_id`.
    /// `report` is what the tracker reports once it was rebuilt on that
    /// frame. `keyframe_id` keyframes and the poses of frames
    /// `0..=last_tracked_frame_id` are kept.
    pub fn reset_at(
        &mut self,
        base_frame_id: usize,
        last_tracked_frame_id: usize,
        keyframe_id: usize,
        report: TrackerReport,
    )
        requires
            old(self).wf(),
            old(self)@.tracker is Some,
            base_frame_id < old(self)@.associations.len(),
            base_frame_id < old(self)@.poses_history.len(),
            last_tracked_frame_id < old(self)@.poses_history.len(),
            keyframe_id <= old(self)@.keyframes.len(),
        ensures
            final(self).wf(),
            final(self)@ == old(self)@.reset_at(
                base_frame_id as int,
                last_tracked_frame_id as int,
                keyframe_id as int,
                report@,
            ),
    {
        let base_pose = self.poses_history[base_frame_id];
        self.rewind(last_tracked_frame_id, keyframe_id, report, base_pose);
    }

    /// Commits the pending relocalization pose `id`: drops the last keyframe
    /// and the last pose, and restarts the tracker, rebuilt on
    /// `base_frame_id`, at that pose. Returns the number of keyframes kept.
    pub fn choose_p3p_initial(&mut self, id: usize, base_frame_id: usize, report: TrackerReport) -> (keyframe_id:
        usize)
        requires
            old(self).wf(),
            old(self)@.tracker is Some,
            old(self)@.keyframes.len() >= 1,
            old(self)@.poses_history.len() >= 2,
            base_frame_id < old(self)@.associations.len(),
            base_frame_id < old(self)@.poses_history.len() - 1,
            id < old(self)@.p3p_poses.len(),
        ensures
            final(self).wf(),
            keyframe_id == old(self)@.keyframes.len() - 1,
            final(self)@ == old(self)@.choose_p3p_initial(id as int, report@),
    {
        let keyframe_id = self.keyframes.len() - 1;
        let last_tracked_frame_id = self.poses_history.len() - 1;
        let p3p_reset_pose = self.p3p_poses[id];
        self.rewind(last_tracked_frame_id - 1, keyframe_id, report, p3p_reset_pose);
        keyframe_id
    }

    /// Records the outcome of a relocalization between `base_frame_id` and
    /// `last_tracked_frame_id`: the points of each hypothesis become one
    /// section of `point_cloud`, and the pending poses become the pose of
    /// `last_tracked_frame_id` followed by the poses of the hypotheses.
    /// Returns the number of pending poses, which is the number of
    /// probabilities that the caller owes.
    pub fn p3p_visualize(
        &mut self,
        base_frame_id: usize,
        last_tracked_frame_id: usize,
        hypotheses: &Vec<Hypothesis>,
        point_cloud: &mut PointCloud,
    ) -> (nb_poses: usize)
        requires
            old(self).wf(),
            old(self)@.tracker is Some,
            base_frame_id < old(self)@.associations.len(),
            base_frame_id < old(self)@.poses_history.len(),
            last_tracked_frame_id < old(self)@.associations.len(),
            last_tracked_frame_id < old(self)@.poses_history.len(),
            old(point_cloud)@.wf(),
            old(point_cloud)@.end + 3 * total_points(hypothesis_views(hypotheses@)) <= old(
                point_cloud,
            )@.points.len(),
        ensures
            final(self).wf(),
            final(self)@ == old(self)@.p3p_visualize(
                last_tracked_frame_id as int,
                hypothesis_views(hypotheses@),
            ),
            final(point_cloud)@.wf(),
            final(point_cloud)@ == push_sections(old(point_cloud)@, hypothesis_views(hypotheses@)),
            nb_poses == hypotheses@.len() + 1,
            nb_poses == final(self)@.p3p_poses.len(),
    {
        let ghost all = hypothesis_views(hypotheses@);
        let current_pose = self.poses_history[last_tracked_frame_id];
        let mut poses: Vec<Pose> = Vec::new();
        poses.push(current_pose);
        let n = hypotheses.len();
        let mut i: usize = 0;
        while i < n
            invariant
                0 <= i <= n,
                n == hypotheses@.len(),
                all == hypothesis_views(hypotheses@),
                point_cloud@.wf(),
                point_cloud@ == push_sections(old(point_cloud)@, all.take(i as int)),
                point_cloud@.points.len() == old(point_cloud)@.points.len(),
                point_cloud@.end == old(point_cloud)@.end + 3 * total_points(all.take(i as int)),
                old(point_cloud)@.end + 3 * total_points(all) <= old(point_cloud)@.points.len(),
                poses@ == seq![current_pose] + hypothesis_poses(all.take(i as int)),
            decreases n - i,
        {
            let hypothesis = &hypotheses[i];
            proof {
                assert(all.take(i + 1).drop_last() =~= all.take(i as int));
                assert(all.take(i + 1).last() == hypothesis@);
                lemma_total_points_prefix(all, i + 1);
                assert(hypothesis_poses(all.take(i + 1)) =~= hypothesis_poses(all.take(i as int)).push(
                    hypothesis.pose,
                ));
            }
            point_cloud.push_section(&hypothesis.points_3d);
            poses.push(hypothesis.pose);
            assert(poses@ =~= seq![current_pose] + hypothesis_poses(all.take(i + 1)));
            i = i + 1;
        }
        assert(all.take(n as int) =~= all);
        let nb_poses = poses.len();
        self.p3p_poses = poses;
        nb_poses
    }

    /// Whether the candidates of keyframe `index` can be highlighted in the
    /// reference display buffer.
    pub open spec fn reference_fits(&self, index: int) -> bool {
        overlay_fits(
            self@.reference_keyframe_data.len(),
            self@.keyframes[index].width,
            self@.keyframes_candidates[index],
        )
    }

    /// Decides whether keyframe `index` can be shown in the reference display
    /// buffer.
    pub fn can_pick_reference(&self, index: usize) -> (fits: bool)
        requires
            self.wf(),
            index < self@.keyframes.len(),
        ensures
            fits == self.reference_fits(index as int),
    {
        overlay_fits_in(
            self.reference_keyframe_data.len(),
            self.keyframes[index].width,
            &self.keyframes_candidates[index],
        )
    }

    /// Shows keyframe `index` in the reference display buffer, with its
    /// candidate pixels highlighted.
    pub fn pick_reference_kf_data(&mut self, index: usize)
        requires
            old(self).wf(),
            index < old(self)@.keyframes.len(),
            old(self).reference_fits(index as int),
        ensures
            final(self).wf(),
            final(self)@ == old(self)@.pick_reference_kf_data(index as int),
    {
        update_kf_data(&mut self.reference_keyframe_data, &self.keyframes[index]);
        let width = self.keyframes[index].width;
        highlight_candidates(&mut self.reference_keyframe_data, width, &self.keyframes_candidates[index]);
    }

    /// Shows keyframe `index` in the current display buffer.
    pub fn pick_current_kf_data(&mut self, index: usize)
        requires
            old(self).wf(),
            index < old(self)@.keyframes.len(),
        ensures
            final(self).wf(),
            final(self)@ == old(self)@.pick_current_kf_data(index as int),
    {
        update_kf_data(&mut self.current_keyframe_data, &self.keyframes[index]);
    }
}

/// The points of a prefix of a list of hypotheses: one hypothesis more adds
/// its points, and no prefix holds more points than the whole list.
pub proof fn lemma_total_points_prefix(hypotheses: Seq<HypothesisView>, n: int)
    requires
        0 < n <= hypotheses.len(),
    ensures
        total_points(hypotheses.take(n)) == total_points(hypotheses.take(n - 1)) + hypotheses[n
            - 1].points_3d.len(),
        total_points(hypotheses.take(n)) <= total_points(hypotheses),
    decreases hypotheses.len() - n,
{
    assert(hypotheses.take(n).drop_last() =~= hypotheses.take(n - 1));
    if n == hypotheses.len() {
        assert(hypotheses.take(n) =~= hypotheses);
    } else {
        lemma_total_points_prefix(hypotheses, n + 1);
    }
}

} // verus!
