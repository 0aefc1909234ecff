//! The camera path recorder: the position of the camera at every tracked
//! frame, and where along the path each keyframe began.

use vstd::prelude::*;
use crate::geometry::Point3;
use crate::session::WasmTracker;

verus! {

/// Fixed-capacity recorder of camera positions, three scalars per frame.
pub struct CameraPath {
    poses: Vec<u32>,
    indices_kf: Vec<usize>,
    end: usize,
}

/// The mathematical content of a [`CameraPath`].
pub ghost struct CameraPathView {
    /// The flat buffer of positions, valid up to `end`.
    pub poses: Seq<u32>,
    /// For each keyframe, the offset in `poses` at which it began.
    pub indices_kf: Seq<usize>,
    /// The offset at which the next position is written.
    pub end: nat,
}

impl CameraPathView {
    /// The invariant of the recorder: offsets lie on position boundaries
    /// inside the written part of the buffer, and the keyframe offsets are
    /// strictly increasing.
    pub open spec fn wf(self) -> bool {
        &&& self.end % 3 == 0
        &&& self.end <= self.poses.len() <= usize::MAX
        &&& forall|i: int|
            0 <= i < self.indices_kf.len() ==> (#[trigger] self.indices_kf[i]) % 3 == 0
                && self.indices_kf[i] < self.end
        &&& forall|i: int, j: int|
            0 <= i < j < self.indices_kf.len() ==> (#[trigger] self.indices_kf[i])
                < (#[trigger] self.indices_kf[j])
    }

    /// The recorder after one tracked frame: the position is written at the
    /// end offset, which is also recorded where a keyframe began.
    pub open spec fn tick(self, translation: Point3, change_keyframe: bool) -> CameraPathView {
        let at = self.end as int;
        CameraPathView {
            poses: self.poses.update(at, translation.x).update(at + 1, translation.y).update(
                at + 2,
                translation.z,
            ),
            indices_kf: if change_keyframe {
                self.indices_kf.push(at as usize)
            } else {
                self.indices_kf
            },
            end: (at + 3) as nat,
        }
    }

    /// The recorder rewound to where keyframe `kf_id` began.
    pub open spec fn reset_kf(self, kf_id: int) -> CameraPathView {
        CameraPathView {
            poses: self.poses,
            indices_kf: self.indices_kf.take(kf_id),
            end: self.indices_kf[kf_id] as nat,
        }
    }
}

impl View for CameraPath {
    type V = CameraPathView;

    closed spec fn view(&self) -> CameraPathView {
        CameraPathView { poses: self.poses@, indices_kf: self.indices_kf@, end: self.end as nat }
    }
}

impl CameraPath {
    /// A recorder with room for the positions of `nb_frames` frames.
    pub fn new(nb_frames: usize) -> (path: CameraPath)
        requires
            nb_frames > 0,
            3 * nb_frames <= usize::MAX,
        ensures
            path@.wf(),
            path@.poses == Seq::new(3 * nb_frames as nat, |i: int| 0u32),
            path@.indices_kf.len() == 0,
            path@.end == 0,
    {
        let poses: Vec<u32> = vec![0u32; 3 * nb_frames];
        assert(poses@ =~= Seq::new(3 * nb_frames as nat, |i: int| 0u32));
        CameraPath { poses, indices_kf: Vec::new(), end: 0 }
    }

    /// The whole buffer of positions, valid up to the current end offset.
    pub fn poses(&self) -> (poses: &Vec<u32>)
        ensures
            poses@ == self@.poses,
    {
        &self.poses
    }

    /// The offset at which the next position is written.
    pub fn end(&self) -> (end: usize)
        ensures
            end == self@.end,
    {
        self.end
    }

    /// The number of keyframes recorded.
    pub fn nb_keyframes(&self) -> (n: usize)
        ensures
            n == self@.indices_kf.len(),
    {
        self.indices_kf.len()
    }

    /// Decides whether one more position fits into the buffer.
    pub fn has_room(&self) -> (fits: bool)
        requires
            self@.wf(),
        ensures
            fits == (self@.end + 3 <= self@.poses.len()),
    {
        3 <= self.poses.len() - self.end
    }

    /// The tick at which keyframe `id` began.
    pub fn index_kf(&self, id: usize) -> (frame: usize)
        requires
            id < self@.indices_kf.len(),
        ensures
            frame == self@.indices_kf[id as int] / 3,
    {
        self.indices_kf[id] / 3
    }

    /// Rewinds the recorder as if keyframe `kf_id` had not begun yet, and
    /// returns the last tick before it.
    pub fn reset_kf(&mut self, kf_id: usize) -> (last_tracked_frame: usize)
        requires
            old(self)@.wf(),
            kf_id < old(self)@.indices_kf.len(),
            old(self)@.indices_kf[kf_id as int] >= 3,
        ensures
            final(self)@.wf(),
            final(self)@ == old(self)@.reset_kf(kf_id as int),
            last_tracked_frame == old(self)@.indices_kf[kf_id as int] / 3 - 1,
    {
        let last_tracked_frame = self.index_kf(kf_id) - 1;
        self.end = self.indices_kf[kf_id];
        self.indices_kf.truncate(kf_id);
        last_tracked_frame
    }

    /// Records the position that the session's tracker reports, and the
    /// beginning of a keyframe where the session flags one.
    pub fn tick(&mut self, wasm_tracker: &WasmTracker)
        requires
            old(self)@.wf(),
            wasm_tracker@.tracker is Some,
            old(self)@.end + 3 <= old(self)@.poses.len(),
        ensures
            final(self)@.wf(),
            final(self)@ == old(self)@.tick(
                wasm_tracker@.tracker->Some_0.state.frame.pose.translation,
                wasm_tracker@.change_keyframe,
            ),
    {
        let translation = match wasm_tracker.tracker() {
            Some(tracker) => tracker.state.frame.pose.translation,
            None => Point3 { x: 0, y: 0, z: 0 },
        };
        let end = self.end;
        assert(end + 3 <= self.poses.len());
        self.poses[end] = translation.x;
        self.poses[end + 1] = translation.y;
        self.poses[end + 2] = translation.z;
        if wasm_tracker.change_keyframe() {
            self.indices_kf.push(end);
        }
        self.end = end + 3;
        proof {
            let after = old(self)@.tick(translation, wasm_tracker@.change_keyframe);
            assert(self@.poses =~= after.poses);
            assert(self@.indices_kf =~= after.indices_kf);
            assert forall|i: int, j: int| 0 <= i < j < self@.indices_kf.len() implies (#[trigger] self@.indices_kf[i])
                < (#[trigger] self@.indices_kf[j]) by {
                if j < old(self)@.indices_kf.len() {
                    assert(old(self)@.indices_kf[i] < old(self)@.indices_kf[j]);
                } else {
                    assert(old(self)@.indices_kf[i] < end);
                }
            }
        }
    }
}

} // verus!
