//! The point cloud recorder: one section of a flat buffer per keyframe.

use vstd::prelude::*;
use crate::error::SessionError;
use crate::geometry::{flatten, Point3};
use crate::session::WasmTracker;

verus! {

/// A half-open range `[start, end)` of the flat buffer.
#[derive(Clone, Copy, PartialEq, Eq, Debug, Structural)]
pub struct Section {
    pub start: usize,
    pub end: usize,
}

/// Fixed-capacity recorder of 3D points, three scalars per point.
pub struct PointCloud {
    sections: Vec<Section>,
    end: usize,
    points: Vec<u32>,
}

/// The mathematical content of a [`PointCloud`].
pub ghost struct PointCloudView {
    pub sections: Seq<Section>,
    pub end: nat,
    pub points: Seq<u32>,
}

/// Every section is a well-formed range on a point boundary, and sections
/// come in order without overlapping.
pub open spec fn sections_ordered(sections: Seq<Section>) -> bool {
    &&& forall|i: int|
        0 <= i < sections.len() ==> {
            &&& (#[trigger] sections[i]).start <= sections[i].end
            &&& sections[i].start % 3 == 0
            &&& sections[i].end % 3 == 0
        }
    &&& forall|i: int, j: int|
        0 <= i < j < sections.len() ==> (#[trigger] sections[i]).end <= (#[trigger] sections[j]).start
}

impl PointCloudView {
    /// The invariant of the recorder.
    pub open spec fn wf(self) -> bool {
        &&& sections_ordered(self.sections)
        &&& forall|i: int| 0 <= i < self.sections.len() ==> (#[trigger] self.sections[i]).end <= self.end
        &&& self.end % 3 == 0
        &&& self.end <= self.points.len() <= usize::MAX
    }

    /// The recorder after `points_3d` was appended as one new section.
    pub open spec fn push_section(self, points_3d: Seq<Point3>) -> PointCloudView {
        let start = self.end as int;
        let end = start + 3 * points_3d.len();
        PointCloudView {
            sections: self.sections.push(Section { start: start as usize, end: end as usize }),
            end: end as nat,
            points: self.points.subrange(0, start) + flatten(points_3d) + self.points.subrange(
                end,
                self.points.len() as int,
            ),
        }
    }

    /// The recorder rewound so that keyframe `kf_id - 1` is the last one.
    pub open spec fn reset_kf(self, kf_id: int) -> PointCloudView {
        PointCloudView {
            sections: self.sections.take(kf_id),
            end: self.sections[kf_id - 1].end as nat,
            points: self.points,
        }
    }
}

impl View for PointCloud {
    type V = PointCloudView;

    closed spec fn view(&self) -> PointCloudView {
        PointCloudView { sections: self.sections@, end: self.end as nat, points: self.points@ }
    }
}

impl PointCloud {
    /// A recorder with room for `nb_points` points and no section.
    pub fn new(nb_points: usize) -> (cloud: PointCloud)
        requires
            3 * nb_points <= usize::MAX,
        ensures
            cloud@.wf(),
            cloud@.sections.len() == 0,
            cloud@.end == 0,
            cloud@.points == Seq::new(3 * nb_points as nat, |i: int| 0u32),
    {
        let points: Vec<u32> = vec![0u32; 3 * nb_points];
        assert(points@ =~= Seq::new(3 * nb_points as nat, |i: int| 0u32));
        PointCloud { sections: Vec::new(), end: 0, points }
    }

    /// The range of the buffer that holds the points of keyframe `frame`.
    pub fn section(&self, frame: usize) -> (section: Section)
        requires
            frame < self@.sections.len(),
        ensures
            section == self@.sections[frame as int],
    {
        self.sections[frame]
    }

    /// The whole buffer, valid up to the current end offset.
    pub fn points(&self) -> (points: &Vec<u32>)
        ensures
            points@ == self@.points,
    {
        &self.points
    }

    /// The offset one past the last recorded scalar.
    pub fn end(&self) -> (end: usize)
        ensures
            end == self@.end,
    {
        self.end
    }

    /// The number of recorded sections.
    pub fn nb_sections(&self) -> (n: usize)
        ensures
            n == self@.sections.len(),
    {
        self.sections.len()
    }

    /// Decides whether `nb_points` more points fit into the buffer.
    pub fn has_room(&self, nb_points: usize) -> (fits: bool)
        requires
            self@.wf(),
        ensures
            fits == (self@.end + 3 * nb_points <= self@.points.len()),
    {
        nb_points <= (self.points.len() - self.end) / 3
    }

    /// Rewinds the recorder as if keyframe `kf_id` had not been recorded yet,
    /// and returns the end of the valid points. There is nothing to rewind to
    /// before the first section: `kf_id == 0` is an error and changes nothing.
    pub fn reset_kf(&mut self, kf_id: usize) -> (result: Result<usize, SessionError>)
        requires
            old(self)@.wf(),
            kf_id <= old(self)@.sections.len(),
        ensures
            final(self)@.wf(),
            kf_id == 0 ==> result == Err::<usize, SessionError>(SessionError::EmptySectionHistory)
                && final(self)@ == old(self)@,
            kf_id > 0 ==> result == Ok::<usize, SessionError>(old(self)@.sections[kf_id - 1].end)
                && final(self)@ == old(self)@.reset_kf(kf_id as int),
    {
        if kf_id == 0 {
            return Err(SessionError::EmptySectionHistory);
        }
        self.sections.truncate(kf_id);
        self.end = self.sections[kf_id - 1].end;
        Ok(self.end)
    }

    /// Appends `points_3d` to the buffer as one new section and returns the
    /// new end offset.
    pub fn push_section(&mut self, points_3d: &Vec<Point3>) -> (end: usize)
        requires
            old(self)@.wf(),
            old(self)@.end + 3 * points_3d.len() <= old(self)@.points.len(),
        ensures
            final(self)@.wf(),
            final(self)@ == old(self)@.push_section(points_3d@),
            end == final(self)@.end,
    {
        let start = self.end;
        let n = points_3d.len();
        let ghost before = self.points@;
        let mut i: usize = 0;
        while i < n
            invariant
                0 <= i <= n,
                n == points_3d.len(),
                start + 3 * n <= self.points.len(),
                self.points.len() == before.len(),
                self.end == start,
                self.sections == old(self).sections,
                forall|k: int| 0 <= k < start ==> self.points[k] == before[k],
                forall|k: int| start + 3 * i <= k < before.len() ==> self.points[k] == before[k],
                forall|k: int| 0 <= k < 3 * i ==> self.points[start + k] == flatten(points_3d@)[k],
            decreases n - i,
        {
            let p = points_3d[i];
            let at = start + 3 * i;
            self.points[at] = p.x;
            self.points[at + 1] = p.y;
            self.points[at + 2] = p.z;
            i = i + 1;
        }
        self.end = start + 3 * n;
        self.sections.push(Section { start, end: self.end });
        assert(self.points@ =~= before.subrange(0, start as int) + flatten(points_3d@)
            + before.subrange(start + 3 * n, before.len() as int));
        self.end
    }

    /// Records the points that the session's tracker reconstructed, where the
    /// session flags a new keyframe, and returns the end of the valid points.
    pub fn tick(&mut self, wasm_tracker: &WasmTracker) -> (end: usize)
        requires
            old(self)@.wf(),
            wasm_tracker@.change_keyframe ==> wasm_tracker@.tracker is Some && old(self)@.end + 3
                * wasm_tracker@.tracker->Some_0.state.points_3d.len() <= old(self)@.points.len(),
        ensures
            final(self)@.wf(),
            final(self)@ == if wasm_tracker@.change_keyframe {
                old(self)@.push_section(wasm_tracker@.tracker->Some_0.state.points_3d)
            } else {
                old(self)@
            },
            end == final(self)@.end,
    {
        if wasm_tracker.change_keyframe() {
            match wasm_tracker.tracker() {
                Some(tracker) => {
                    self.push_section(&tracker.state.points_3d);
                },
                None => {},
            }
        }
        self.end
    }
}

} // verus!
