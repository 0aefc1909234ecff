//! What the session knows of the tracker: how it is configured and what it
//! reported last.

use vstd::prelude::*;
use crate::error::SessionError;
use crate::geometry::{Frame, Point3};
use crate::display::{GrayImage, GrayImageView};

verus! {

/// Number of levels of the image pyramids that the tracker works on.
pub const NB_LEVELS: usize = 6;

/// Threshold of the tracker's candidate selection.
pub const CANDIDATES_DIFF_THRESHOLD: u16 = 7;

/// The camera profiles that the session knows intrinsics for.
#[derive(Clone, Copy, PartialEq, Eq, Debug, Structural)]
pub enum CameraProfile {
    Fr1,
    Fr2,
    Fr3,
    IclNuim,
}

/// The profile that an identifier stands for.
pub open spec fn camera_profile(camera_id: Seq<char>) -> Option<CameraProfile> {
    if camera_id == "fr1"@ {
        Some(CameraProfile::Fr1)
    } else if camera_id == "fr2"@ {
        Some(CameraProfile::Fr2)
    } else if camera_id == "fr3"@ {
        Some(CameraProfile::Fr3)
    } else if camera_id == "icl"@ {
        Some(CameraProfile::IclNuim)
    } else {
        None
    }
}

/// Resolves a camera profile identifier.
pub fn create_camera(camera_id: &str) -> (result: Result<CameraProfile, SessionError>)
    ensures
        match camera_profile(camera_id@) {
            Some(profile) => result == Ok::<CameraProfile, SessionError>(profile),
            None => result == Err::<CameraProfile, SessionError>(SessionError::UnknownCameraProfile),
        },
{
    let id = camera_id.to_owned();
    if id == "fr1".to_owned() {
        Ok(CameraProfile::Fr1)
    } else if id == "fr2".to_owned() {
        Ok(CameraProfile::Fr2)
    } else if id == "fr3".to_owned() {
        Ok(CameraProfile::Fr3)
    } else if id == "icl".to_owned() {
        Ok(CameraProfile::IclNuim)
    } else {
        Err(SessionError::UnknownCameraProfile)
    }
}

/// The integral part of the tracker's configuration.
#[derive(Clone, Copy, PartialEq, Eq, Debug, Structural)]
pub struct Config {
    pub nb_levels: usize,
    pub candidates_diff_threshold: u16,
    pub camera: CameraProfile,
}

/// The configuration that every session tracks with, for a given camera.
pub open spec fn session_config(camera: CameraProfile) -> Config {
    Config { nb_levels: NB_LEVELS, candidates_diff_threshold: CANDIDATES_DIFF_THRESHOLD, camera }
}

/// What the tracker reports after it was built or has tracked a frame.
pub struct TrackerReport {
    /// Timestamp and pose of the current frame.
    pub frame: Frame,
    /// The image of the current keyframe, in display order.
    pub keyframe_img: GrayImage,
    /// The candidate pixels `(x, y)` of the current keyframe.
    pub keyframe_candidates: Vec<(usize, usize)>,
    /// The sparse 3D points reconstructed from the current keyframe.
    pub points_3d: Vec<Point3>,
}

/// The mathematical content of a [`TrackerReport`].
pub ghost struct TrackerReportView {
    pub frame: Frame,
    pub keyframe_img: GrayImageView,
    pub keyframe_candidates: Seq<(usize, usize)>,
    pub points_3d: Seq<Point3>,
}

impl View for TrackerReport {
    type V = TrackerReportView;

    open spec fn view(&self) -> TrackerReportView {
        TrackerReportView {
            frame: self.frame,
            keyframe_img: self.keyframe_img@,
            keyframe_candidates: self.keyframe_candidates@,
            points_3d: self.points_3d@,
        }
    }
}

/// The tracker as the session sees it: its configuration and its last report.
pub struct Tracker {
    pub config: Config,
    pub state: TrackerReport,
}

/// The mathematical content of a [`Tracker`].
pub ghost struct TrackerView {
    pub config: Config,
    pub state: TrackerReportView,
}

impl View for Tracker {
    type V = TrackerView;

    open spec fn view(&self) -> TrackerView {
        TrackerView { config: self.config, state: self.state@ }
    }
}

} // verus!
