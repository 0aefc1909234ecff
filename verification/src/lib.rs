//! Verified session state for an incremental RGB-D visual odometry viewer.
//!
//! The library keeps the histories that a tracking session needs in order to
//! rewind and replay (keyframe images, candidate pixels, camera poses), the
//! recorders that feed a renderer (camera path, point cloud), the index of the
//! archive that frames are read from, and the bookkeeping of the three-point
//! relocalization workflow.
//!
//! Real-valued quantities (timestamps, poses, 3D points, inverse depths) are
//! only stored and moved here, never computed with. They are carried as the
//! bit patterns of their IEEE-754 encoding: `u32` for single precision, `u64`
//! for double precision. The numeric work itself (image alignment, the
//! three-point solver, scoring) is done by the caller, who reports its outcome
//! as plain values.

pub mod archive;
pub mod camera_path;
pub mod chunks;
pub mod display;
pub mod error;
pub mod frames;
pub mod geometry;
pub mod laws;
pub mod point_cloud;
pub mod relocalize;
pub mod session;
pub mod tracker;
