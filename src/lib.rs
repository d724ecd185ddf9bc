//! Estimated marker poses: owned rotation and translation matrices, read-only
//! views over them, and their conversion into rigid-transform parts.

pub mod matd;
pub mod pose;

pub use matd::{Matd, MatdRef};
pub use pose::{Pose, PoseEstimation, RigidTransform, TagParams};
