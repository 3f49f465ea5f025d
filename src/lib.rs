//! Pose-estimation coprocessor core: frame conventions, fiducial-to-pose
//! resolution, the pose-sample wire format, the preview framing and the
//! decision logic of the long-running pipeline and publisher loops.
//!
//! Floating-point values are carried as their IEEE-754 binary64 bit patterns
//! (see `geometry::Scalar`), so that every step the library takes on them is
//! exact and checkable; the numerical work itself happens in the caller.
pub mod capture;
pub mod geometry;
pub mod preview;
pub mod publisher;
pub mod resolver;
pub mod supervisor;
pub mod telemetry;
pub mod text;
pub mod types;
