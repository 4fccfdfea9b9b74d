//! A render pass for debug lines, reduced to its decisions.
//!
//! Every frame the pass gathers the line segments of all sources into one
//! buffer, decides whether recorded commands for the frame slot can be
//! reused, and lays out the commands of one instanced draw. Creating and
//! releasing the GPU objects is planned here step by step; performing the
//! steps on a device is left to the caller.

pub mod line;
pub mod change;
pub mod params;
pub mod pipeline;
pub mod pass;

pub use crate::change::{ChangeDetection, PrepareResult};
pub use crate::line::{DebugLine, DebugLines, DebugLinesComponent, LineVertex};
pub use crate::params::DebugLinesParams;
pub use crate::pass::{DrawCommand, DrawDebugLines, DrawDebugLinesDesc, FrameUpload, GpuRelease};
pub use crate::pipeline::{BuildAction, BuildState, LinesPipelineDesc};
