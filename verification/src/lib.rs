//! Control and data-transport layer of a desktop audio source-separation
//! application: output-path resolution, progress-event bridging, the split
//! orchestration state machine, and the media protocol request logic.
pub mod decimal;
pub mod media;
pub mod orchestrate;
pub mod paths;
pub mod progress;
