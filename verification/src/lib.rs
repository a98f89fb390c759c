//! Landmark-based emotion inference: geometric feature extraction from 3D
//! face meshes, robust per-user calibration (median / MAD z-scoring),
//! rule-based emotion classification, session state with a rolling emotion
//! history, an energy model, and a JSON analysis report.
//!
//! All scalar measurements are fixed-point integers in micro-units
//! (one unit of the source coordinate space = 1_000_000), which keeps the
//! whole pipeline in verifiable integer arithmetic.

pub mod calibration;
pub mod emotion;
pub mod features;
pub mod landmarks;
pub mod messaging;
pub mod report;
pub mod session;
