//! Turns labelled image files into normalized, batched sample data for a
//! classifier: decoding and resizing, channel reordering, per-channel
//! normalization with exact rational arithmetic, and batch assembly.
pub mod device;
pub mod raster;
pub mod normalize;
pub mod batch;
pub mod dataset;
