//! Square thumbnails: centre-crop an encoded raster image, resample it to a
//! requested side length and route the encoded result to one of three sinks.

pub mod encode;
pub mod error;
pub mod format;
pub mod geometry;
pub mod mode;
pub mod pipeline;
pub mod raster;
pub mod sink;
pub mod text;
