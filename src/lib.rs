//! Conversion of raster images between JPEG, PNG and WebP (HEIC/HEIF as a source): header
//! validation, EXIF extraction and orientation patching, ICC color management, orientation
//! correction, resizing, and encoders with fallback paths, each stated and proved against its
//! contract.

pub mod color;
pub mod encode;
pub mod exif_patch;
pub mod format;
pub mod jpeg_container;
pub mod metadata;
pub mod naming;
pub mod options;
pub mod pipeline;
pub mod pixels;
pub mod queue;
pub mod raster;
pub mod resize;
pub mod settings;
pub mod text;
