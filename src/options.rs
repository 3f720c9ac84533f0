//! The options a caller picks for a conversion, and the processing status of a queued file.
use vstd::prelude::*;
use crate::format::ImageFormat;

verus! {

/// User-configurable conversion options.
#[derive(Clone, Debug)]
pub struct ConversionOptions {
    pub format: ImageFormat,
    /// 0 to 100; used by the JPEG and WebP encoders.
    pub quality: u8,
    pub png_compressed: bool,
    pub resize: bool,
    /// Decimal text; empty or zero leaves the width to the aspect ratio.
    pub target_width: String,
    /// Decimal text; empty or zero leaves the height to the aspect ratio.
    pub target_height: String,
    pub prefix: String,
    pub find_pattern: String,
    pub replace_with: String,
    pub auto_suffix: bool,
    pub use_custom_output: bool,
    pub custom_output_path: Option<String>,
    pub keep_metadata: bool,
    pub generate_log: bool,
    pub add_numbering: bool,
    pub is_dark_mode: bool,
    pub max_batch_size: usize,
}

impl ConversionOptions {
    /// The options a fresh installation starts with.
    pub open spec fn is_default(&self) -> bool {
        &&& self.format == ImageFormat::Jpeg
        &&& self.quality == 80
        &&& self.png_compressed
        &&& !self.resize
        &&& self.target_width@.len() == 0
        &&& self.target_height@.len() == 0
        &&& self.prefix@.len() == 0
        &&& self.find_pattern@.len() == 0
        &&& self.replace_with@.len() == 0
        &&& !self.auto_suffix
        &&& !self.use_custom_output
        &&& self.custom_output_path is None
        &&& !self.keep_metadata
        &&& !self.generate_log
        &&& !self.add_numbering
        &&& !self.is_dark_mode
        &&& self.max_batch_size == 50
    }
}

impl Default for ConversionOptions {
    fn default() -> (r: ConversionOptions)
        ensures
            r.is_default(),
    {
        ConversionOptions {
            format: ImageFormat::Jpeg,
            quality: 80,
            png_compressed: true,
            resize: false,
            target_width: String::new(),
            target_height: String::new(),
            prefix: String::new(),
            find_pattern: String::new(),
            replace_with: String::new(),
            auto_suffix: false,
            use_custom_output: false,
            custom_output_path: None,
            keep_metadata: false,
            generate_log: false,
            add_numbering: false,
            is_dark_mode: false,
            max_batch_size: 50,
        }
    }
}

/// Processing status of a queued file.
#[derive(Clone, Debug)]
pub enum FileStatus {
    Pending,
    Processing,
    Done,
    Error(String),
}

} // verus!
