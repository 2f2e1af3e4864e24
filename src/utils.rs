//! Helpers around the generator: target selection by file name, banners and footers.

pub mod content_utils;
pub mod file_utils;
