//! Turns raster images into pencil-sketch line drawings: the format registry,
//! the batch resolution of inputs to outputs, and the integer pixel pipeline.

pub mod batch;
pub mod format;
pub mod path;
pub mod transform;

pub use batch::{
    check_cardinality, check_hints, DirEntry, IOIterator, IOIteratorError, Input, Layout, Output,
    WorkItem, IO,
};
pub use format::{detect_format, Format};
pub use path::{format_of_path, get_extension, get_file_name, join_path};
pub use transform::{
    color_dodge, dodge_sample, invert, level_sample, levels, sketch, to_rgba, SHADOW_DEFAULT,
};
