//! Path texts: their components, their absolute and relative forms, and
//! the conversions between the three ways a path can be anchored (at the
//! root, at the home directory, at the current directory). Nothing here
//! asks whether a path exists.

pub mod chars;
pub mod classify;
pub mod component;
pub mod environment;
pub mod laws;
pub mod listing;
pub mod native;
pub mod os_path;
pub mod render;
pub mod resolve;
pub mod str_path;
pub mod text;

pub use crate::native::{
    absolute_path_buf, expand_home_dir, expand_home_dir_or_mine, expand_home_dir_with,
    first_subpath_as_string, first_subpath_component, relative_path_buf,
    relative_path_buf_or_mine,
};
pub use crate::os_path::{path_to_string, path_to_string_checked};
pub use crate::text::{dir_path_text, file_name_text, split_path_text, MAIN_SEPARATOR};
