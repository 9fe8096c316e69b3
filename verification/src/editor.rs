//! The logic of the layout editor program.

pub mod edit_mode;
pub mod mat;
pub mod ron_utils;
pub mod serial;
