//! The messages between the keyboard and the editor on the USB serial connection.

pub mod owned;
