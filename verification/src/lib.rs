//! Firmware logic of a split keyboard and its layout editor.

pub mod keys;
pub mod button;
pub mod event;
pub mod keypress_handler;
pub mod rx_buffer;
pub mod usb;
pub mod hemicom;
pub mod uart;
pub mod rgb;
pub mod util;
pub mod layer;
pub mod keyboard;
pub mod editor;
pub mod serial_proto;
pub mod ws2812;
pub mod led;
pub mod atomics;
