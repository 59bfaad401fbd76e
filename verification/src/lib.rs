//! Screenshot capture for a small desktop tool, without the desktop.
//!
//! The crate holds every decision the tool takes: which page of its menu is
//! shown after a button press, which display is to be captured, where the
//! picture goes, how a raw frame becomes a PNG file and which notification
//! reports the result. Grabbing the frame, writing the file, showing the
//! notification and drawing the menu are left to the host program, which
//! performs what the functions here return and hands them what happened.

pub mod app;
pub mod bitmap;
pub mod display;
pub mod laws;
pub mod menu;
pub mod outcome;
pub mod save;
pub mod text;
