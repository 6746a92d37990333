//! Presentation logic of a battery and brightness panel applet: how raw
//! readings become icon names and short texts, and how the applet's state
//! answers each message.
//!
//! All quantities are whole numbers. Battery charge is in whole percent,
//! brightness in thousandths of full brightness, time in whole seconds.
//! Nothing here talks to a device or a toolkit: the applet says what is to be
//! done, and its caller does it.

pub mod applet;
pub mod battery;
pub mod brightness;
pub mod duration;
pub mod text;
