//! Persistence format and flash layout for the pointing-device settings of a
//! keyboard, and the page plan of its reset firmware.

pub mod pointing_slots;
pub mod reset;
pub mod keymap;
