//! Decision logic of the coding-assistant status float: which session leads,
//! how a state is coloured and ranked, how the elapsed timer reads, what a
//! frame shows, how the tray dot is drawn and when the tray is refreshed.
//! Window, tray, file and time handling live outside this crate.

pub mod text;
pub mod timer;
pub mod status;
pub mod frame;
pub mod dot;
pub mod tray_memo;
pub mod anim;
pub mod fonts;
pub mod files;
pub mod sprite;
