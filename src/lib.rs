//! A local vault of credentials: generated passwords, each stored with the
//! site or application it belongs to and the user name there.
//!
//! The library decides; the program around it reads and writes the backing
//! file and talks to the user.
pub mod entry;
pub mod generator;
pub mod numeral;
pub mod prompt;
pub mod text;
pub mod vault;
