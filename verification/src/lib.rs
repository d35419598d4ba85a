//! Verified core of a desktop notes display: the filter that turns an
//! Obsidian TODO note into the text the display shows, the display's
//! framebuffer, and the decisions of the device's network tasks.
pub mod chars;
pub mod lines;
pub mod links;
pub mod markdown;
pub mod todo;
pub mod display;
pub mod config;
pub mod example_config;
pub mod firmware;
pub mod page_laws;
