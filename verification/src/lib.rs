//! Counting bytes, characters, words and lines of a text, with every count
//! stated over the text as a sequence of characters and proved.

pub mod config;
pub mod counter;
pub mod laws;
pub mod report;
pub mod scan;
pub mod text;

pub use config::{Config, CountType, Request};
pub use counter::Counter;
