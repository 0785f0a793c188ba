pub mod error;
pub mod parser;
pub mod reader;
pub mod vendors;
pub mod weight;

pub use reader::{ScaleReading, ScaleStatus};
