pub mod config;
pub mod date;
pub mod due;
pub mod json;
pub mod render;
pub mod task;
pub mod text;
