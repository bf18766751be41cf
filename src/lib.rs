pub mod checker;
pub mod config;
pub mod json;
pub mod laws;
pub mod model;
pub mod pool;
pub mod report;
pub mod text;
