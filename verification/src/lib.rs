pub mod engine;
pub mod outside;
pub mod scan;
pub mod template;
pub mod types;
