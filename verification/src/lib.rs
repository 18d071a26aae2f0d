//! kuro: a static-site generator for a personal website and blog, with its rules verified.
pub mod cli;
pub mod laws;
pub mod order;
pub mod paths;
pub mod project;
pub mod render;
pub mod scaffold;
pub mod serve;
pub mod site;
pub mod text;
pub mod types;
pub mod utils;
