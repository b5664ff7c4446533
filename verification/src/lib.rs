pub mod clock;
pub mod config;
pub mod json;
pub mod laws;
pub mod notes;
pub mod paths;
pub mod protocol;
pub mod text;
pub mod titles;
