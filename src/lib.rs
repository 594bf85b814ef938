pub mod plot;
pub mod property;
pub mod render;
