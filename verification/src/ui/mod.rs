pub mod action;
pub mod input;
pub mod render;
pub mod state;
