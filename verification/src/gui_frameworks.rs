//! One module per toolkit: the state each front end keeps and the window it asks for.

pub mod egui;
pub mod slint;
