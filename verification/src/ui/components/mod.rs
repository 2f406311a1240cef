//! The parts of the main view.

pub mod help_msg;
pub mod input_panel;
pub mod main_view;
pub mod messages_panel;
