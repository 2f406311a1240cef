//! What the terminal user interface shows and how it reacts to keys. The
//! drawing itself is the application's.

pub mod components;
