//! A keyboard-driven board of columns and cards: the data model and the
//! cursor that walks and rearranges it.

pub mod model;
pub mod app;
pub mod keys;
pub mod laws;
pub mod screen;
