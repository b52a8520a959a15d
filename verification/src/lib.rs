pub mod controller;
pub mod document;
pub mod viewport;
pub mod wrap;
