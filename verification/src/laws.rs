//! What the library promises, stated over what goes in and what comes out.

pub mod command;
pub mod size;
pub mod status;
pub mod text;
pub mod tree;
