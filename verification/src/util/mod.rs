//! Small helpers shared by the other modules.
pub mod identifier;
pub mod value_struct;
