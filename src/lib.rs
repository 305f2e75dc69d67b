//! Removes Luau type syntax from a parsed program while keeping every other
//! statement, and its formatting, as it was.

pub mod syntax;
pub mod strip;
pub mod source;
