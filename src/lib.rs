//! Link resolution and relationship expansion over collected Active Directory objects.

pub mod text;
pub mod table;
pub mod objects;
pub mod sid;
pub mod builtins;
pub mod checker;
pub mod containment;
pub mod parse;
