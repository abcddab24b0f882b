//! The Metal text of each part of a module, and what the module must hold for it to have one.

pub mod agreement;
pub mod constant;
pub mod expression;
pub mod function;
pub mod statement;
pub mod type_def;
