//! Laws of the text that the writer produces.

pub mod constant;
pub mod declaration;
pub mod definition;
pub mod depth;
pub mod expression;
pub mod function;
pub mod layout;
pub mod model;
pub mod nesting;
pub mod numeral;
pub mod operation;
pub mod order;
pub mod repetition;
pub mod sequence;
pub mod statement;
pub mod words;
