//! Writes shader modules as Metal Shading Language text.
//!
//! A [`writer::Writer`] appends the text of an [`ir::Module`] to a string. What it appends, and
//! where and how it fails, is stated by the spec functions of [`grammar`]; [`laws`] holds what
//! follows for the text as a whole. `Writer::write` asks that all that the text comes to exists;
//! `Writer::try_write` tells whether it does.

pub mod context;
pub mod decimal;
pub mod emission;
pub mod error;
pub mod grammar;
pub mod interface;
pub mod ir;
pub mod keyword;
pub mod laws;
pub mod options;
pub mod typing;
pub mod writer;
