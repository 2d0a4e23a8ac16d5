//! Helpers for query optimizer rules: taking an expression or a plan node apart into its
//! children, putting it together again around new ones, and collecting the columns that an
//! expression refers to.
pub mod column_laws;
pub mod columns;
pub mod display;
pub mod error;
pub mod expr;
pub mod optimize;
pub mod plan;
pub mod rebuild;
pub mod rebuild_laws;
pub mod rewrite;
pub mod rewrite_laws;
pub mod scalar;
pub mod schema;
pub mod text;
