//! A Scheme-flavoured list substrate and, on top of it, a data-directed
//! generic arithmetic: tagged values, a two-key operation table, coercion,
//! a numeric tower and polynomial arithmetic.
pub mod api;
pub mod complex;
pub mod context;
pub mod division;
pub mod each;
pub mod engine;
pub mod error;
pub mod install;
pub mod kernel;
pub mod laws;
pub mod list;
pub mod numbers;
pub mod order;
pub mod poly;
pub mod procedure;
pub mod queue;
pub mod rational;
pub mod reals;
pub mod symbolic;
pub mod table;
pub mod tags;
pub mod terms;
pub mod text;
pub mod value;
