//! A small query language over structured record headers.
//!
//! Four layers, bottom to top: the grammar and its parser (`grammar`),
//! the value and selector model (`header`), the typed comparator
//! (`comparator`), and the query evaluator (`evaluator`).  A caller
//! parses a query string once into a `Query` and then applies it,
//! read-only, to one record header after another; `Query::filter` yields
//! the record's admit/reject verdict or the error that aborted the
//! evaluation.
//!
//! Around the language stand small pieces of the surrounding system that
//! carry their own contracts: a filter over store identifiers
//! (`id_filters`), the builder of a new calendar (`calendar`), the
//! configuration of a link processor (`processor`), and the record
//! store's error type (`store_error`).
#![verifier::loop_isolation(false)]

pub mod ast;
pub mod calendar;
pub mod comparator;
pub mod evaluator;
pub mod grammar;
pub mod header;
pub mod id_filters;
pub mod processor;
pub mod store_error;
pub mod text;

pub use ast::Query;
pub use evaluator::evaluate;
pub use grammar::parse;
pub use grammar::ParseError;
pub use header::EvalError;
pub use header::HeaderValue;

