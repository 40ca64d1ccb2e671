//! Queries against Amazon Athena, without the I/O.
//!
//! Running a query takes three kinds of request: the query is submitted, its
//! status is asked for until it has ended, and its result is read page by
//! page. This library decides; it makes no request itself. A query is a
//! [`athena::Stage`], which says what to ask the service next; the caller
//! asks, and hands the reply to [`athena::Stage::advance`], which gives the
//! next stage or the end of the query. Every decision is a function of the
//! stage and the reply alone, stated over the mathematical values of both
//! and proved.
//!
//! - [`athena`]: the settings, the stages of a query and what holds of
//!   whole conversations with the service;
//! - [`cli`]: what a command-line program decides around its queries;
//! - [`error`]: the errors.

pub mod athena;
pub mod cli;
pub mod error;
