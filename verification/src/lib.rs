//! Instrumentation of a program's syntax tree with cross-checks.
//!
//! A cross-check is a content hash emitted at run time at a chosen program
//! point: function entry and exit, arguments, return values and the values of
//! aggregates. Two implementations of one program that emit the same sequence
//! of cross-checks behave alike at those points.
//!
//! The library resolves, scope by scope, which checks are wanted
//! ([`config`], [`attr`], [`external`], [`scope`]), rewrites a syntax tree
//! ([`tree`]) accordingly ([`checker`]), and recovers the configuration of
//! nodes that reach it out of their lexical context ([`span`],
//! [`expander`]).
//!
//! What rewriting yields is defined in [`rewrite`], on the views of the
//! tree and of the engine; the functions of [`checker`] are proved to
//! compute it. [`laws`] holds what follows for the library as a whole, and
//! [`erasure`] the proof that instrumentation only adds to a program.

pub mod attr;
pub mod checker;
pub mod config;
pub mod directive;
pub mod erasure;
pub mod error;
pub mod expander;
pub mod external;
pub mod laws;
pub mod rewrite;
pub mod scope;
pub mod span;
pub mod text;
pub mod tree;
