//! A typed, memory-safe face for a libclang-style AST inspection library.
//!
//! The native library hands out untyped handles. This crate holds what is read
//! through those handles as plain values and carries the rules that surround
//! the native calls: the per-thread count of library guards, the policy flags
//! of a parsing session, the outcome of loading a compilation database, the
//! ordered arguments of a compile command, the node predicates of a cursor,
//! and the visitor-driven walk over a cursor's descendants.

pub mod clang;
pub mod compilation_database;
pub mod index;
pub mod utility;
