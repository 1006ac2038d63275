//! A string interner with an explicit pool.
//!
//! A [`Pool`] keeps one stored copy of every distinct text that was interned
//! in it and numbers the copies in the order in which they arrived.  A
//! [`Symbol`] is a small, copyable handle to one of these copies: two symbols
//! of one pool are equal exactly when they stand for the same text, and the
//! comparison looks at the handle alone, never at the text.
//!
//! The pool is an ordinary value.  Exclusive access to it while a text is
//! looked up and stored is what `&mut` gives; a program that wants one pool
//! for the whole process keeps it behind a lock of its own.
pub mod laws;
pub mod pool;
pub mod symbol;

pub use crate::pool::intern;
pub use crate::pool::Pool;
pub use crate::symbol::Symbol;
pub use crate::symbol::SymbolView;
