//! Lexical environments and arity-based function dispatch for a small
//! Lisp-like runtime.
//!
//! An [`env::Env`] is one scope in a chain of nested scopes. Each scope binds
//! names to plain values or to overloaded functions, and looking a name up
//! walks outward through the enclosing scopes. An overloaded function is an
//! [`env::Func`]: a table from declared arity to implementation, resolved by
//! the arity of a call with a variadic entry as the fallback.
pub mod errors;
pub mod types;
pub mod env;
pub mod stdlib;
