//! Completion-context resolution for a plain-text ledger grammar.
//!
//! Given the syntactic surroundings of a cursor position, an optional
//! trigger character, an injected current date and a snapshot of known
//! accounts and strings, the library decides which completion strategy
//! applies (date, account, transaction string, or none) and produces the
//! resulting suggestion list.

pub mod date;
pub mod items;
pub mod knowledge;
pub mod locator;
pub mod resolve;
pub mod syntax;
pub mod trigger;
