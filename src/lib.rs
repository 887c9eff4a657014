//! An interactive, in-memory expense ledger: named amounts that a user views,
//! adds, removes and edits through a text menu.
//!
//! The ledger and the menu's decisions are verified here. Reading lines,
//! parsing amounts and printing are left to the program that drives a
//! [`session::Session`].

pub mod laws;
pub mod ledger;
pub mod session;
pub mod text;

