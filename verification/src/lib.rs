//! A static-site mirror: pages are copied from a source tree to an output
//! tree, and every inclusion directive found in a markup page is replaced by
//! the fragment it names.
//!
//! The library holds the decisions (which line is a directive, what a page
//! becomes, what happens to each directory entry, when a change event starts
//! a regeneration). Reading and writing the trees is left to the caller.

pub mod diagnostic;
pub mod context;
pub mod directive;
pub mod resolve;
pub mod walk;
pub mod watch;
