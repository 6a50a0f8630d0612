//! Classification of LaTeX build artifacts and the surrounding
//! scan / select / delete decision logic.
//!
//! The crate decides, from a file's name and kind alone, whether it is a
//! disposable by-product of a LaTeX compilation; collects the matching
//! paths from a depth-bounded directory walk; and turns the user's
//! selection, confirmation and dry-run choice into a deletion plan.

pub mod classify;
pub mod flow;
pub mod scan;
