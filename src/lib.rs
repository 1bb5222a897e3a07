//! Argument resolution for a crate-cloning command: crate specifiers, source
//! selection, destination placement and the mapping of outcomes to exit codes.
pub mod specifier;
pub mod request;
pub mod outcome;
