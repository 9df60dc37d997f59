//! The source that reads a comic site through its query interface.

pub mod parser;
