//! Front end of a binding generator: the grammar of its options, the
//! parser for link directives, the choice of the output sink and the
//! decisions that turn each outcome of a run into an exit status.

pub mod text;
pub mod link;
pub mod output;
pub mod config;
pub mod driver;
