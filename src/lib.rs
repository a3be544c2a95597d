//! Parallel export of a search query's full result set: the query is split
//! into slices, each slice is paged through with a scroll cursor, and every
//! page is funnelled to one writer of newline-delimited documents.
//!
//! The network, the output file, the threads and the progress display stay
//! with the caller; this crate decides what to send, what a response means,
//! when a slice is done and what is written.

pub mod cmd;
pub mod error;
pub mod fanin;
pub mod json;
pub mod plan;
pub mod protocol;
pub mod text;
pub mod worker;
