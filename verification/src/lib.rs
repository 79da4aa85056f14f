//! A single-writer, single-reader FIFO hand-off queue built from linked nodes.

pub mod laws;
pub mod model;
pub mod node;
pub mod pipe;
pub mod reader_list;
pub mod writer_list;
