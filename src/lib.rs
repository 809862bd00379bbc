//! Decoder for the graph-tool "gt" binary graph format: compression sniffing
//! and zstd frame reassembly, the header and adjacency parser, the typed
//! property-map decoder, and a read-only query layer over the decoded graph.

pub mod bytes;
pub mod decode;
pub mod error;
pub mod graph;
pub mod graph_file;

pub use error::{Compression, DecodeError};
pub use graph::Graph;
pub use graph_file::GraphFile;
