use vstd::prelude::*;

verus! {

/// A compression container recognised by its leading signature but not decoded.
#[derive(Debug, Clone, Copy, PartialEq, Eq, Structural)]
pub enum Compression {
    Xz,
    Gzip,
    Zip,
}

/// The single error a decode call reports; the first failure met aborts the decode.
#[derive(Debug, Clone, PartialEq, Eq)]
pub enum DecodeError {
    /// A recognised container this decoder does not implement.
    CompressionUnsupported(Compression),
    /// A malformed zstd frame or block; the text is the decoder's own report.
    DecompressionFailed(String),
    /// Short buffer, bad magic, unsupported version or endianness, bad directed flag,
    /// or a header field cut short.
    MalformedHeader,
    /// The adjacency lists are cut short.
    MalformedAdjacency,
    /// A bad map-type, value-type or bool byte, or a cut-short property section.
    MalformedProperty,
}

} // verus!
