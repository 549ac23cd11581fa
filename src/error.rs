use vstd::prelude::*;

verus! {

/// Why a tile or a tileset could not be decoded.
#[derive(Debug, Clone, Copy)]
pub enum Error {
    /// The version field holds a version other than 1.
    Version(u32),
    /// The first four bytes are not the signature of the expected format.
    Magic([u8; 4]),
    /// A JSON section is not valid JSON, or does not have the expected shape.
    Json,
    /// An instanced model's glTF format is neither 0 (a URI) nor 1 (binary glTF).
    GltfFormat(u32),
    /// A point cloud gives its positions only quantized, not as floats.
    QuantizedPositions,
    /// A declared length reaches past the end of the available bytes.
    Truncated,
    /// No tile of the tileset carries content.
    MissingContent,
    /// A nested tileset refers back to a tileset already being resolved.
    Cycle,
}

} // verus!
