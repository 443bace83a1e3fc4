//! Decoding boundary for two binary 3D-scene codecs: a compressed
//! indexed-mesh format and a hierarchical, sector-partitioned scene format.
//!
//! The crate owns the cross-boundary protocol around the codecs: the
//! little-endian flattening of decoded meshes into raw byte buffers, and the
//! root-before-child dependency discipline for sector decoding. The bit-level
//! codec work itself is done by external collaborators.

pub mod encoding;
pub mod error;
pub mod mesh;
pub mod sector;
