//! Voronoi partitions of a plane region, where every cell is clipped to a
//! user-supplied bounding polygon recentred on the cell's site.
//!
//! Coordinates are carried throughout as the bit patterns of 64-bit IEEE 754
//! values, so that validation, deduplication, extent computation and the
//! per-cell clipping decisions are exact and fully specified.  The floating
//! point arithmetic itself (translating rings, intersecting polygons, testing
//! containment) is the business of an external geometry engine; the caller
//! feeds its results back into the verified decision functions here.

pub mod arguments;
pub mod errors;
pub mod input;
pub mod voronoi;
