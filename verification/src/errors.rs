//! The failure taxonomy of the bounded Voronoi pipeline.
//!
//! Every error aborts the whole computation: there is no partial output and
//! no retry.  Individually invalid input coordinates are not an error; they
//! are dropped during validation.

use vstd::prelude::*;

verus! {

/// A fatal failure of the bounded Voronoi pipeline.
#[derive(Clone, Copy, Debug, PartialEq, Eq, Structural)]
pub enum GeometryError {
    /// The boundary ring has fewer than three points.
    InsufficientBoundaryPoints,
    /// A polygon (original or recentred) has no computable bounding rectangle.
    InvalidBoundingRegion,
    /// The deduplicated, validated point set is empty.
    InsufficientPoints,
    /// The external tessellation engine could not build a diagram.
    TessellationFailed,
    /// No intersection region of a cell and the recentred bound contains the
    /// cell's site.
    NoContainingIntersection,
}

impl GeometryError {
    /// A short human-readable account of the failure.
    pub fn message(&self) -> (r: &'static str)
        ensures
            r@.len() > 0,
    {
        match self {
            GeometryError::InsufficientBoundaryPoints => {
                proof {
                    reveal_strlit("At least 3 points are needed to specify a bounding polygon.");
                }
                "At least 3 points are needed to specify a bounding polygon."
            },
            GeometryError::InvalidBoundingRegion => {
                proof {
                    reveal_strlit("The bounding polygon is invalid.");
                }
                "The bounding polygon is invalid."
            },
            GeometryError::InsufficientPoints => {
                proof {
                    reveal_strlit("The point set does not contain enough valid points.");
                }
                "The point set does not contain enough valid points."
            },
            GeometryError::TessellationFailed => {
                proof {
                    reveal_strlit("No Voronoi diagramm could be built for the specified point set.");
                }
                "No Voronoi diagramm could be built for the specified point set."
            },
            GeometryError::NoContainingIntersection => {
                proof {
                    reveal_strlit(
                        "No intersection could be found between the bound and the voronoi cell.",
                    );
                }
                "No intersection could be found between the bound and the voronoi cell."
            },
        }
    }
}

} // verus!
