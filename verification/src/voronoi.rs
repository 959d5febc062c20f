//! The bounded Voronoi pipeline: validation, deduplication, sizing data for
//! the external tessellation engine, and the per-cell clipping decisions.
//!
//! The external engine receives the deduplicated sites and an enclosing
//! axis-aligned region derived from two extent summaries; it returns one
//! finite polygon per site.  The geometry engine then intersects each such
//! polygon with the bounding silhouette recentred on the cell's site, and
//! reports the resulting regions together with one containment test per
//! region.  Everything decided on those results — which region is kept, when
//! the pipeline fails, in what order cells are emitted — is verified here.

use vstd::prelude::*;

use crate::errors::GeometryError;
use crate::input::{
    pairs_of_points, point_set_bounds, polygon_bounds, unique_points, BoundaryPolygon,
    BoundedPointSet, Bounds,
};

verus! {

/// Everything the external tessellation engine is to be called with: the
/// deduplicated sites, the bounding silhouette, and the extent summaries of
/// both, from which the caller sizes the enclosing axis-aligned region
/// (point-set extent plus bound extent per axis, centred on the point set's
/// centre).  The engine must not relax the sites: relaxation would silently
/// move them off their input coordinates.
#[derive(Clone, Debug, PartialEq)]
pub struct TessellationRequest {
    /// The deduplicated sites, in order of first appearance.
    pub sites: Vec<(u64, u64)>,
    /// The validated bounding silhouette.
    pub bound: BoundaryPolygon,
    /// The extent summary of the bounding silhouette.
    pub bound_extent: Bounds,
    /// The extent summary of the deduplicated point set.
    pub site_extent: Bounds,
}

/// What `prepare_tessellation` promises: the boundary and the point set are
/// validated in that order, and a successful request carries exactly the
/// deduplicated sites, the ring, and the two extent summaries.
pub open spec fn prepare_post(
    input: BoundedPointSet,
    r: Result<TessellationRequest, GeometryError>,
) -> bool {
    &&& input.bound@.len() < 3 ==> r == Err::<TessellationRequest, GeometryError>(
        GeometryError::InsufficientBoundaryPoints,
    )
    &&& (input.bound@.len() >= 3 && unique_points(input.point_set@).len() == 0) ==> r == Err::<
        TessellationRequest,
        GeometryError,
    >(GeometryError::InsufficientPoints)
    &&& (input.bound@.len() >= 3 && unique_points(input.point_set@).len() > 0) ==> (r matches Ok(t)
        && t.sites@ == pairs_of_points(unique_points(input.point_set@)) && t.bound.ring@
        == input.bound@ && polygon_bounds(input.bound@) == Some(t.bound_extent)
        && point_set_bounds(unique_points(input.point_set@)) == Some(t.site_extent))
}

/// Validates a raw input record and assembles the call data for the
/// external tessellation engine.
///
/// Fails with `InsufficientBoundaryPoints` when the boundary ring has fewer
/// than three points, and with `InsufficientPoints` when the deduplicated,
/// validated point set is empty; otherwise the request holds the sites in
/// order of first appearance together with both extent summaries.
pub fn prepare_tessellation(input: &BoundedPointSet) -> (r: Result<
    TessellationRequest,
    GeometryError,
>)
    ensures
        prepare_post(*input, r),
{
    let bound = match input.bounding_polygon() {
        Ok(bound) => bound,
        Err(e) => {
            return Err(e);
        },
    };
    let bound_extent = match Bounds::from_polygon(&bound.ring) {
        Some(extent) => extent,
        None => {
            return Err(GeometryError::InvalidBoundingRegion);
        },
    };
    let points = input.point_set();
    let site_extent = match Bounds::from_point_set(&points) {
        Some(extent) => extent,
        None => {
            return Err(GeometryError::InsufficientPoints);
        },
    };
    let sites = input.voronoi_point_set();
    Ok(TessellationRequest { sites, bound, bound_extent, site_extent })
}

/// Idempotence of the preparation stage: the request is a function of the
/// input value alone, so two runs on one record agree in every observable
/// part.  (The tessellation engine itself must equally be run without
/// relaxation for the whole pipeline to repeat itself.)
pub proof fn lemma_prepare_deterministic(
    input: BoundedPointSet,
    r1: Result<TessellationRequest, GeometryError>,
    r2: Result<TessellationRequest, GeometryError>,
)
    requires
        prepare_post(input, r1),
        prepare_post(input, r2),
    ensures
        r1 is Ok <==> r2 is Ok,
        r1 matches Err(e1) ==> (r2 matches Err(e2) ==> e1 == e2),
        r1 matches Ok(t1) ==> (r2 matches Ok(t2) ==> (t1.sites@ == t2.sites@ && t1.bound.ring@
            == t2.bound.ring@ && t1.bound_extent == t2.bound_extent && t1.site_extent
            == t2.site_extent)),
{
}

/// Count invariant: when preparation succeeds, the engine answers with one
/// raw cell per site, and every per-cell clipping succeeds, the final
/// diagram has exactly one cell per distinct usable coordinate pair of the
/// raw input — no more, no fewer, whatever the cells hold.
pub proof fn lemma_cell_count(
    input: BoundedPointSet,
    request: TessellationRequest,
    results: Seq<Result<BoundedVoronoiCell, GeometryError>>,
    cells: Seq<BoundedVoronoiCell>,
)
    requires
        prepare_post(input, Ok(request)),
        input.bound@.len() >= 3,
        unique_points(input.point_set@).len() > 0,
        results.len() == request.sites@.len(),
        collected(results) == Ok::<Seq<BoundedVoronoiCell>, GeometryError>(cells),
    ensures
        cells.len() == unique_points(input.point_set@).len(),
{
    lemma_collected_ok_length(results);
}

/// One cell of the final diagram: a site together with the ordered vertices
/// of the polygon that remained after clipping the raw Voronoi cell to the
/// recentred bounding silhouette.  Before clipping, `cell` holds the raw
/// vertices as returned by the tessellation engine.
#[derive(Debug, PartialEq)]
pub struct BoundedVoronoiCell {
    /// The site that owns the cell.
    pub site: (u64, u64),
    /// The ordered vertices of the cell polygon.
    pub cell: Vec<(u64, u64)>,
}

impl BoundedVoronoiCell {
    /// Packs a site and its cell vertices.
    pub fn new(site: (u64, u64), cell: Vec<(u64, u64)>) -> (r: BoundedVoronoiCell)
        ensures
            r.site == site,
            r.cell@ == cell@,
    {
        BoundedVoronoiCell { site, cell }
    }

    /// The site that owns the cell.
    pub fn site(&self) -> (r: (u64, u64))
        ensures
            r == self.site,
    {
        self.site
    }

    /// The ordered vertices of the cell polygon.
    pub fn cell(&self) -> (r: &Vec<(u64, u64)>)
        ensures
            r@ == self.cell@,
    {
        &self.cell
    }

    /// Resolves the clipping of this cell against the recentred bound.
    ///
    /// `regions` holds the disjoint regions of the intersection of the raw
    /// cell polygon with the recentred bounding polygon, in the order the
    /// geometry engine produced them, each given as the vertices of its
    /// exterior ring alone — interior rings (holes), should the boolean
    /// operation ever produce any, are discarded by the caller and are no
    /// part of the output.  `contains_site` holds, for each region, whether
    /// its interior contains the cell's site.  The first region whose test
    /// held becomes the cell polygon; when no test held the whole pipeline
    /// fails with `NoContainingIntersection`.
    pub fn apply_bound(self, regions: Vec<Vec<(u64, u64)>>, contains_site: &Vec<bool>) -> (r:
        Result<BoundedVoronoiCell, GeometryError>)
        requires
            regions@.len() == contains_site@.len(),
        ensures
            r matches Ok(c) ==> c.site == self.site,
            r matches Ok(c) ==> exists|i: int|
                0 <= i < contains_site@.len() && #[trigger] contains_site@[i] && (forall|j: int|
                    0 <= j < i ==> !contains_site@[j]) && c.cell@ == regions@[i]@,
            r is Err <==> (forall|i: int|
                0 <= i < contains_site@.len() ==> !(#[trigger] contains_site@[i])),
            r matches Err(e) ==> e == GeometryError::NoContainingIntersection,
    {
        let mut pool = regions;
        let mut i: usize = 0;
        while i < contains_site.len()
            invariant
                0 <= i <= contains_site@.len(),
                pool@ == regions@,
                regions@.len() == contains_site@.len(),
                forall|j: int| 0 <= j < i ==> !(#[trigger] contains_site@[j]),
            decreases contains_site@.len() - i,
        {
            if contains_site[i] {
                let chosen: Vec<(u64, u64)> = pool.swap_remove(i);
                proof {
                    assert(chosen == regions@[i as int]);
                    assert(exists|k: int|
                        0 <= k < contains_site@.len() && #[trigger] contains_site@[k] && (forall|
                            j: int,
                        |
                            0 <= j < k ==> !contains_site@[j]) && chosen@ == regions@[k]@) by {
                        assert(contains_site@[i as int] && (forall|j: int|
                            0 <= j < i ==> !contains_site@[j]) && chosen@ == regions@[i as int]@);
                    }
                }
                return Ok(BoundedVoronoiCell { site: self.site, cell: chosen });
            }
            i = i + 1;
        }
        Err(GeometryError::NoContainingIntersection)
    }
}

/// The outcome of folding per-cell clipping results in engine order: the
/// cells of every result up to the first failure, or that first failure.
pub open spec fn collected(results: Seq<Result<BoundedVoronoiCell, GeometryError>>) -> Result<
    Seq<BoundedVoronoiCell>,
    GeometryError,
>
    decreases results.len(),
{
    if results.len() == 0 {
        Ok(Seq::empty())
    } else {
        match collected(results.drop_last()) {
            Ok(cells) => match results.last() {
                Ok(c) => Ok(cells.push(c)),
                Err(e) => Err(e),
            },
            Err(e) => Err(e),
        }
    }
}

/// A failure among the first `i` results decides the whole fold.
proof fn lemma_collected_err_persists(
    results: Seq<Result<BoundedVoronoiCell, GeometryError>>,
    i: int,
)
    requires
        0 <= i <= results.len(),
        collected(results.take(i)) is Err,
    ensures
        collected(results) == collected(results.take(i)),
    decreases results.len() - i,
{
    if i < results.len() {
        assert(results.take(i + 1).drop_last() =~= results.take(i));
        lemma_collected_err_persists(results, i + 1);
    } else {
        assert(results.take(i) =~= results);
    }
}

/// A successful fold has exactly one cell per result.
pub proof fn lemma_collected_ok_length(results: Seq<Result<BoundedVoronoiCell, GeometryError>>)
    requires
        collected(results) is Ok,
    ensures
        collected(results).unwrap().len() == results.len(),
    decreases results.len(),
{
    if results.len() > 0 {
        lemma_collected_ok_length(results.drop_last());
    }
}

/// Folds the per-cell clipping results in engine order, aborting the whole
/// computation on the first failure; there is no partial output.
pub fn collect_cells(results: Vec<Result<BoundedVoronoiCell, GeometryError>>) -> (r: Result<
    Vec<BoundedVoronoiCell>,
    GeometryError,
>)
    ensures
        collected(results@) matches Ok(cells) ==> (r matches Ok(v) && v@ == cells),
        collected(results@) matches Err(e) ==> r == Err::<Vec<BoundedVoronoiCell>, GeometryError>(
            e,
        ),
{
    let n: usize = results.len();
    let ghost all = results@;
    let mut remaining = results;
    let mut out: Vec<BoundedVoronoiCell> = Vec::new();
    let mut i: usize = 0;
    while i < n
        invariant
            0 <= i <= n,
            n == all.len(),
            all == results@,
            remaining@ =~= all.subrange(i as int, n as int),
            collected(all.take(i as int)) matches Ok(cells) && out@ == cells,
        decreases n - i,
    {
        proof {
            assert(all.take(i + 1).drop_last() =~= all.take(i as int));
            assert(all.take(i + 1).last() == all[i as int]);
        }
        let next: Result<BoundedVoronoiCell, GeometryError> = remaining.remove(0);
        proof {
            assert(next == all.subrange(i as int, n as int)[0]);
            assert(next == all[i as int]);
            assert(remaining@ =~= all.subrange(i + 1, n as int));
        }
        match next {
            Ok(c) => {
                out.push(c);
            },
            Err(e) => {
                proof {
                    assert(collected(all.take(i + 1)) == Err::<
                        Seq<BoundedVoronoiCell>,
                        GeometryError,
                    >(e));
                    lemma_collected_err_persists(all, i + 1);
                }
                return Err(e);
            },
        }
        i = i + 1;
    }
    proof {
        assert(all.take(n as int) =~= all);
    }
    Ok(out)
}

} // verus!
