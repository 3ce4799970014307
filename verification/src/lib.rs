//! Integer core of a regional forecast grid laid out by a Lambert conformal
//! conic projection with standard parallels 30N and 60N, reference point
//! (126E, 38N), and 5 km cells. The projection's trigonometry is carried out
//! by the caller in floating point; this crate owns everything the grid
//! decides on plain integers: which cells exist, how a rounded projected
//! point becomes a cell, the signed offsets a cell has from the reference
//! cell, and which geographic inputs the projection accepts at all.

use vstd::prelude::*;

verus! {

/// Grid index of the reference cell along x: (126E, 38N) maps here.
pub const REFERENCE_X: u8 = 43;
/// Grid index of the reference cell along y: (126E, 38N) maps here.
pub const REFERENCE_Y: u8 = 136;
/// Largest valid x index of the regional grid.
pub const MAX_X: u8 = 149;
/// Largest valid y index of the regional grid.
pub const MAX_Y: u8 = 253;

/// Largest latitude magnitude the projection accepts, in microdegrees
/// (90 degrees: the poles).
pub const LATITUDE_LIMIT_MICRODEG: i64 = 90_000_000;
/// The reference meridian of the projection, in microdegrees (126 degrees
/// east).
pub const REFERENCE_LONGITUDE_MICRODEG: i64 = 126_000_000;
/// Largest accepted longitude distance from the reference meridian, in
/// microdegrees. The projection normalizes a longitude by at most one full
/// turn, so it is defined up to 540 degrees (180 plus one turn) away from
/// the reference meridian; anything farther is refused rather than projected
/// to a wrong cell.
pub const MAX_LONGITUDE_OFFSET_MICRODEG: i64 = 540_000_000;

/// The valid index ranges of the regional grid.
pub open spec fn grid_in_bounds(x: int, y: int) -> bool {
    0 <= x <= MAX_X as int && 0 <= y <= MAX_Y as int
}

/// The geographic inputs, in microdegrees, on which the projection is
/// defined: latitude within the poles, longitude within one normalization
/// step of the reference meridian.
pub open spec fn geographic_in_range(longitude_microdeg: int, latitude_microdeg: int) -> bool {
    &&& -(LATITUDE_LIMIT_MICRODEG as int) <= latitude_microdeg <= LATITUDE_LIMIT_MICRODEG as int
    &&& REFERENCE_LONGITUDE_MICRODEG as int - MAX_LONGITUDE_OFFSET_MICRODEG as int
        <= longitude_microdeg
        <= REFERENCE_LONGITUDE_MICRODEG as int + MAX_LONGITUDE_OFFSET_MICRODEG as int
}

/// Guards the forward projection: accepts a geographic point, given in
/// microdegrees, exactly when it lies in the range the projection is defined
/// on, and reports `OutOfRange` otherwise instead of letting an invalid
/// input reach the projection and come back as a silently wrong cell.
pub fn validate_geographic(longitude_microdeg: i64, latitude_microdeg: i64) -> (r: Result<
    (),
    GridError,
>)
    ensures
        r is Ok <==> geographic_in_range(longitude_microdeg as int, latitude_microdeg as int),
        r matches Err(e) ==> e == GridError::OutOfRange,
{
    if latitude_microdeg < -LATITUDE_LIMIT_MICRODEG || latitude_microdeg > LATITUDE_LIMIT_MICRODEG {
        return Err(GridError::OutOfRange);
    }
    if longitude_microdeg < REFERENCE_LONGITUDE_MICRODEG - MAX_LONGITUDE_OFFSET_MICRODEG
        || longitude_microdeg > REFERENCE_LONGITUDE_MICRODEG + MAX_LONGITUDE_OFFSET_MICRODEG {
        return Err(GridError::OutOfRange);
    }
    Ok(())
}

/// Why a conversion was refused.
#[derive(Clone, Copy, Debug, PartialEq, Eq, Structural)]
pub enum GridError {
    /// A geographic input lies outside the range the projection accepts.
    OutOfRange,
    /// A projected point falls outside the regional grid.
    GridCoordinateOutOfBounds,
    /// The inverse projection was asked about the degenerate point at the
    /// cone's apex, where no longitude is defined.
    DegenerateInverse,
}

/// One cell of the regional grid: an immutable pair of bounded indices.
/// Its view is the mathematical index pair `(x, y)`.
#[derive(Clone, Copy, Debug, PartialEq, Eq, Structural)]
pub struct KmaGrid {
    x: u8,
    y: u8,
}

impl View for KmaGrid {
    type V = (int, int);

    closed spec fn view(&self) -> (int, int) {
        (self.x as int, self.y as int)
    }
}

impl KmaGrid {
    #[verifier::type_invariant]
    spec fn inv(self) -> bool {
        grid_in_bounds(self.x as int, self.y as int)
    }

    /// Builds the cell with indices `(x, y)`, refusing indices outside the
    /// regional grid.
    pub fn new(x: u8, y: u8) -> (r: Result<KmaGrid, GridError>)
        ensures
            r is Ok <==> grid_in_bounds(x as int, y as int),
            r matches Ok(g) ==> g@ == (x as int, y as int),
            r matches Err(e) ==> e == GridError::GridCoordinateOutOfBounds,
    {
        if x <= MAX_X && y <= MAX_Y {
            Ok(KmaGrid { x, y })
        } else {
            Err(GridError::GridCoordinateOutOfBounds)
        }
    }

    /// Discretization step of the forward projection: turns an already
    /// rounded planar coordinate pair into a cell, refusing any point that
    /// falls outside the regional grid instead of narrowing silently.
    pub fn from_rounded(x: i64, y: i64) -> (r: Result<KmaGrid, GridError>)
        ensures
            r is Ok <==> grid_in_bounds(x as int, y as int),
            r matches Ok(g) ==> g@ == (x as int, y as int),
            r matches Err(e) ==> e == GridError::GridCoordinateOutOfBounds,
    {
        if 0 <= x && x <= MAX_X as i64 && 0 <= y && y <= MAX_Y as i64 {
            Ok(KmaGrid { x: x as u8, y: y as u8 })
        } else {
            Err(GridError::GridCoordinateOutOfBounds)
        }
    }

    /// The x index of the cell.
    pub fn x(&self) -> (r: u8)
        ensures
            r as int == self@.0,
            r <= MAX_X,
    {
        proof {
            use_type_invariant(&*self);
        }
        self.x
    }

    /// The y index of the cell.
    pub fn y(&self) -> (r: u8)
        ensures
            r as int == self@.1,
            r <= MAX_Y,
    {
        proof {
            use_type_invariant(&*self);
        }
        self.y
    }

    /// Signed offsets of this cell from the reference cell, the planar pair
    /// the inverse projection starts from. The subtraction is done in a
    /// signed domain, so cells on the low side of the reference cell give
    /// negative offsets rather than wrapping.
    pub fn offsets(&self) -> (r: (i64, i64))
        ensures
            r.0 == self@.0 - REFERENCE_X as int,
            r.1 == self@.1 - REFERENCE_Y as int,
            -(REFERENCE_X as int) <= r.0 <= MAX_X as int - REFERENCE_X as int,
            -(REFERENCE_Y as int) <= r.1 <= MAX_Y as int - REFERENCE_Y as int,
    {
        proof {
            use_type_invariant(&*self);
        }
        ((self.x as i64) - (REFERENCE_X as i64), (self.y as i64) - (REFERENCE_Y as i64))
    }
}

/// The index pair determines the cell: two cells with equal views are the
/// same cell, so a cell survives the round trip through its indices or its
/// signed offsets unchanged.
pub proof fn lemma_indices_determine_cell(a: KmaGrid, b: KmaGrid)
    requires
        a@ == b@,
    ensures
        a == b,
{
}

} // verus!
