//! The coordinates of a location in variation space.
use vstd::prelude::*;

use smallvec::SmallVec;

use crate::glyph::NormalizedCoord;

verus! {

/// Maximum number of coordinates to store inline before spilling to the heap.
///
/// Any value between 5 and 11 yields a `SmallVec` footprint of 32 bytes.
pub const MAX_INLINE_COORDS: usize = 11;

/// A list of coordinates, in axis order, in a `smallvec::SmallVec`.
#[verifier::external_body]
#[derive(Debug)]
pub struct Coords {
    list: SmallVec<[NormalizedCoord; MAX_INLINE_COORDS]>,
}

/// What a list of coordinates holds.
pub uninterp spec fn coords_list(coords: Coords) -> Seq<NormalizedCoord>;

impl View for Coords {
    type V = Seq<NormalizedCoord>;

    open spec fn view(&self) -> Seq<NormalizedCoord> {
        coords_list(*self)
    }
}

impl Coords {
    /// `SmallVec::new`: an empty list.
    #[verifier::external_body]
    pub(crate) fn new() -> (coords: Self)
        ensures
            coords_list(coords) == Seq::<NormalizedCoord>::empty(),
    {
        Coords { list: SmallVec::new() }
    }

    /// `SmallVec::clear`: removes every coordinate.
    #[verifier::external_body]
    pub(crate) fn clear(&mut self)
        ensures
            coords_list(*final(self)) == Seq::<NormalizedCoord>::empty(),
    {
        self.list.clear()
    }

    /// `SmallVec::resize`: cuts the list to `len` coordinates, or fills it up to that many with
    /// `value`. It panics where the memory for the list cannot be addressed, which a number of axes is
    /// too small for.
    #[verifier::external_body]
    pub(crate) fn resize(&mut self, len: usize, value: NormalizedCoord)
        requires
            len <= u16::MAX,
        ensures
            coords_list(*final(self)) == Seq::new(
                len as nat,
                |i: int|
                    if i < coords_list(*old(self)).len() {
                        coords_list(*old(self))[i]
                    } else {
                        value
                    },
            ),
    {
        self.list.resize(len, value)
    }

    /// `SmallVec::extend`: appends the given coordinates. It panics where the memory for the list
    /// cannot be addressed, which a number of axes is too small for.
    #[verifier::external_body]
    pub(crate) fn extend(&mut self, coords: &[NormalizedCoord])
        requires
            coords_list(*old(self)).len() + coords@.len() <= u16::MAX,
        ensures
            coords_list(*final(self)) == coords_list(*old(self)) + coords@,
    {
        self.list.extend(coords.iter().copied())
    }

    /// `SmallVec::as_slice`: the coordinates as a slice.
    #[verifier::external_body]
    pub(crate) fn as_slice(&self) -> (slice: &[NormalizedCoord])
        ensures
            slice@ == coords_list(*self),
    {
        self.list.as_slice()
    }

    /// `SmallVec::as_mut_slice`: the coordinates as a slice that can be written to.
    #[verifier::external_body]
    pub(crate) fn as_mut_slice(&mut self) -> (slice: &mut [NormalizedCoord])
        ensures
            slice@ == coords_list(*old(self)),
            coords_list(*final(self)) == final(slice)@,
    {
        self.list.as_mut_slice()
    }
}

impl Clone for Coords {
    /// `SmallVec::clone`: a list with the same coordinates.
    #[verifier::external_body]
    fn clone(&self) -> (coords: Self)
        ensures
            coords_list(coords) == coords_list(*self),
    {
        Coords { list: self.list.clone() }
    }
}

} // verus!
