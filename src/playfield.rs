//! The rectangle that bounds the game, and the error for malformed input.
use vstd::prelude::*;
use crate::{MAX_EXTENT, PADDLE_HEIGHT};

verus! {

/// Why a value handed to the simulation was refused.
#[derive(Clone, Copy, Debug, PartialEq, Eq, Structural)]
pub enum InvalidInputError {
    /// The playfield is not wide enough, not tall enough for a paddle, or too large.
    PlayfieldOutOfRange,
    /// A velocity component exceeds the largest magnitude the simulation handles.
    VelocityOutOfRange,
}

/// Size of the playfield, with its origin at the top-left corner and `y` growing downward.
#[derive(Clone, Copy, Debug, PartialEq, Eq, Structural)]
pub struct Playfield {
    pub width: i64,
    pub height: i64,
}

impl Playfield {
    /// A playfield has some width, room for a paddle's full height, and neither
    /// extent beyond the largest one handled.
    pub open spec fn wf(self) -> bool {
        0 < self.width <= MAX_EXTENT && PADDLE_HEIGHT <= self.height <= MAX_EXTENT
    }

    pub fn is_valid(&self) -> (r: bool)
        ensures
            r == self.wf(),
    {
        0 < self.width && self.width <= MAX_EXTENT && PADDLE_HEIGHT <= self.height
            && self.height <= MAX_EXTENT
    }

    pub fn new(width: i64, height: i64) -> (r: Result<Playfield, InvalidInputError>)
        ensures
            r.is_ok() <==> (Playfield { width, height }).wf(),
            r matches Ok(p) ==> p.width == width && p.height == height,
            r matches Err(e) ==> e == InvalidInputError::PlayfieldOutOfRange,
    {
        let p = Playfield { width, height };
        if p.is_valid() {
            Ok(p)
        } else {
            Err(InvalidInputError::PlayfieldOutOfRange)
        }
    }
}

} // verus!
