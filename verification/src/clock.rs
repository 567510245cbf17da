//! The analog clock face: what the cursor points at, and what is being
//! dragged.

use vstd::prelude::*;

verus! {

/// The hand of the clock that the cursor drags.
#[derive(Copy, Clone, Debug, PartialEq, Eq, Structural)]
pub enum ClockDragged {
    /// No hand is dragged.
    Nothing,
    /// The hour hand is dragged.
    Hour,
    /// The minute hand is dragged.
    Minute,
    /// The second hand is dragged.
    Second,
}

/// The ring of the clock face that lies nearest to the cursor.
#[derive(Copy, Clone, Debug, PartialEq, Eq, Structural)]
pub enum NearestRadius {
    /// No ring.
    Nothing,
    /// The centre, which shows the period.
    Period,
    /// The ring of the hours.
    Hour,
    /// The ring of the minutes.
    Minute,
    /// The ring of the seconds.
    Second,
}

/// Where the cursor is on the clock face: the nearest ring, and on each ring
/// the mark that lies nearest. Marks count clockwise from the top.
#[derive(Copy, Clone, Debug, PartialEq, Eq, Structural)]
pub struct ClockHit {
    /// The ring nearest to the cursor.
    pub nearest_radius: NearestRadius,
    /// The nearest of the 12 hour marks.
    pub hour: u32,
    /// The nearest of the 60 minute marks.
    pub minute: u32,
    /// The nearest of the 60 second marks.
    pub second: u32,
}

impl ClockHit {
    /// Each mark is one of its ring.
    pub open spec fn wf(self) -> bool {
        &&& self.hour < 12
        &&& self.minute < 60
        &&& self.second < 60
    }

    /// A hit with the given ring and marks, if each mark is one of its ring.
    pub fn new(nearest_radius: NearestRadius, hour: u32, minute: u32, second: u32) -> (res: Option<
        ClockHit,
    >)
        ensures
            res == (if hour < 12 && minute < 60 && second < 60 {
                Some(ClockHit { nearest_radius, hour, minute, second })
            } else {
                None
            }),
    {
        if hour < 12 && minute < 60 && second < 60 {
            Some(ClockHit { nearest_radius, hour, minute, second })
        } else {
            None
        }
    }
}

} // verus!
