//! The digital clock: a row of spinners below the clock face.

use vstd::prelude::*;

verus! {

/// Where the cursor is on one spinner of the digital clock.
#[derive(Copy, Clone, Debug, PartialEq, Eq, Structural)]
pub struct SpinnerHit {
    /// The cursor is within the spinner.
    pub inside: bool,
    /// The cursor is on the arrow that points up.
    pub up: bool,
    /// The cursor is on the arrow that points down.
    pub down: bool,
}

/// Where the cursor is on the digital clock.
#[derive(Copy, Clone, Debug, PartialEq, Eq, Structural)]
pub struct DigitalHit {
    /// The spinner of the hours.
    pub hour: SpinnerHit,
    /// The spinner of the minutes.
    pub minute: SpinnerHit,
    /// The spinner of the seconds. It counts only while seconds are shown.
    pub second: SpinnerHit,
}

impl DigitalHit {
    /// The cursor is in one spinner at most, as it is where the spinners do
    /// not overlap.
    pub open spec fn apart(self) -> bool {
        &&& !(self.hour.inside && self.minute.inside)
        &&& !(self.hour.inside && self.second.inside)
        &&& !(self.minute.inside && self.second.inside)
    }
}

/// A column of the digital clock's row.
#[derive(Copy, Clone, Debug, PartialEq, Eq, Structural)]
pub enum DigitalColumn {
    /// Room for the period, at either end of a twelve-hour clock.
    Period,
    /// The spinner of the hours.
    Hour,
    /// A colon between two spinners.
    Separator,
    /// The spinner of the minutes.
    Minute,
    /// The spinner of the seconds.
    Second,
}

/// The columns of the digital clock from left to right: hours and minutes
/// with a colon between them, then a colon and the seconds where seconds are
/// shown, all of it between two columns for the period on a twelve-hour clock.
pub open spec fn spec_columns(use_24h: bool, show_seconds: bool) -> Seq<DigitalColumn> {
    let period = if use_24h {
        Seq::<DigitalColumn>::empty()
    } else {
        seq![DigitalColumn::Period]
    };
    let seconds = if show_seconds {
        seq![DigitalColumn::Separator, DigitalColumn::Second]
    } else {
        Seq::<DigitalColumn>::empty()
    };
    period + seq![DigitalColumn::Hour, DigitalColumn::Separator, DigitalColumn::Minute] + seconds
        + period
}

/// The columns of the digital clock, from left to right.
pub fn columns(use_24h: bool, show_seconds: bool) -> (res: Vec<DigitalColumn>)
    ensures
        res@ == spec_columns(use_24h, show_seconds),
{
    let mut row: Vec<DigitalColumn> = Vec::new();
    if !use_24h {
        row.push(DigitalColumn::Period);
    }
    row.push(DigitalColumn::Hour);
    row.push(DigitalColumn::Separator);
    row.push(DigitalColumn::Minute);
    if show_seconds {
        row.push(DigitalColumn::Separator);
        row.push(DigitalColumn::Second);
    }
    if !use_24h {
        row.push(DigitalColumn::Period);
    }
    assert(row@ =~= spec_columns(use_24h, show_seconds));
    row
}

/// The place of a spinner in the row of the digital clock: how many columns
/// stand to its left. `None` for a column that the row does not hold.
pub fn position(use_24h: bool, show_seconds: bool, column: DigitalColumn) -> (res: Option<usize>)
    ensures
        res matches Some(i) ==> {
            &&& i < spec_columns(use_24h, show_seconds).len()
            &&& spec_columns(use_24h, show_seconds)[i as int] == column
            &&& forall|j: int| 0 <= j < i ==> spec_columns(use_24h, show_seconds)[j] != column
        },
        res is None <==> !spec_columns(use_24h, show_seconds).contains(column),
{
    let row = columns(use_24h, show_seconds);
    let mut i: usize = 0;
    while i < row.len()
        invariant
            i <= row.len(),
            row@ == spec_columns(use_24h, show_seconds),
            forall|j: int| 0 <= j < i ==> row@[j] != column,
        decreases row.len() - i,
    {
        if row[i] == column {
            return Some(i);
        }
        i += 1;
    }
    None
}

} // verus!
