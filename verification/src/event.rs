//! What the overlay is told about an event of the user interface, and what
//! it answers.

use vstd::prelude::*;

verus! {

/// The status of an event after the overlay has seen it.
#[derive(Copy, Clone, Debug, PartialEq, Eq, Structural)]
pub enum Status {
    /// The event was not handled.
    Ignored,
    /// The event was handled.
    Captured,
}

impl Status {
    /// Two statuses as one: captured if either is.
    pub open spec fn spec_merge(self, b: Status) -> Status {
        if self == Status::Captured || b == Status::Captured {
            Status::Captured
        } else {
            Status::Ignored
        }
    }

    /// Merges two statuses into one. `Captured` takes precedence over
    /// `Ignored`, as in the toolkit's own merge of event statuses.
    pub fn merge(self, b: Status) -> (res: Status)
        ensures
            res == self.spec_merge(b),
    {
        match self {
            Status::Ignored => b,
            Status::Captured => Status::Captured,
        }
    }

    /// Merging is commutative and associative, `Ignored` is its neutral
    /// element, and merging a status with itself changes nothing.
    pub proof fn lemma_merge_laws(a: Status, b: Status, c: Status)
        ensures
            a.spec_merge(b) == b.spec_merge(a),
            a.spec_merge(b).spec_merge(c) == a.spec_merge(b.spec_merge(c)),
            a.spec_merge(Status::Ignored) == a,
            a.spec_merge(a) == a,
    {
    }
}

/// The state of the modifier keys.
#[derive(Copy, Clone, Debug, PartialEq, Eq, Structural)]
pub struct Modifiers {
    /// Whether a shift key is pressed.
    pub shift: bool,
    /// Whether a control key is pressed.
    pub control: bool,
    /// Whether an alt key is pressed.
    pub alt: bool,
    /// Whether a logo key is pressed.
    pub logo: bool,
}

impl Default for Modifiers {
    fn default() -> (res: Modifiers)
        ensures
            !res.shift,
            !res.control,
            !res.alt,
            !res.logo,
    {
        Modifiers { shift: false, control: false, alt: false, logo: false }
    }
}

/// The keys that the overlay tells apart.
#[derive(Copy, Clone, Debug, PartialEq, Eq, Structural)]
pub enum KeyCode {
    /// The tabulator key.
    Tab,
    /// The left arrow.
    Left,
    /// The down arrow.
    Down,
    /// The right arrow.
    Right,
    /// The up arrow.
    Up,
    /// Any other key.
    Other,
}

/// The direction in which a key steps the focused spinner.
#[derive(Copy, Clone, Debug, PartialEq, Eq, Structural)]
pub enum Step {
    /// One unit later.
    Forward,
    /// One unit earlier.
    Backward,
}

impl KeyCode {
    /// The step that an arrow key stands for: right and up go forward, left
    /// and down go backward. Other keys step nowhere.
    pub open spec fn spec_step(self) -> Option<Step> {
        match self {
            KeyCode::Right | KeyCode::Up => Some(Step::Forward),
            KeyCode::Left | KeyCode::Down => Some(Step::Backward),
            _ => None,
        }
    }

    /// The step that this key stands for, if it is an arrow key.
    pub fn step(self) -> (res: Option<Step>)
        ensures
            res == self.spec_step(),
    {
        match self {
            KeyCode::Right | KeyCode::Up => Some(Step::Forward),
            KeyCode::Left | KeyCode::Down => Some(Step::Backward),
            _ => None,
        }
    }
}

/// An event of the user interface, as far as the overlay tells events apart.
#[derive(Copy, Clone, Debug, PartialEq, Eq, Structural)]
pub enum Event {
    /// The left mouse button was pressed, or a finger was put down.
    Pressed,
    /// The left mouse button was released, or a finger was lifted or lost.
    Released,
    /// A key was pressed.
    KeyPressed(KeyCode),
    /// The modifier keys have changed.
    ModifiersChanged(Modifiers),
    /// Any other event.
    Other,
}

} // verus!
