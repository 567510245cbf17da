//! A button in the Cupertino style: what it looks like and when it fires.

use vstd::prelude::*;

verus! {

/// A colour of `iced_widget`. It is only carried through here.
#[verifier::external_type_specification]
#[verifier::external_body]
pub struct ExColor(iced_widget::core::Color);

/// A widget of `iced_widget`, of any kind. It is only carried through here.
#[verifier::external_type_specification]
#[verifier::external_body]
#[verifier::reject_recursive_types(Message)]
#[verifier::reject_recursive_types(Renderer)]
pub struct ExElement<'a, Message, Renderer>(iced_widget::core::Element<'a, Message, Renderer>);

/// The colour that fills a filled button.
#[derive(Copy, Clone, Debug, PartialEq, Eq, Structural)]
pub enum Fill {
    /// The blue of the system, for a button that can be pressed.
    SystemBlue,
    /// The secondary fill of the system, for a button that cannot.
    SecondarySystemFill,
}

/// The colour of a button's text.
#[derive(Copy, Clone, Debug, PartialEq)]
pub enum TextColour {
    /// The colour that the button was given.
    Custom(iced_widget::core::Color),
    /// White.
    White,
    /// The blue of the system.
    SystemBlue,
    /// The secondary fill of the system.
    SecondarySystemFill,
}

/// A button in the Cupertino style.
#[verifier::reject_recursive_types(Message)]
#[verifier::reject_recursive_types(Renderer)]
pub struct CupertinoButton<'a, Message, Renderer> {
    on_pressed: Option<Message>,
    is_filled: bool,
    body: iced_widget::core::Element<'a, Message, Renderer>,
    /// `colour` is an option here because there is already logic to set the colour
    /// depending on if the button is enabled/disabled. But if the button causes a
    /// "destructive" behavior (e.g. a delete action), allow the user to override the
    /// colour to e.g. red.
    colour: Option<iced_widget::core::Color>,
}

/// What a [`CupertinoButton`] holds.
#[verifier::reject_recursive_types(Message)]
#[verifier::reject_recursive_types(Renderer)]
pub ghost struct CupertinoButtonView<'a, Message, Renderer> {
    /// The message that a press publishes. Without one the button is
    /// disabled.
    pub on_pressed: Option<Message>,
    /// The button is drawn on a filled rectangle.
    pub is_filled: bool,
    /// The widget that the button shows.
    pub body: iced_widget::core::Element<'a, Message, Renderer>,
    /// The colour of the text, where the button was given one.
    pub colour: Option<iced_widget::core::Color>,
}

impl<'a, Message, Renderer> CupertinoButtonView<'a, Message, Renderer> {
    /// The button can be pressed: it has a message to publish.
    pub open spec fn enabled(self) -> bool {
        self.on_pressed is Some
    }

    /// The colour that fills the button, if it is filled.
    pub open spec fn fill(self) -> Option<Fill> {
        if !self.is_filled {
            None
        } else if self.enabled() {
            Some(Fill::SystemBlue)
        } else {
            Some(Fill::SecondarySystemFill)
        }
    }

    /// The colour of the text: the colour that the button was given, if any;
    /// else white on a filled button; else blue if the button can be pressed
    /// and the secondary fill if it cannot.
    pub open spec fn text_colour(self) -> TextColour {
        match self.colour {
            Some(colour) => TextColour::Custom(colour),
            None => if self.is_filled {
                TextColour::White
            } else if self.enabled() {
                TextColour::SystemBlue
            } else {
                TextColour::SecondarySystemFill
            },
        }
    }

    /// The message that the button publishes for an event: its own, if the
    /// event is a press, the button can be pressed, and the cursor hits it in
    /// both directions.
    pub open spec fn published(self, press: bool, hit_x: bool, hit_y: bool) -> Option<Message> {
        if press && hit_x && hit_y {
            self.on_pressed
        } else {
            None
        }
    }
}

impl<'a, Message, Renderer> View for CupertinoButton<'a, Message, Renderer> {
    type V = CupertinoButtonView<'a, Message, Renderer>;

    closed spec fn view(&self) -> Self::V {
        CupertinoButtonView {
            on_pressed: self.on_pressed,
            is_filled: self.is_filled,
            body: self.body,
            colour: self.colour,
        }
    }
}

impl<'a, Message, Renderer> CupertinoButton<'a, Message, Renderer> {
    /// Creates a new [`CupertinoButton`] around `body`: not filled, with no
    /// colour of its own, and with nothing to publish.
    #[must_use]
    pub fn new(body: iced_widget::core::Element<'a, Message, Renderer>) -> (res: Self)
        ensures
            res@.on_pressed is None,
            !res@.is_filled,
            res@.body == body,
            res@.colour is None,
    {
        Self { on_pressed: None, is_filled: false, body, colour: None }
    }

    /// Sets the `on_pressed` callback of the [`CupertinoButton`].
    #[must_use]
    pub fn on_pressed(self, on_pressed: Option<Message>) -> (res: Self)
        ensures
            res@ == (CupertinoButtonView { on_pressed, ..self@ }),
    {
        let mut button = self;
        button.on_pressed = on_pressed;
        button
    }

    /// Sets the `is_filled` of the [`CupertinoButton`].
    #[must_use]
    pub fn is_filled(self, is_filled: bool) -> (res: Self)
        ensures
            res@ == (CupertinoButtonView { is_filled, ..self@ }),
    {
        let mut button = self;
        button.is_filled = is_filled;
        button
    }

    /// Sets the `body` of the [`CupertinoButton`].
    #[must_use]
    pub fn body(self, body: iced_widget::core::Element<'a, Message, Renderer>) -> (res: Self)
        ensures
            res@ == (CupertinoButtonView { body, ..self@ }),
    {
        let mut button = self;
        button.body = body;
        button
    }

    /// Sets the `colour` of the [`CupertinoButton`].
    #[must_use]
    pub fn colour(self, colour: Option<iced_widget::core::Color>) -> (res: Self)
        ensures
            res@ == (CupertinoButtonView { colour, ..self@ }),
    {
        let mut button = self;
        button.colour = colour;
        button
    }

    /// The widget that the button shows.
    pub fn content(&self) -> (res: &iced_widget::core::Element<'a, Message, Renderer>)
        ensures
            *res == self@.body,
    {
        &self.body
    }

    /// The colour to fill the button with, if it is to be filled.
    pub fn fill(&self) -> (res: Option<Fill>)
        ensures
            res == self@.fill(),
    {
        if self.is_filled {
            if self.on_pressed.is_none() {
                Some(Fill::SecondarySystemFill)
            } else {
                Some(Fill::SystemBlue)
            }
        } else {
            None
        }
    }

    /// The colour to draw the button's text in.
    pub fn text_colour(&self) -> (res: TextColour)
        ensures
            res == self@.text_colour(),
    {
        if self.colour.is_some() {
            TextColour::Custom(self.colour.unwrap())
        } else if self.is_filled && self.on_pressed.is_some() {
            TextColour::White
        } else if !self.is_filled && self.on_pressed.is_some() {
            TextColour::SystemBlue
        } else if self.is_filled && self.on_pressed.is_none() {
            TextColour::White
        } else {
            TextColour::SecondarySystemFill
        }
    }

    /// Decides on an event. `press` says whether the event is a press of the
    /// left mouse button or of a finger, `hit_x` and `hit_y` whether the
    /// cursor lies within the button horizontally and vertically.
    ///
    /// Returns the message to publish, in which case the event is captured,
    /// or `None`, in which case it is ignored.
    pub fn on_event(&self, press: bool, hit_x: bool, hit_y: bool) -> (res: Option<&Message>)
        ensures
            res.is_some() == self@.published(press, hit_x, hit_y).is_some(),
            res matches Some(message) ==> self@.published(press, hit_x, hit_y) == Some(*message),
    {
        if press {
            if self.on_pressed.as_ref().is_some() {
                if hit_x && hit_y {
                    return self.on_pressed.as_ref();
                }
            }
        }
        None
    }
}

} // verus!
