//! The decision logic of two widgets: the overlay of a time picker, with an
//! analog clock face and digital spinners, and a Cupertino-style button.
//!
//! Nothing here draws or lays anything out. Each handler takes what the
//! toolkit observed (which key, which region the cursor is in) as plain values
//! and says how the widget's state changes and what the toolkit has to do.

pub mod button;
pub mod cache;
pub mod clock;
pub mod digital;
pub mod event;
pub mod focus;
pub mod overlay;
pub mod picked;
pub mod state;
pub mod time;
