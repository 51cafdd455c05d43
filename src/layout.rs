//! Layout requests of widgets.
use vstd::prelude::*;

use crate::geometry::Extent;

verus! {

/// How much room a widget asks for along one axis.
#[derive(Clone, Copy, Debug, PartialEq, Eq, Structural)]
pub enum Length {
    /// All the room that is offered.
    Fill,
    /// A fixed extent, in hundredths of a pixel.
    Fixed(u128),
}

/// A widget that takes all the room it is offered and reports where it
/// was placed.
#[derive(Clone, Copy, Debug, PartialEq, Eq, Structural)]
pub struct PositionAware;

impl PositionAware {
    /// It fills the offered width.
    pub fn width(&self) -> (r: Length)
        ensures
            r == Length::Fill,
    {
        Length::Fill
    }

    /// It fills the offered height.
    pub fn height(&self) -> (r: Length)
        ensures
            r == Length::Fill,
    {
        Length::Fill
    }

    /// Its size within limits whose largest extent is `max`: all of it.
    pub fn layout(&self, max: Extent) -> (r: Extent)
        ensures
            r == max,
    {
        max
    }
}

} // verus!
