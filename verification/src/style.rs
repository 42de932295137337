//! Where a button stands in a row or a stack, which decides the corners
//! that are rounded.

use vstd::prelude::*;

verus! {

/// The radius of each corner of a widget, in whole pixels.
#[derive(Debug, Clone, Copy, PartialEq, Eq, Structural)]
pub struct Corners {
    pub top_left: u16,
    pub top_right: u16,
    pub bottom_left: u16,
    pub bottom_right: u16,
}

/// The position of a tab button in its row.
#[derive(Debug, Clone, Copy, PartialEq, Eq, Structural)]
pub enum TabButtonPosition {
    Left,
    Middle,
    Right,
}

impl TabButtonPosition {
    /// The corners of a tab button at this position: the outer corners of
    /// the row are rounded by 25 pixels; a button in the middle keeps the
    /// corners it has.
    pub open spec fn corners_of(&self) -> Option<Corners> {
        match self {
            TabButtonPosition::Left => Some(
                Corners { top_left: 25, top_right: 0, bottom_left: 25, bottom_right: 0 },
            ),
            TabButtonPosition::Middle => None,
            TabButtonPosition::Right => Some(
                Corners { top_left: 0, top_right: 25, bottom_left: 0, bottom_right: 25 },
            ),
        }
    }

    /// The corners of a tab button at this position.
    pub fn corners(&self) -> (corners: Option<Corners>)
        ensures
            corners == self.corners_of(),
    {
        match self {
            TabButtonPosition::Left => Some(
                Corners { top_left: 25, top_right: 0, bottom_left: 25, bottom_right: 0 },
            ),
            TabButtonPosition::Middle => None,
            TabButtonPosition::Right => Some(
                Corners { top_left: 0, top_right: 25, bottom_left: 0, bottom_right: 25 },
            ),
        }
    }
}

/// The position of a button in an accordion, a stack of buttons.
#[derive(Debug, Clone, Copy, PartialEq, Eq, Structural)]
pub enum AccordionButtonPosition {
    Top,
    Middle,
    Bottom,
}

impl AccordionButtonPosition {
    /// The corners of an accordion button at this position: the outer
    /// corners of the stack are rounded by 5 pixels.
    pub open spec fn corners_of(&self) -> Corners {
        match self {
            AccordionButtonPosition::Top => Corners {
                top_left: 5,
                top_right: 5,
                bottom_left: 0,
                bottom_right: 0,
            },
            AccordionButtonPosition::Middle => Corners {
                top_left: 0,
                top_right: 0,
                bottom_left: 0,
                bottom_right: 0,
            },
            AccordionButtonPosition::Bottom => Corners {
                top_left: 0,
                top_right: 0,
                bottom_left: 5,
                bottom_right: 5,
            },
        }
    }

    /// The corners of an accordion button at this position.
    pub fn corners(&self) -> (corners: Corners)
        ensures
            corners == self.corners_of(),
    {
        match self {
            AccordionButtonPosition::Top => Corners {
                top_left: 5,
                top_right: 5,
                bottom_left: 0,
                bottom_right: 0,
            },
            AccordionButtonPosition::Middle => Corners {
                top_left: 0,
                top_right: 0,
                bottom_left: 0,
                bottom_right: 0,
            },
            AccordionButtonPosition::Bottom => Corners {
                top_left: 0,
                top_right: 0,
                bottom_left: 5,
                bottom_right: 5,
            },
        }
    }

    /// The position of the button with index `index` in an accordion of
    /// `len` buttons: the first is at the top, the last at the bottom.
    pub open spec fn at(index: int, len: int) -> AccordionButtonPosition {
        if index == 0 {
            AccordionButtonPosition::Top
        } else if index + 1 == len {
            AccordionButtonPosition::Bottom
        } else {
            AccordionButtonPosition::Middle
        }
    }

    /// The position of the button with index `index` in an accordion of
    /// `len` buttons.
    pub fn for_index(index: usize, len: usize) -> (position: AccordionButtonPosition)
        ensures
            position == AccordionButtonPosition::at(index as int, len as int),
    {
        if index == 0 {
            AccordionButtonPosition::Top
        } else if len > 0 && index == len - 1 {
            AccordionButtonPosition::Bottom
        } else {
            AccordionButtonPosition::Middle
        }
    }
}

} // verus!
