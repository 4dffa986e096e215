//! How a button and a cell of a grid are painted: which of their colours
//! shows, by where the pointer is.

use vstd::prelude::*;

verus! {

/// The colour in which a widget is painted.
#[derive(Clone, Copy, Debug, PartialEq, Eq, Structural)]
pub enum Shade {
    /// The pointer is elsewhere.
    Background,
    /// The pointer is over the widget.
    Hover,
    /// The widget is being pressed.
    Active,
}

/// The colour of a button: it shows that it is pressed only while the
/// pointer is over it.
pub fn button_shade(is_hot: bool, is_active: bool) -> (shade: Shade)
    ensures
        shade == if is_hot && is_active {
            Shade::Active
        } else if is_hot {
            Shade::Hover
        } else {
            Shade::Background
        },
{
    if is_hot {
        if is_active {
            Shade::Active
        } else {
            Shade::Hover
        }
    } else {
        Shade::Background
    }
}

/// The colour of a cell of a grid: it shows that it is pressed wherever the
/// pointer has gone since.
pub fn cell_shade(is_hot: bool, is_active: bool) -> (shade: Shade)
    ensures
        shade == if is_active {
            Shade::Active
        } else if is_hot {
            Shade::Hover
        } else {
            Shade::Background
        },
{
    if is_active {
        Shade::Active
    } else if is_hot {
        Shade::Hover
    } else {
        Shade::Background
    }
}

} // verus!
