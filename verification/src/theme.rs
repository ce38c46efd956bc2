//! The theme vocabulary: which look each widget asks for.
//!
//! Colors, border widths and the other presentation numbers live in the
//! presentation layer; the library only names the styles so that the
//! rendered tree can say which one each widget carries.

use vstd::prelude::*;

verus! {

/// The application's single theme.
#[derive(Debug, Clone, Copy, PartialEq, Eq, Structural)]
pub struct Theme;

impl Default for Theme {
    fn default() -> (r: Theme)
        ensures
            r == Theme,
    {
        Theme
    }
}

/// Container styles: plain, or bordered as a movie tile is.
#[derive(Debug, Clone, Copy, PartialEq, Eq, Structural)]
pub enum Container {
    Plain,
    Bordered,
}

impl Default for Container {
    fn default() -> (r: Container)
        ensures
            r == Container::Plain,
    {
        Container::Plain
    }
}

/// Button styles.
#[derive(Debug, Clone, Copy, PartialEq, Eq, Structural)]
pub enum Button {
    Primary,
    Secondary,
}

impl Default for Button {
    fn default() -> (r: Button)
        ensures
            r == Button::Primary,
    {
        Button::Primary
    }
}

} // verus!
