//! A column's focus.

use vstd::prelude::*;

verus! {

/// What happens to a column.
#[derive(Debug, Clone, Copy, PartialEq, Eq, Structural)]
pub enum Event {
    Focused,
    Unfocused,
}

/// Whether a column has the focus.
#[derive(Debug, Clone, Copy, PartialEq, Eq, Structural)]
pub struct Column {
    is_focused: bool,
}

impl Column {
    pub closed spec fn spec_focused(&self) -> bool {
        self.is_focused
    }

    /// A column without the focus.
    pub fn new() -> (c: Self)
        ensures
            !c.spec_focused(),
    {
        Column { is_focused: false }
    }

    pub fn is_focused(&self) -> (f: bool)
        ensures
            f == self.spec_focused(),
    {
        self.is_focused
    }

    /// A column takes the focus on `Focused` and loses it on `Unfocused`; it sends the
    /// application no message.
    pub fn update<M>(&mut self, event: Event) -> (m: Option<M>)
        ensures
            final(self).spec_focused() == (event == Event::Focused),
            m is None,
    {
        match event {
            Event::Focused => {
                self.is_focused = true;
            },
            Event::Unfocused => {
                self.is_focused = false;
            },
        }
        None
    }
}

} // verus!
