//! A button's focus: focusing or leaving it tells the application.

use vstd::prelude::*;
use crate::carousel_list::Focusable;

verus! {

/// What happens to a button.
#[derive(Debug, Clone, Copy, PartialEq, Eq, Structural)]
pub enum Event {
    Focus,
    Unfocus,
}

/// The messages an application receives when a button gains or loses the focus.
pub trait Focus: Sized {
    fn focus() -> Self;

    fn unfocus() -> Self;
}

/// Whether a button has the focus.
#[derive(Debug, Clone, Copy, PartialEq, Eq, Structural)]
pub struct Button {
    is_focused: bool,
}

impl Button {
    pub closed spec fn spec_focused(&self) -> bool {
        self.is_focused
    }

    /// A button without the focus.
    pub fn new() -> (b: Self)
        ensures
            !b.spec_focused(),
    {
        Button { is_focused: false }
    }

    pub fn is_focused(&self) -> (f: bool)
        ensures
            f == self.spec_focused(),
    {
        self.is_focused
    }

    /// A button takes the focus on `Focus` and loses it on `Unfocus`, and either way tells the
    /// application with the matching message.
    pub fn update<M: Focus>(&mut self, event: Event) -> (m: Option<M>)
        ensures
            final(self).spec_focused() == (event == Event::Focus),
            m is Some,
            match event {
                Event::Focus => m matches Some(v) && call_ensures(M::focus, (), v),
                Event::Unfocus => m matches Some(v) && call_ensures(M::unfocus, (), v),
            },
    {
        match event {
            Event::Focus => {
                self.is_focused = true;
                Some(M::focus())
            },
            Event::Unfocus => {
                self.is_focused = false;
                Some(M::unfocus())
            },
        }
    }

    pub fn focus(&mut self)
        ensures
            final(self).spec_focused(),
    {
        self.is_focused = true;
    }

    pub fn unfocus(&mut self)
        ensures
            !final(self).spec_focused(),
    {
        self.is_focused = false;
    }
}

impl Focusable for Button {
    open spec fn spec_is_focused(&self) -> bool {
        self.spec_focused()
    }

    fn focus(&mut self) {
        self.is_focused = true;
    }

    fn blur(&mut self) {
        self.is_focused = false;
    }
}

} // verus!
