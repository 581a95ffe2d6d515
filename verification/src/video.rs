//! The window as the renderer sees it: its size, and whether it was resized,
//! has the focus or was closed.

use vstd::prelude::*;

verus! {

/// What the window system reported since the last poll.
#[derive(Clone, Copy, Debug, PartialEq, Eq)]
pub enum Event {
    /// The window has the given size now.
    Configure { width: u16, height: u16 },
    /// The window received the input focus.
    FocusIn,
    /// The window lost the input focus.
    FocusOut,
    /// A client message whose first data word is `atom`; `delete_atom` is the
    /// atom by which the window manager asks a window to close.
    ClientMessage { atom: u32, delete_atom: u32 },
    /// Any other event.
    Other,
}

/// The state of the window.
#[derive(Clone, Copy, Debug, PartialEq, Eq)]
pub struct State {
    width: u32,
    height: u32,
    resized: bool,
    focused: bool,
    closed: bool,
}

/// The height of a new window on a screen of the given height: two thirds of
/// it, rounded down.
pub open spec fn initial_height(screen_height: u16) -> int {
    screen_height * 2 / 3
}

/// The width of a new window: sixteen ninths of its height, rounded down.
pub open spec fn initial_width(screen_height: u16) -> int {
    initial_height(screen_height) * 16 / 9
}

impl State {
    pub closed spec fn width(self) -> u32 {
        self.width
    }

    pub closed spec fn height(self) -> u32 {
        self.height
    }

    /// Whether a change of size has been seen and not yet reported by
    /// [`State::resized`].
    pub closed spec fn resize_pending(self) -> bool {
        self.resized
    }

    pub closed spec fn has_focus(self) -> bool {
        self.focused
    }

    pub closed spec fn is_closed(self) -> bool {
        self.closed
    }

    /// The state that `event` leads to.
    pub open spec fn after(self, event: Event) -> State {
        match event {
            Event::Configure { width, height } => {
                if width as u32 != self.width() || height as u32 != self.height() {
                    self.with_size(width as u32, height as u32)
                } else {
                    self
                }
            },
            Event::FocusIn => self.with_focus(true),
            Event::FocusOut => self.with_focus(false),
            Event::ClientMessage { atom, delete_atom } => self.with_closed(atom == delete_atom),
            Event::Other => self,
        }
    }

    /// This state with a new size, and with the change of size pending.
    pub closed spec fn with_size(self, width: u32, height: u32) -> State {
        State { width, height, resized: true, ..self }
    }

    pub closed spec fn with_focus(self, focused: bool) -> State {
        State { focused, ..self }
    }

    pub closed spec fn with_closed(self, closed: bool) -> State {
        State { closed, ..self }
    }

    /// The state of a window that was just created on a screen of the given
    /// height: 16:9, two thirds of the screen high, with no focus and nothing
    /// pending.
    pub fn init(screen_height: u16) -> (state: State)
        ensures
            state.height() == initial_height(screen_height),
            state.width() == initial_width(screen_height),
            !state.resize_pending(),
            !state.has_focus(),
            !state.is_closed(),
    {
        let height: u32 = screen_height as u32 * 2 / 3;
        let width: u32 = height * 16 / 9;
        State { width, height, resized: false, focused: false, closed: false }
    }

    /// Takes in what one poll of the window system gave, `None` where no event
    /// was waiting, and says whether the window is still open.
    pub fn update(&mut self, event: Option<Event>) -> (open: bool)
        ensures
            *final(self) == match event {
                Some(e) => old(self).after(e),
                None => *old(self),
            },
            open == !final(self).is_closed(),
    {
        match event {
            Some(Event::Configure { width, height }) => {
                let new_width: u32 = width as u32;
                let new_height: u32 = height as u32;
                if new_width != self.width || new_height != self.height {
                    self.resized = true;
                    self.width = new_width;
                    self.height = new_height;
                }
            },
            Some(Event::FocusIn) => {
                self.focused = true;
            },
            Some(Event::FocusOut) => {
                self.focused = false;
            },
            Some(Event::ClientMessage { atom, delete_atom }) => {
                self.closed = atom == delete_atom;
            },
            Some(Event::Other) => {},
            None => {},
        }
        !self.closed
    }

    /// The size of the window, width first.
    pub fn get_size(&self) -> (size: (u32, u32))
        ensures
            size.0 == self.width(),
            size.1 == self.height(),
    {
        (self.width, self.height)
    }

    /// Whether the window changed its size since the last call; the call
    /// clears the mark.
    pub fn resized(&mut self) -> (was: bool)
        ensures
            was == old(self).resize_pending(),
            !final(self).resize_pending(),
            final(self).width() == old(self).width(),
            final(self).height() == old(self).height(),
            final(self).has_focus() == old(self).has_focus(),
            final(self).is_closed() == old(self).is_closed(),
    {
        let ret = self.resized;
        self.resized = false;
        ret
    }

    /// Whether the window has the input focus.
    pub fn focused(&self) -> (has: bool)
        ensures
            has == self.has_focus(),
    {
        self.focused
    }
}

} // verus!
