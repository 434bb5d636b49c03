//! The cursor of a short list, and the keys that move it.

use crate::key::KeyCode;
use vstd::prelude::*;

verus! {

/// What a key does to the cursor of a list.
#[derive(Clone, Copy, Debug, PartialEq, Eq, Structural)]
pub enum Nav {
    /// Take the cursor off the list.
    Clear,
    /// One item down.
    Next,
    /// One item up.
    Previous,
    /// To the first item.
    First,
    /// To the last item.
    Last,
}

/// The move that a key asks for: `h` or Left clears, `j` or Down goes on, `k`
/// or Up goes back, `g` or Home goes to the first item, `G` or End to the last.
pub open spec fn nav_of(code: KeyCode) -> Option<Nav> {
    match code {
        KeyCode::Left => Some(Nav::Clear),
        KeyCode::Down => Some(Nav::Next),
        KeyCode::Up => Some(Nav::Previous),
        KeyCode::Home => Some(Nav::First),
        KeyCode::End => Some(Nav::Last),
        KeyCode::Char(c) => if c == 'h' {
            Some(Nav::Clear)
        } else if c == 'j' {
            Some(Nav::Next)
        } else if c == 'k' {
            Some(Nav::Previous)
        } else if c == 'g' {
            Some(Nav::First)
        } else if c == 'G' {
            Some(Nav::Last)
        } else {
            None
        },
        _ => None,
    }
}

/// The move that a key asks for, if it asks for one.
pub fn nav(code: KeyCode) -> (out: Option<Nav>)
    ensures
        out == nav_of(code),
{
    match code {
        KeyCode::Left => Some(Nav::Clear),
        KeyCode::Down => Some(Nav::Next),
        KeyCode::Up => Some(Nav::Previous),
        KeyCode::Home => Some(Nav::First),
        KeyCode::End => Some(Nav::Last),
        KeyCode::Char(c) => {
            if c == 'h' {
                Some(Nav::Clear)
            } else if c == 'j' {
                Some(Nav::Next)
            } else if c == 'k' {
                Some(Nav::Previous)
            } else if c == 'g' {
                Some(Nav::First)
            } else if c == 'G' {
                Some(Nav::Last)
            } else {
                None
            }
        },
        _ => None,
    }
}

/// Where the cursor stands after a move, as ratatui's `ListState` moves it:
/// a move does not know how long the list is. The first step down goes to the
/// first item and the first step up to the farthest place there is; only
/// drawing brings the cursor back onto the list.
pub open spec fn cursor_after(selected: Option<usize>, nav: Nav) -> Option<usize> {
    match nav {
        Nav::Clear => None,
        Nav::First => Some(0),
        Nav::Last => Some(usize::MAX),
        Nav::Next => match selected {
            None => Some(0),
            Some(i) => if i < usize::MAX {
                Some((i + 1) as usize)
            } else {
                Some(usize::MAX)
            },
        },
        Nav::Previous => match selected {
            None => Some(usize::MAX),
            Some(i) => if i > 0 {
                Some((i - 1) as usize)
            } else {
                Some(0)
            },
        },
    }
}

/// Where the cursor stands once a list of `len` items has been drawn: on no
/// item of an empty list, and on the last item if it stood beyond it.
pub open spec fn cursor_drawn(selected: Option<usize>, len: nat) -> Option<usize> {
    if len == 0 {
        None
    } else {
        match selected {
            Some(i) => if i >= len {
                Some((len - 1) as usize)
            } else {
                Some(i)
            },
            None => None,
        }
    }
}

/// The cursor of a list: the place of the item that it stands on, if any.
#[derive(Clone, Copy, Debug, PartialEq, Eq)]
pub struct ListState {
    pub selected: Option<usize>,
}

impl ListState {
    /// A cursor that stands nowhere.
    pub fn new() -> (state: ListState)
        ensures
            state.selected == None::<usize>,
    {
        ListState { selected: None }
    }

    /// Where the cursor stands.
    pub fn selected(&self) -> (selected: Option<usize>)
        ensures
            selected == self.selected,
    {
        self.selected
    }

    /// Moves the cursor.
    pub fn go(&mut self, nav: Nav)
        ensures
            final(self).selected == cursor_after(old(self).selected, nav),
    {
        self.selected = match nav {
            Nav::Clear => None,
            Nav::First => Some(0),
            Nav::Last => Some(usize::MAX),
            Nav::Next => match self.selected {
                None => Some(0),
                Some(i) => Some(i.saturating_add(1)),
            },
            Nav::Previous => match self.selected {
                None => Some(usize::MAX),
                Some(i) => Some(i.saturating_sub(1)),
            },
        };
    }

    /// Brings the cursor onto a list of `len` items, as drawing the list does.
    pub fn settle(&mut self, len: usize)
        ensures
            final(self).selected == cursor_drawn(old(self).selected, len as nat),
            final(self).selected matches Some(i) ==> i < len,
    {
        if len == 0 {
            self.selected = None;
        } else {
            match self.selected {
                Some(i) => {
                    if i >= len {
                        self.selected = Some(len - 1);
                    }
                },
                None => {},
            }
        }
    }
}

} // verus!
