//! The screen that shows the details of one record as scrollable text.

use crate::action::{reply_view, Action, ActionView, Mode};
use crate::key::{KeyCode, KeyEvent};
use crate::text;
use vstd::prelude::*;

verus! {

/// How far a text of `content` lines can be scrolled in a view of `page` lines.
pub open spec fn max_offset(content: int, page: int) -> int {
    if content > page {
        content - page
    } else {
        0
    }
}

/// `offset` kept between the top and the furthest place that the text can be
/// scrolled to.
pub open spec fn clamped(offset: int, content: int, page: int) -> int {
    if offset < 0 {
        0
    } else if offset > max_offset(content, page) {
        max_offset(content, page)
    } else {
        offset
    }
}

/// How many lines a text has, as far as a `u16` counts.
pub open spec fn height_of(text: Option<Seq<char>>) -> int {
    match text {
        Some(t) => if text::lines_of(t).len() <= u16::MAX {
            text::lines_of(t).len() as int
        } else {
            u16::MAX as int
        },
        None => 0,
    }
}

/// What a key does to the scroll position.
#[derive(Clone, Copy, Debug, PartialEq, Eq, Structural)]
pub enum Scroll {
    Down,
    Up,
    PageDown,
    PageUp,
}

/// The scrolling that a key asks for: `j` or Down and `k` or Up go by one
/// line, `f` or PageDown and `b` or PageUp by one page.
pub open spec fn scroll_of(code: KeyCode) -> Option<Scroll> {
    match code {
        KeyCode::Down => Some(Scroll::Down),
        KeyCode::Up => Some(Scroll::Up),
        KeyCode::PageDown => Some(Scroll::PageDown),
        KeyCode::PageUp => Some(Scroll::PageUp),
        KeyCode::Char(c) => if c == 'j' {
            Some(Scroll::Down)
        } else if c == 'k' {
            Some(Scroll::Up)
        } else if c == 'f' {
            Some(Scroll::PageDown)
        } else if c == 'b' {
            Some(Scroll::PageUp)
        } else {
            None
        },
        _ => None,
    }
}

/// The details screen as plain values.
pub struct DetailsView {
    pub enabled: bool,
    /// The text that is shown, once one has arrived.
    pub text: Option<Seq<char>>,
    /// The line at which the view begins.
    pub offset: int,
    /// How many lines the text has.
    pub content: int,
    /// How many lines the view shows.
    pub page: int,
}

impl DetailsView {
    /// The scroll position lies between the top and the furthest place that
    /// the text can be scrolled to.
    pub open spec fn in_range(self) -> bool {
        0 <= self.offset <= max_offset(self.content, self.page)
    }

    /// The screen after an action: a change of mode says whether this screen
    /// is the one shown, and a text that arrives takes the place of the old
    /// one, the scroll position staying as near as the new text allows.
    pub open spec fn updated(self, action: ActionView) -> DetailsView {
        match action {
            ActionView::Mode(mode) => DetailsView {
                enabled: mode == Mode::CurrentAssignmentScreen,
                ..self
            },
            ActionView::AssignmentDetails(text) => DetailsView {
                text,
                content: height_of(text),
                offset: clamped(self.offset, height_of(text), self.page),
                ..self
            },
            _ => self,
        }
    }

    /// The screen after the view has been given `page` lines.
    pub open spec fn resized(self, page: int) -> DetailsView {
        DetailsView { page, offset: clamped(self.offset, self.content, page), ..self }
    }

    /// The screen after it has scrolled.
    pub open spec fn scrolled(self, scroll: Scroll) -> DetailsView {
        let by = match scroll {
            Scroll::Down => 1,
            Scroll::Up => -1,
            Scroll::PageDown => self.page,
            Scroll::PageUp => -self.page,
        };
        DetailsView { offset: clamped(self.offset + by, self.content, self.page), ..self }
    }

    /// The screen after a key. A screen that is not shown ignores every key.
    pub open spec fn keyed(self, key: KeyEvent) -> DetailsView {
        if !self.enabled || key.code == KeyCode::Char('q') {
            self
        } else {
            match scroll_of(key.code) {
                Some(scroll) => self.scrolled(scroll),
                None => self,
            }
        }
    }

    /// What the screen answers to a key: `q` asks for the end of the session,
    /// Esc for the list, `d` for the overlay of attachments to open or close.
    /// A screen that is not shown answers nothing.
    pub open spec fn reply(self, key: KeyEvent) -> Option<ActionView> {
        if !self.enabled {
            None
        } else if key.code == KeyCode::Char('q') {
            Some(ActionView::Quit)
        } else if key.code == KeyCode::Esc {
            Some(ActionView::Mode(Mode::ListScreen))
        } else if key.code == KeyCode::Char('d') {
            Some(ActionView::ToggleDownloadPopup)
        } else {
            None
        }
    }
}

/// Whatever happens to the screen, the scroll position stays between the top
/// and the furthest place that the text can be scrolled to.
pub proof fn law_scroll_stays_in_range(s: DetailsView, scroll: Scroll, page: int, key: KeyEvent)
    requires
        s.content >= 0,
        s.page >= 0,
        page >= 0,
    ensures
        s.scrolled(scroll).in_range(),
        s.resized(page).in_range(),
        forall|text: Option<Seq<char>>|
            (#[trigger] s.updated(ActionView::AssignmentDetails(text))).in_range(),
        s.in_range() ==> s.keyed(key).in_range(),
{
}

/// The details screen.
#[derive(Debug)]
pub struct Details {
    enabled: bool,
    current_assignment: Option<String>,
    offset: u16,
    content: u16,
    page: u16,
}

impl View for Details {
    type V = DetailsView;

    closed spec fn view(&self) -> DetailsView {
        DetailsView {
            enabled: self.enabled,
            text: match self.current_assignment {
                Some(t) => Some(t@),
                None => None,
            },
            offset: self.offset as int,
            content: self.content as int,
            page: self.page as int,
        }
    }
}

/// Counts the lines of a text, as far as a `u16` counts.
pub fn height(text: &Option<String>) -> (lines: u16)
    ensures
        lines == height_of(
            match *text {
                Some(t) => Some(t@),
                None => None,
            },
        ),
{
    match text {
        Some(t) => {
            let lines = text::lines(t.as_str());
            assert(text::string_views(lines@).len() == lines@.len());
            if lines.len() <= 0xffff {
                lines.len() as u16
            } else {
                0xffff
            }
        },
        None => 0,
    }
}

impl Details {
    /// A screen without text, not shown until the mode says so.
    pub fn new() -> (details: Self)
        ensures
            details@ == (DetailsView {
                enabled: false,
                text: None,
                offset: 0,
                content: 0,
                page: 0,
            }),
    {
        Details { enabled: false, current_assignment: None, offset: 0, content: 0, page: 0 }
    }

    /// Keeps the scroll position within what the text allows.
    fn clamp(&mut self)
        ensures
            final(self)@ == (DetailsView {
                offset: clamped(old(self)@.offset, old(self)@.content, old(self)@.page),
                ..old(self)@
            }),
    {
        let max = if self.content > self.page {
            self.content - self.page
        } else {
            0
        };
        if self.offset > max {
            self.offset = max;
        }
    }

    /// Takes an action. The screen answers none.
    pub fn update(&mut self, action: &Action) -> (reply: Option<Action>)
        ensures
            final(self)@ == old(self)@.updated(action@),
            reply is None,
    {
        match action {
            Action::Mode(mode) => {
                self.enabled = *mode == Mode::CurrentAssignmentScreen;
            },
            Action::AssignmentDetails(text) => {
                self.content = height(text);
                self.current_assignment = match text {
                    Some(t) => Some(t.clone()),
                    None => None,
                };
                self.clamp();
            },
            _ => {},
        }
        None
    }

    /// Tells the screen how many lines its view shows.
    pub fn set_page(&mut self, page: u16)
        ensures
            final(self)@ == old(self)@.resized(page as int),
    {
        self.page = page;
        self.clamp();
    }

    /// Scrolls the text.
    pub fn scroll(&mut self, scroll: Scroll)
        ensures
            final(self)@ == old(self)@.scrolled(scroll),
    {
        let max = if self.content > self.page {
            self.content - self.page
        } else {
            0
        };
        self.offset = match scroll {
            Scroll::Down => if self.offset < max {
                self.offset + 1
            } else {
                max
            },
            Scroll::Up => if self.offset == 0 {
                0
            } else if self.offset - 1 > max {
                max
            } else {
                self.offset - 1
            },
            Scroll::PageDown => if self.offset <= max && max - self.offset >= self.page {
                self.offset + self.page
            } else {
                max
            },
            Scroll::PageUp => if self.offset <= self.page {
                0
            } else if self.offset - self.page > max {
                max
            } else {
                self.offset - self.page
            },
        };
    }

    /// Takes a key.
    pub fn handle_key_event(&mut self, key: KeyEvent) -> (reply: Option<Action>)
        ensures
            final(self)@ == old(self)@.keyed(key),
            reply_view(reply) == old(self)@.reply(key),
    {
        if !self.enabled {
            return None;
        }
        match key.code {
            KeyCode::Char(c) => {
                if c == 'q' {
                    return Some(Action::Quit);
                } else if c == 'j' {
                    self.scroll(Scroll::Down);
                } else if c == 'k' {
                    self.scroll(Scroll::Up);
                } else if c == 'f' {
                    self.scroll(Scroll::PageDown);
                } else if c == 'b' {
                    self.scroll(Scroll::PageUp);
                } else if c == 'd' {
                    return Some(Action::ToggleDownloadPopup);
                }
                None
            },
            KeyCode::Down => {
                self.scroll(Scroll::Down);
                None
            },
            KeyCode::Up => {
                self.scroll(Scroll::Up);
                None
            },
            KeyCode::PageDown => {
                self.scroll(Scroll::PageDown);
                None
            },
            KeyCode::PageUp => {
                self.scroll(Scroll::PageUp);
                None
            },
            KeyCode::Esc => Some(Action::Mode(Mode::ListScreen)),
            _ => None,
        }
    }

    /// The mode in which this screen is shown.
    pub fn get_mode(&self) -> (mode: Mode)
        ensures
            mode == Mode::CurrentAssignmentScreen,
    {
        Mode::CurrentAssignmentScreen
    }

    /// Whether this screen is the one shown.
    pub fn enabled(&self) -> (enabled: bool)
        ensures
            enabled == self@.enabled,
    {
        self.enabled
    }

    /// The text that is shown, once one has arrived.
    pub fn current_text(&self) -> (text: Option<&str>)
        ensures
            match text {
                Some(t) => self@.text == Some(t@),
                None => self@.text is None,
            },
    {
        match &self.current_assignment {
            Some(t) => Some(t.as_str()),
            None => None,
        }
    }

    /// The line at which the view begins.
    pub fn offset(&self) -> (offset: u16)
        ensures
            offset == self@.offset,
    {
        self.offset
    }

    /// How many lines the text has, as far as a `u16` counts.
    pub fn content_height(&self) -> (lines: u16)
        ensures
            lines == self@.content,
    {
        self.content
    }
}

} // verus!
