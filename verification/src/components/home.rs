//! The first screen: the choice between circulars and homework.

use crate::action::{reply_view, Action, ActionView, Mode};
use crate::components::selection::{cursor_after, cursor_drawn, nav, nav_of, ListState, Nav};
use crate::key::{KeyCode, KeyEvent};
use crate::record::AssignmentType;
use vstd::prelude::*;

verus! {

/// One line of the choice.
#[derive(Clone, Copy, Debug)]
pub struct ModeListItem {
    mode: AssignmentType,
}

impl ModeListItem {
    /// The line for one kind of list.
    pub fn new(mode: AssignmentType) -> (item: Self)
        ensures
            item.mode() == mode,
    {
        Self { mode }
    }

    /// The kind of list that the line stands for.
    pub closed spec fn mode(&self) -> AssignmentType {
        self.mode
    }

    /// The kind of list that the line stands for.
    #[verifier::when_used_as_spec(mode)]
    pub fn kind(&self) -> (mode: AssignmentType)
        ensures
            mode == self.mode(),
    {
        self.mode
    }

    /// What the line shows.
    pub fn label(&self) -> (label: &'static str)
        ensures
            label@ == (match self.mode() {
                AssignmentType::Circular => "Circular"@,
                AssignmentType::Homework => "Homework"@,
            }),
    {
        match self.mode {
            AssignmentType::Circular => "Circular",
            AssignmentType::Homework => "Homework",
        }
    }
}

/// The kinds that a sequence of lines stands for.
pub open spec fn kinds_of(items: Seq<ModeListItem>) -> Seq<AssignmentType> {
    items.map_values(|item: ModeListItem| item.mode())
}

/// The lines of the choice with their cursor.
#[derive(Debug)]
pub struct ModeList {
    list_items: Vec<ModeListItem>,
    state: ListState,
}

impl ModeList {
    /// The kinds of list on offer, in the order in which they are shown.
    pub closed spec fn kinds(&self) -> Seq<AssignmentType> {
        kinds_of(self.list_items@)
    }

    /// The place of the line that the cursor stands on.
    pub closed spec fn cursor(&self) -> Option<usize> {
        self.state.selected
    }

    /// One line for each of `kinds`, and a cursor that stands nowhere.
    pub fn from_iter(kinds: Vec<AssignmentType>) -> (list: Self)
        ensures
            list.kinds() == kinds@,
            list.cursor() == None::<usize>,
    {
        let mut list_items: Vec<ModeListItem> = Vec::new();
        let mut i: usize = 0;
        while i < kinds.len()
            invariant
                i <= kinds.len(),
                list_items.len() == i,
                forall|j: int| 0 <= j < i ==> (#[trigger] list_items@[j]).mode() == kinds@[j],
            decreases kinds.len() - i,
        {
            list_items.push(ModeListItem::new(kinds[i]));
            i += 1;
        }
        assert(kinds_of(list_items@) =~= kinds@);
        Self { list_items, state: ListState::new() }
    }

    /// Moves the cursor.
    fn go(&mut self, nav: Nav)
        ensures
            final(self).kinds() == old(self).kinds(),
            final(self).cursor() == cursor_after(old(self).cursor(), nav),
    {
        self.state.go(nav);
    }

    /// Brings the cursor onto the list, as drawing the list does.
    pub fn settle(&mut self)
        ensures
            final(self).kinds() == old(self).kinds(),
            final(self).cursor() == cursor_drawn(old(self).cursor(), old(self).kinds().len()),
    {
        self.state.settle(self.list_items.len());
    }

    /// Takes the cursor off the list.
    pub fn select_none(&mut self)
        ensures
            final(self).kinds() == old(self).kinds(),
            final(self).cursor() == cursor_after(old(self).cursor(), Nav::Clear),
    {
        self.go(Nav::Clear)
    }

    /// Moves the cursor one line down.
    pub fn select_next(&mut self)
        ensures
            final(self).kinds() == old(self).kinds(),
            final(self).cursor() == cursor_after(old(self).cursor(), Nav::Next),
    {
        self.go(Nav::Next)
    }

    /// Moves the cursor one line up.
    pub fn select_previous(&mut self)
        ensures
            final(self).kinds() == old(self).kinds(),
            final(self).cursor() == cursor_after(old(self).cursor(), Nav::Previous),
    {
        self.go(Nav::Previous)
    }

    /// Moves the cursor to the first line.
    pub fn select_first(&mut self)
        ensures
            final(self).kinds() == old(self).kinds(),
            final(self).cursor() == cursor_after(old(self).cursor(), Nav::First),
    {
        self.go(Nav::First)
    }

    /// Moves the cursor to the last line.
    pub fn select_last(&mut self)
        ensures
            final(self).kinds() == old(self).kinds(),
            final(self).cursor() == cursor_after(old(self).cursor(), Nav::Last),
    {
        self.go(Nav::Last)
    }

    /// The kind under the cursor, or the first kind while the cursor stands
    /// nowhere; none where the list has no such line.
    pub fn chosen(&self) -> (kind: Option<AssignmentType>)
        ensures
            kind == chosen_of(self.kinds(), self.cursor()),
    {
        let at = match self.state.selected {
            Some(i) => i,
            None => 0,
        };
        if at < self.list_items.len() {
            Some(self.list_items[at].kind())
        } else {
            None
        }
    }

    /// What each line shows, and where the cursor stands.
    pub fn labels(&self) -> (out: (Vec<&'static str>, Option<usize>))
        ensures
            out.0.len() == self.kinds().len(),
            forall|i: int|
                0 <= i < out.0.len() ==> (#[trigger] out.0@[i])@ == (match self.kinds()[i] {
                    AssignmentType::Circular => "Circular"@,
                    AssignmentType::Homework => "Homework"@,
                }),
            out.1 == self.cursor(),
    {
        let mut labels: Vec<&'static str> = Vec::new();
        let mut i: usize = 0;
        while i < self.list_items.len()
            invariant
                i <= self.list_items.len(),
                labels.len() == i,
                forall|j: int|
                    0 <= j < i ==> (#[trigger] labels@[j])@ == (match self.kinds()[j] {
                        AssignmentType::Circular => "Circular"@,
                        AssignmentType::Homework => "Homework"@,
                    }),
            decreases self.list_items.len() - i,
        {
            labels.push(self.list_items[i].label());
            i += 1;
        }
        (labels, self.state.selected)
    }
}

/// The kind that Enter picks: the one under the cursor, or the first while
/// the cursor stands nowhere.
pub open spec fn chosen_of(kinds: Seq<AssignmentType>, cursor: Option<usize>) -> Option<
    AssignmentType,
> {
    let at = match cursor {
        Some(i) => i as int,
        None => 0,
    };
    if at < kinds.len() {
        Some(kinds[at])
    } else {
        None
    }
}

/// The first screen as plain values.
pub struct HomeView {
    pub kinds: Seq<AssignmentType>,
    pub cursor: Option<usize>,
    pub enabled: bool,
}

impl HomeView {
    /// The screen after an action: a change of mode says whether this screen
    /// is the one shown, and drawing the screen that is shown brings the
    /// cursor onto the list; nothing else concerns it.
    pub open spec fn updated(self, action: ActionView) -> HomeView {
        match action {
            ActionView::Mode(mode) => HomeView { enabled: mode == Mode::Home, ..self },
            ActionView::Render => if self.enabled {
                HomeView { cursor: cursor_drawn(self.cursor, self.kinds.len()), ..self }
            } else {
                self
            },
            _ => self,
        }
    }

    /// The screen after a key. A screen that is not shown ignores every key.
    pub open spec fn keyed(self, key: KeyEvent) -> HomeView {
        if !self.enabled {
            self
        } else {
            match nav_of(key.code) {
                Some(nav) => HomeView {
                    cursor: cursor_after(self.cursor, nav),
                    ..self
                },
                None => self,
            }
        }
    }

    /// What the screen answers to a key: Enter asks for the chosen list, `q`
    /// for the end of the session. A screen that is not shown answers nothing.
    pub open spec fn reply(self, key: KeyEvent) -> Option<ActionView> {
        if !self.enabled {
            None
        } else if key.code == KeyCode::Enter {
            match chosen_of(self.kinds, self.cursor) {
                Some(kind) => Some(ActionView::AssignmentType(kind)),
                None => None,
            }
        } else if key.code == KeyCode::Char('q') {
            Some(ActionView::Quit)
        } else {
            None
        }
    }
}

/// The first screen.
#[derive(Debug)]
pub struct Home {
    list: ModeList,
    enabled: bool,
}

impl View for Home {
    type V = HomeView;

    closed spec fn view(&self) -> HomeView {
        HomeView { kinds: self.list.kinds(), cursor: self.list.cursor(), enabled: self.enabled }
    }
}

impl Home {
    /// The screen offers circulars and homework, in this order, and is the one
    /// shown when the session starts.
    pub fn new() -> (home: Self)
        ensures
            home@ == (HomeView {
                kinds: seq![AssignmentType::Circular, AssignmentType::Homework],
                cursor: None,
                enabled: true,
            }),
    {
        let mut kinds: Vec<AssignmentType> = Vec::new();
        kinds.push(AssignmentType::Circular);
        kinds.push(AssignmentType::Homework);
        assert(kinds@ =~= seq![AssignmentType::Circular, AssignmentType::Homework]);
        Home { list: ModeList::from_iter(kinds), enabled: true }
    }

    /// Takes an action. The screen answers none.
    pub fn update(&mut self, action: &Action) -> (reply: Option<Action>)
        ensures
            final(self)@ == old(self)@.updated(action@),
            reply is None,
    {
        match action {
            Action::Mode(mode) => {
                self.enabled = *mode == Mode::Home;
            },
            Action::Render => {
                if self.enabled {
                    self.list.settle();
                }
            },
            _ => {},
        }
        None
    }

    /// Takes a key.
    pub fn handle_key_event(&mut self, key: KeyEvent) -> (reply: Option<Action>)
        ensures
            final(self)@ == old(self)@.keyed(key),
            reply_view(reply) == old(self)@.reply(key),
    {
        if !self.enabled {
            return None;
        }
        match nav(key.code) {
            Some(nav) => {
                self.list.go(nav);
                return None;
            },
            None => {},
        }
        match key.code {
            KeyCode::Enter => match self.list.chosen() {
                Some(kind) => Some(Action::AssignmentType(kind)),
                None => None,
            },
            KeyCode::Char(c) => if c == 'q' {
                Some(Action::Quit)
            } else {
                None
            },
            _ => None,
        }
    }

    /// The mode in which this screen is shown.
    pub fn get_mode(&self) -> (mode: Mode)
        ensures
            mode == Mode::Home,
    {
        Mode::Home
    }

    /// Whether this screen is the one shown.
    pub fn enabled(&self) -> (enabled: bool)
        ensures
            enabled == self@.enabled,
    {
        self.enabled
    }

    /// The lines of the choice.
    pub fn list(&self) -> (list: &ModeList)
        ensures
            list.kinds() == self@.kinds,
            list.cursor() == self@.cursor,
    {
        &self.list
    }
}

} // verus!
