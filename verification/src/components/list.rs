//! The screen that shows the records: the list engine, the line on which the
//! filter is typed, and the keys of both.

use crate::action::{reply_view, Action, ActionView, Mode};
use crate::components::selection::{nav, nav_of, Nav};
use crate::engine::{App, AppView, Direction, Modes};
use crate::input::{
    empty_input, input_cursor, input_handle, input_text, input_value, place_of, types,
};
use crate::engine::lemma_position_unique;
use crate::laws::{law_filter_selects_visible, law_selection_stays_valid};
use crate::key::{KeyCode, KeyEvent};
use crate::record::{joined5, records_view, row_fields, Assignment, AssignmentType, Record};
use crate::text;
use tui_input::Input;
use vstd::prelude::*;
use vstd::string::StringExecFns;

verus! {

/// One record as a line of the list.
#[derive(Debug)]
pub struct AssignmentListItem {
    assignment: Assignment,
}

impl View for AssignmentListItem {
    type V = Record;

    closed spec fn view(&self) -> Record {
        self.assignment@
    }
}

impl AssignmentListItem {
    /// The line for one record.
    pub fn new(assignment: Assignment) -> (item: Self)
        ensures
            item@ == assignment@,
    {
        Self { assignment }
    }

    /// The record's fields, separated by tabs, so that the columns of all
    /// lines can be brought to one width.
    pub fn format(&self) -> (line: String)
        ensures
            line@ == joined5(row_fields(self@), '\t'),
    {
        proof {
            reveal_strlit("\t");
        }
        assert("\t"@ =~= seq!['\t']);
        let a = &self.assignment;
        let mut line = a.s_no.clone();
        line.append("\t");
        line.append(a.id.as_str());
        line.append("\t");
        line.append(a.date.as_str());
        line.append("\t");
        line.append(a.type_.as_str());
        line.append("\t");
        line.append(a.name.as_str());
        line
    }
}

/// The lines that the list shows for `records`: one line for each record,
/// fields separated by tabs, all of it aligned in columns and cut into lines
/// again.
pub open spec fn rows_of(records: Seq<Record>) -> Seq<Seq<char>> {
    text::lines_of(
        text::tab_aligned(
            text::joined(records.map_values(|r: Record| joined5(row_fields(r), '\t')), seq!['\n']),
        ),
    )
}

/// The list screen as plain values.
pub struct ListView {
    pub enabled: bool,
    /// The list engine.
    pub engine: AppView,
    /// What the filter line holds.
    pub typed: Seq<char>,
    /// How many characters of the filter line stand before its cursor.
    pub cursor: nat,
}

impl ListView {
    /// The filter line is being edited.
    pub open spec fn searching(self) -> bool {
        self.engine.mode == Modes::Filtering
    }

    /// A key that the filter line takes: any key but Tab, Esc and Enter,
    /// while the screen is shown and the filter line is being edited.
    pub open spec fn edits(self, key: KeyEvent) -> bool {
        self.enabled && self.searching() && key.code != KeyCode::Tab && key.code != KeyCode::Esc
            && key.code != KeyCode::Enter
    }

    /// A key that types its character into the filter line.
    pub open spec fn inserts(self, key: KeyEvent) -> bool {
        self.edits(key) && types(key)
    }

    /// The filter line after a character has been typed into it: the
    /// character stands where the cursor was.
    pub open spec fn typed_with(self, c: char) -> Seq<char> {
        self.typed.insert(place_of(self.typed, self.cursor), c)
    }

    /// The screen after an action: a change of mode says whether this screen
    /// is the one shown, and the choice of a list is kept for the fetch.
    pub open spec fn updated(self, action: ActionView) -> ListView {
        match action {
            ActionView::Mode(mode) => ListView { enabled: mode == Mode::ListScreen, ..self },
            ActionView::AssignmentType(kind) => ListView {
                engine: AppView { kind, ..self.engine },
                ..self
            },
            _ => self,
        }
    }

    /// The engine after a key that moves through the list.
    pub open spec fn navigated(self, nav: Nav) -> AppView {
        match nav {
            Nav::Clear => self.engine.cleared(),
            Nav::Next => self.engine.moved(Direction::Next),
            Nav::Previous => self.engine.moved(Direction::Previous),
            Nav::First => self.engine.at_first(),
            Nav::Last => self.engine.at_last(),
        }
    }

    /// The screen after a key that the filter line does not take. A screen
    /// that is not shown ignores every key. While the filter line is being
    /// edited, Tab and Esc end the editing. Otherwise the keys move the
    /// selection, and `/` begins the editing.
    pub open spec fn keyed(self, key: KeyEvent) -> ListView {
        if !self.enabled {
            self
        } else if self.searching() {
            if key.code == KeyCode::Tab || key.code == KeyCode::Esc {
                ListView { engine: self.engine.cycled(), ..self }
            } else {
                self
            }
        } else {
            match nav_of(key.code) {
                Some(nav) => ListView { engine: self.navigated(nav), ..self },
                None => if key.code == KeyCode::Char('/') {
                    ListView { engine: self.engine.cycled(), ..self }
                } else {
                    self
                },
            }
        }
    }

    /// What the screen answers to a key: while the selection is moved about,
    /// Esc asks for the first screen, Enter for the selected record to be
    /// opened, `q` for the end of the session. A screen that is not shown, or
    /// whose filter line is being edited, answers nothing.
    pub open spec fn reply(self, key: KeyEvent) -> Option<ActionView> {
        if !self.enabled || self.searching() {
            None
        } else if key.code == KeyCode::Esc {
            Some(ActionView::Mode(Mode::Home))
        } else if key.code == KeyCode::Enter {
            match self.engine.selected {
                Some(r) => Some(ActionView::Assignment(r)),
                None => None,
            }
        } else if key.code == KeyCode::Char('q') {
            Some(ActionView::Quit)
        } else {
            None
        }
    }

    /// The screen once `records` have been fetched: a fresh list of them as
    /// they came, with an empty filter line and the window as large as before.
    pub open spec fn loaded(self, records: Seq<Record>) -> ListView {
        ListView {
            enabled: self.enabled,
            engine: AppView {
                records,
                query: Seq::<char>::empty(),
                selected: None::<Record>,
                window_start: 0,
                window_size: self.engine.window_size,
                mode: Modes::ViewingList,
                kind: self.engine.kind,
            },
            typed: Seq::<char>::empty(),
            cursor: 0,
        }
    }
}

/// The records of the list screen with their selection: the list engine,
/// held so that a selected record is always a visible one.
pub struct AssignmentList {
    engine: App,
}

impl View for AssignmentList {
    type V = AppView;

    closed spec fn view(&self) -> AppView {
        self.engine@
    }
}

impl AssignmentList {
    /// The engine is sound, and the selected record, if there is one, is
    /// among the visible records.
    pub closed spec fn wf(&self) -> bool {
        &&& self.engine.wf()
        &&& self.engine@.selection_valid()
    }

    /// In a sound list a selected record is a visible one.
    pub proof fn law_selected_is_visible(&self)
        requires
            self.wf(),
        ensures
            self@.selection_valid(),
    {
    }

    /// A list of the records of `items` as they are, none of them selected,
    /// for the given kind of list and a window of `window_size` records.
    pub fn from_iter(items: Vec<AssignmentListItem>, kind: AssignmentType, window_size: usize) -> (list:
        Self)
        ensures
            list.wf(),
            list@ == (AppView {
                records: items@.map_values(|item: AssignmentListItem| item@),
                query: Seq::<char>::empty(),
                selected: None::<Record>,
                window_start: 0,
                window_size: window_size as int,
                mode: Modes::ViewingList,
                kind,
            }),
            list@.visible() == list@.records,
    {
        let mut records: Vec<Assignment> = Vec::new();
        let mut i: usize = 0;
        while i < items.len()
            invariant
                i <= items.len(),
                records.len() == i,
                forall|j: int| 0 <= j < i ==> (#[trigger] records@[j])@ == items@[j]@,
            decreases items.len() - i,
        {
            records.push(items[i].assignment.clone());
            i += 1;
        }
        assert(records_view(records@) =~= items@.map_values(|item: AssignmentListItem| item@));
        AssignmentList { engine: App::with_records(kind, records, window_size) }
    }

    /// Where the selected record stands among the visible ones.
    pub fn selected(&self) -> (index: Option<usize>)
        requires
            self.wf(),
        ensures
            match index {
                Some(k) => self@.selected_index() == Some(k as int),
                None => self@.selected is None,
            },
    {
        self.engine.selected_index()
    }

    /// Takes the selection off the list.
    pub fn select_none(&mut self)
        requires
            old(self).wf(),
        ensures
            final(self).wf(),
            final(self)@ == old(self)@.cleared(),
    {
        self.engine.select_none();
    }

    /// Moves the selection to the next visible record, and from the last
    /// round to the first.
    pub fn select_next(&mut self)
        requires
            old(self).wf(),
        ensures
            final(self).wf(),
            final(self)@ == old(self)@.moved(Direction::Next),
            old(self)@.visible().len() >= 1 && old(self)@.selected_index() == Some(
                old(self)@.visible().len() - 1,
            ) ==> final(self)@.selected_index() == Some(0int),
    {
        proof {
            law_selection_stays_valid(self@, Direction::Next, 0);
            if self@.visible().len() >= 1 {
                lemma_position_unique(self@.visible(), self@.visible()[0], 0);
            }
        }
        self.engine.move_selection(Direction::Next);
    }

    /// Moves the selection to the previous visible record, and from the first
    /// round to the last.
    pub fn select_previous(&mut self)
        requires
            old(self).wf(),
        ensures
            final(self).wf(),
            final(self)@ == old(self)@.moved(Direction::Previous),
    {
        proof {
            law_selection_stays_valid(self@, Direction::Previous, 0);
        }
        self.engine.move_selection(Direction::Previous);
    }

    /// Selects the first visible record.
    pub fn select_first(&mut self)
        requires
            old(self).wf(),
        ensures
            final(self).wf(),
            final(self)@ == old(self)@.at_first(),
    {
        proof {
            law_selection_stays_valid(self@, Direction::Next, 0);
        }
        self.engine.select_first();
    }

    /// Selects the last visible record.
    pub fn select_last(&mut self)
        requires
            old(self).wf(),
        ensures
            final(self).wf(),
            final(self)@ == old(self)@.at_last(),
    {
        proof {
            law_selection_stays_valid(self@, Direction::Next, 0);
        }
        self.engine.select_last();
    }
}

/// The list screen.
pub struct List {
    list: AssignmentList,
    enabled: bool,
    input: Input,
}

impl View for List {
    type V = ListView;

    closed spec fn view(&self) -> ListView {
        ListView {
            enabled: self.enabled,
            engine: self.list@,
            typed: input_text(self.input),
            cursor: input_cursor(self.input),
        }
    }
}

impl List {
    /// The list is sound and filtered by what the filter line holds.
    pub closed spec fn wf(&self) -> bool {
        &&& self.list.wf()
        &&& self.list@.query == input_text(self.input)
    }

    /// On a sound screen a selected record is a visible one, so that Enter
    /// never opens a record that the filter hides.
    pub proof fn law_selected_is_visible(&self)
        requires
            self.wf(),
        ensures
            self@.engine.selection_valid(),
    {
    }

    /// A screen without records, not shown until the mode says so: no
    /// filter, nothing selected, a window of no rows at the top, and homework
    /// as the list to fetch until another is chosen.
    pub fn new() -> (list: Self)
        ensures
            list.wf(),
            list@ == (ListView {
                enabled: false,
                engine: AppView {
                    records: Seq::<Record>::empty(),
                    query: Seq::<char>::empty(),
                    selected: None::<Record>,
                    window_start: 0,
                    window_size: 0,
                    mode: Modes::ViewingList,
                    kind: AssignmentType::Homework,
                },
                typed: Seq::<char>::empty(),
                cursor: 0,
            }),
    {
        let input = empty_input();
        let list = AssignmentList::from_iter(Vec::new(), AssignmentType::Homework, 0);
        assert(list@.query =~= input_text(input));
        assert(list@.records =~= Seq::<Record>::empty());
        assert(input_text(input) =~= Seq::<char>::empty());
        List { list, enabled: false, input }
    }

    /// Takes an action. The screen answers none.
    pub fn update(&mut self, action: &Action) -> (reply: Option<Action>)
        requires
            old(self).wf(),
        ensures
            final(self).wf(),
            final(self)@ == old(self)@.updated(action@),
            reply is None,
    {
        match action {
            Action::Mode(mode) => {
                self.enabled = *mode == Mode::ListScreen;
            },
            Action::AssignmentType(kind) => {
                self.list.engine.set_assignment_type(*kind);
            },
            _ => {},
        }
        None
    }

    /// Takes the records that were fetched for the chosen list.
    pub fn load(&mut self, records: Vec<Assignment>)
        requires
            old(self).wf(),
        ensures
            final(self).wf(),
            final(self)@ == old(self)@.loaded(records_view(records@)),
            final(self)@.engine.visible() == final(self)@.engine.records,
    {
        let size = self.list.engine.window_size();
        let kind = self.list.engine.assignment_type();
        self.list = AssignmentList { engine: App::with_records(kind, records, size) };
        self.input = empty_input();
        assert(self.list@.query =~= input_text(self.input));
        assert(self@.typed =~= Seq::<char>::empty());
    }

    /// Begins or ends the editing of the filter line.
    pub fn toggle_state(&mut self)
        requires
            old(self).wf(),
        ensures
            final(self).wf(),
            final(self)@ == (ListView { engine: old(self)@.engine.cycled(), ..old(self)@ }),
    {
        self.list.engine.cycle_modes();
    }

    /// Tells the screen how many records its window shows.
    pub fn set_window_size(&mut self, size: usize)
        requires
            old(self).wf(),
        ensures
            final(self).wf(),
            final(self)@ == (ListView {
                engine: old(self)@.engine.resized(size as int),
                ..old(self)@
            }),
    {
        proof {
            law_selection_stays_valid(self@.engine, Direction::Next, size as int);
        }
        self.list.engine.set_window_size(size);
    }

    /// Takes a key.
    ///
    /// A key that the filter line takes edits the line, and the list is
    /// filtered anew by what the line then holds; a key that types its
    /// character puts it in at the cursor. Every other key does what `keyed`
    /// and `reply` say.
    pub fn handle_key_event(&mut self, key: KeyEvent) -> (reply: Option<Action>)
        requires
            old(self).wf(),
        ensures
            final(self).wf(),
            old(self)@.edits(key) ==> reply is None && final(self)@ == (ListView {
                typed: final(self)@.typed,
                cursor: final(self)@.cursor,
                engine: old(self)@.engine.filtered(final(self)@.typed),
                ..old(self)@
            }),
            old(self)@.inserts(key) ==> final(self)@.typed == old(self)@.typed_with(key.code->Char_0)
                && final(self)@.cursor == old(self)@.cursor + 1,
            !old(self)@.edits(key) ==> final(self)@ == old(self)@.keyed(key) && reply_view(reply)
                == old(self)@.reply(key),
    {
        if !self.enabled {
            return None;
        }
        match self.list.engine.mode() {
            Modes::Filtering => {
                match key.code {
                    KeyCode::Tab => self.toggle_state(),
                    KeyCode::Esc => self.toggle_state(),
                    KeyCode::Enter => {},
                    _ => {
                        input_handle(&mut self.input, key);
                        let value = input_value(&self.input);
                        proof {
                            law_filter_selects_visible(self.list@, value@);
                        }
                        self.list.engine.set_filter(value.as_str());
                    },
                }
                None
            },
            Modes::ViewingList => {
                match nav(key.code) {
                    Some(nav) => {
                        match nav {
                            Nav::Clear => self.list.select_none(),
                            Nav::Next => self.list.select_next(),
                            Nav::Previous => self.list.select_previous(),
                            Nav::First => self.list.select_first(),
                            Nav::Last => self.list.select_last(),
                        }
                        return None;
                    },
                    None => {},
                }
                match key.code {
                    KeyCode::Esc => Some(Action::Mode(Mode::Home)),
                    KeyCode::Enter => match self.list.engine.get_selected_assignment() {
                        Some(selected) => Some(Action::Assignment(selected)),
                        None => None,
                    },
                    KeyCode::Char(c) => {
                        if c == 'q' {
                            Some(Action::Quit)
                        } else if c == '/' {
                            self.toggle_state();
                            None
                        } else {
                            None
                        }
                    },
                    _ => None,
                }
            },
        }
    }

    /// The lines that the list shows, aligned in columns.
    pub fn rows(&self) -> (rows: Vec<String>)
        requires
            self.wf(),
        ensures
            text::string_views(rows@) == rows_of(self@.engine.visible()),
    {
        let visible = self.list.engine.visible();
        let mut lines: Vec<String> = Vec::new();
        let mut i: usize = 0;
        while i < visible.len()
            invariant
                i <= visible.len(),
                lines.len() == i,
                forall|j: int|
                    0 <= j < i ==> (#[trigger] lines@[j])@ == joined5(row_fields(visible@[j]@), '\t'),
            decreases visible.len() - i,
        {
            let item = AssignmentListItem::new(visible[i].clone());
            lines.push(item.format());
            i += 1;
        }
        proof {
            reveal_strlit("\n");
            assert("\n"@ =~= seq!['\n']);
            assert(text::string_views(lines@) =~= records_view(visible@).map_values(
                |r: Record| joined5(row_fields(r), '\t'),
            ));
        }
        let table = text::join(&lines, "\n");
        let aligned = text::align_tabs(table.as_str());
        text::lines(aligned.as_str())
    }

    /// The mode in which this screen is shown.
    pub fn get_mode(&self) -> (mode: Mode)
        ensures
            mode == Mode::ListScreen,
    {
        Mode::ListScreen
    }

    /// Whether this screen is the one shown.
    pub fn enabled(&self) -> (enabled: bool)
        ensures
            enabled == self@.enabled,
    {
        self.enabled
    }

    /// The list engine.
    pub fn engine(&self) -> (engine: &App)
        requires
            self.wf(),
        ensures
            engine.wf(),
            engine@ == self@.engine,
    {
        &self.list.engine
    }

    /// What the filter line holds.
    pub fn filter_text(&self) -> (typed: String)
        ensures
            typed@ == self@.typed,
    {
        input_value(&self.input)
    }
}

} // verus!
