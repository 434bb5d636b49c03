//! The list engine: the records as fetched, the filter over them, the
//! selection and the window that the terminal shows.

use crate::key::{KeyCode, KeyEvent};
use crate::record::{joined5, records_view, row_fields, Assignment, AssignmentType, Record};
use crate::text;
use vstd::prelude::*;
use vstd::string::{StringExecFns, StringSliceAdditionalSpecFns};

verus! {

/// Whether a record passes the filter `query`: its name, category and date,
/// joined by spaces, contain the query, both taken in lowercase.
pub open spec fn passes(r: Record, query: Seq<char>) -> bool {
    text::is_substring(
        text::lowered(text::spaced3(r.name, r.category, r.date)),
        text::lowered(query),
    )
}

/// The filter `query` as a predicate on records.
pub open spec fn match_pred(query: Seq<char>) -> spec_fn(Record) -> bool {
    |r: Record| passes(r, query)
}

/// The records that pass the filter, in the order in which they were fetched.
pub open spec fn visible_of(records: Seq<Record>, query: Seq<char>) -> Seq<Record> {
    records.filter(match_pred(query))
}

/// `k` is the first place at which `r` stands in `s`.
pub open spec fn is_first_at(s: Seq<Record>, r: Record, k: int) -> bool {
    &&& 0 <= k < s.len()
    &&& s[k] == r
    &&& forall|j: int| 0 <= j < k ==> s[j] != r
}

/// The first place at which `r` stands in `s`, if it stands there at all.
pub open spec fn position(s: Seq<Record>, r: Record) -> Option<int> {
    if exists|k: int| is_first_at(s, r, k) {
        Some(choose|k: int| is_first_at(s, r, k))
    } else {
        None
    }
}

/// A record has one first place at most.
pub proof fn lemma_position_unique(s: Seq<Record>, r: Record, k: int)
    requires
        is_first_at(s, r, k),
    ensures
        position(s, r) == Some(k),
{
    let c = choose|c: int| is_first_at(s, r, c);
    assert(is_first_at(s, r, c));
    if c < k {
        assert(s[c] != r);
    } else if k < c {
        assert(s[k] != r);
    }
}

/// A record without a place in `s` has no position.
pub proof fn lemma_position_none(s: Seq<Record>, r: Record)
    requires
        forall|j: int| 0 <= j < s.len() ==> s[j] != r,
    ensures
        position(s, r) == None::<int>,
{
    if exists|k: int| is_first_at(s, r, k) {
        let c = choose|c: int| is_first_at(s, r, c);
        assert(s[c] != r);
    }
}

/// Where the window starts once it has been moved, by as little as possible,
/// to cover `index`.
pub open spec fn adjusted_start(start: int, size: int, index: int) -> int {
    if index < start {
        index
    } else if index >= start + size {
        index + 1 - size
    } else {
        start
    }
}

/// Where the window starts when the selection wraps to the last of `len` records.
pub open spec fn tail_start(len: int, size: int) -> int {
    if len >= size {
        len - size
    } else {
        0
    }
}

/// Whether a character is an ASCII character.
pub open spec fn is_ascii(c: char) -> bool {
    (c as u32) < 128
}

/// Control and `q` together end the session.
pub open spec fn is_quit(key: KeyEvent) -> bool {
    key.code == KeyCode::Char('q') && key.ctrl()
}

/// What the terminal has to do after a key that edits the filter.
#[derive(Clone, Copy, Debug, PartialEq, Eq, Structural)]
pub enum Typing {
    /// Move the cursor one column to the left.
    CursorLeft,
    /// Move the cursor one column to the right.
    CursorRight,
    /// Print the table anew.
    Redraw,
    /// Nothing.
    Idle,
}

/// What the typing handler asks of the terminal for `key`.
pub open spec fn typing_of(key: KeyEvent) -> Typing {
    match key.code {
        KeyCode::Left => Typing::CursorLeft,
        KeyCode::Right => Typing::CursorRight,
        KeyCode::Backspace => Typing::Redraw,
        KeyCode::Char(c) => if is_ascii(c) {
            Typing::Redraw
        } else {
            Typing::Idle
        },
        _ => Typing::Idle,
    }
}

/// How the session goes on after a key.
#[derive(Debug)]
pub enum Step {
    /// Wait for the next key.
    Continue,
    /// Leave the session.
    Quit,
    /// Fetch the details of this record, show them and leave the session.
    Open(Assignment),
}

/// The mark in front of the selected row: a cyan arrow, then black on white.
pub const SELECTED_MARK: &'static str = "\x1b[96m> \x1b[0m\x1b[30;107m";

/// The indent of a row that is not selected.
pub const PLAIN_MARK: &'static str = "  ";

/// One row of the table as it is printed.
#[derive(Debug)]
pub struct TableRow {
    /// The row's text, mark included.
    pub text: String,
    /// Whether the row is the selected one and is shown highlighted.
    pub selected: bool,
}

/// The text of the row for `r`, and whether it is highlighted. A row carries a
/// mark only while a record is selected; the selected row is the one with the
/// selected record's serial.
pub open spec fn row_of(r: Record, selected: Option<Record>) -> (Seq<char>, bool) {
    let line = joined5(row_fields(r), ' ');
    match selected {
        None => (line, false),
        Some(s) => if s.serial == r.serial {
            (SELECTED_MARK@ + line, true)
        } else {
            (PLAIN_MARK@ + line, false)
        },
    }
}

/// A row as plain values.
pub open spec fn row_view(row: TableRow) -> (Seq<char>, bool) {
    (row.text@, row.selected)
}

/// Which way the selection moves.
#[derive(Clone, Copy, Debug, PartialEq, Eq, Structural)]
pub enum Direction {
    Next,
    Previous,
}

/// What the keys do: move through the list, or edit the filter.
#[derive(Clone, Copy, Debug, PartialEq, Eq, Structural)]
pub enum Modes {
    ViewingList,
    Filtering,
}

/// The state of the list as plain values.
pub struct AppView {
    /// All records, in the order in which they were fetched.
    pub records: Seq<Record>,
    /// The filter as typed.
    pub query: Seq<char>,
    /// The selected record, if there is one.
    pub selected: Option<Record>,
    /// The place in the visible sequence at which the window begins.
    pub window_start: int,
    /// How many records the window holds.
    pub window_size: int,
    pub mode: Modes,
    pub kind: AssignmentType,
}

impl AppView {
    /// The records that pass the filter.
    pub open spec fn visible(self) -> Seq<Record> {
        visible_of(self.records, self.query)
    }

    /// The place of the selected record in the visible sequence.
    pub open spec fn selected_index(self) -> Option<int> {
        match self.selected {
            Some(r) => position(self.visible(), r),
            None => None,
        }
    }

    /// The selected record, if there is one, is visible.
    pub open spec fn selection_valid(self) -> bool {
        self.selected is Some ==> self.selected_index() is Some
    }

    /// The selected record, if it is visible, lies in the window.
    pub open spec fn window_holds(self) -> bool {
        self.selected_index() matches Some(k) ==> self.window_start <= k < self.window_start
            + self.window_size
    }

    /// The state with the visible record at `k` selected and the window at `start`.
    pub open spec fn select(self, k: int, start: int) -> AppView {
        AppView { selected: Some(self.visible()[k]), window_start: start, ..self }
    }

    /// The state after the selection has moved one step.
    ///
    /// With nothing visible nothing is selected. A selection that is missing,
    /// or not visible, goes to the first visible record, whichever the
    /// direction. Otherwise it goes to its neighbour, and from the last record
    /// round to the first and back.
    pub open spec fn moved(self, dir: Direction) -> AppView {
        let n = self.visible().len() as int;
        if n == 0 {
            AppView { selected: None, ..self }
        } else {
            match self.selected_index() {
                None => self.select(0, 0),
                Some(k) => match dir {
                    Direction::Next => if k + 1 == n {
                        self.select(0, 0)
                    } else {
                        self.select(
                            k + 1,
                            adjusted_start(self.window_start, self.window_size, k + 1),
                        )
                    },
                    Direction::Previous => if k == 0 {
                        self.select(n - 1, tail_start(n, self.window_size))
                    } else {
                        self.select(
                            k - 1,
                            adjusted_start(self.window_start, self.window_size, k - 1),
                        )
                    },
                },
            }
        }
    }

    /// The state after the filter has been set to `query`: the first visible
    /// record is selected and the window is back at the top.
    pub open spec fn filtered(self, query: Seq<char>) -> AppView {
        let vis = visible_of(self.records, query);
        AppView {
            query,
            selected: if vis.len() > 0 {
                Some(vis[0])
            } else {
                None
            },
            window_start: 0,
            ..self
        }
    }

    /// The state with nothing selected and the window back at the top.
    pub open spec fn cleared(self) -> AppView {
        AppView { selected: None, window_start: 0, ..self }
    }

    /// The state with the first visible record selected, if there is one.
    pub open spec fn at_first(self) -> AppView {
        if self.visible().len() == 0 {
            AppView { selected: None, ..self }
        } else {
            self.select(0, 0)
        }
    }

    /// The state with the last visible record selected, if there is one.
    pub open spec fn at_last(self) -> AppView {
        let n = self.visible().len() as int;
        if n == 0 {
            AppView { selected: None, ..self }
        } else {
            self.select(n - 1, tail_start(n, self.window_size))
        }
    }

    /// The state with a window of `size` records, moved by as little as
    /// possible to cover the selected record if that is visible.
    pub open spec fn resized(self, size: int) -> AppView {
        let s = AppView { window_size: size, ..self };
        match s.selected_index() {
            Some(k) => AppView { window_start: s.start_covering(k), ..s },
            None => s,
        }
    }

    /// Where the window starts once it covers `index`, kept within what a
    /// `usize` holds.
    pub open spec fn start_covering(self, index: int) -> int {
        let start = adjusted_start(self.window_start, self.window_size, index);
        if start <= usize::MAX {
            start
        } else {
            usize::MAX as int
        }
    }

    /// The state after a key was pressed while moving through the list: `j`
    /// moves the selection on, `k` moves it back.
    pub open spec fn navigated(self, key: KeyEvent) -> AppView {
        if key.code == KeyCode::Char('j') {
            self.moved(Direction::Next)
        } else if key.code == KeyCode::Char('k') {
            self.moved(Direction::Previous)
        } else {
            self
        }
    }

    /// The state after a key was pressed while editing the filter: Backspace
    /// takes the last character off the query, an ASCII character is added to
    /// it, and either way the filter is applied anew.
    pub open spec fn typed(self, key: KeyEvent) -> AppView {
        match key.code {
            KeyCode::Backspace => self.filtered(
                if self.query.len() > 0 {
                    self.query.drop_last()
                } else {
                    self.query
                },
            ),
            KeyCode::Char(c) => if is_ascii(c) {
                self.filtered(self.query.push(c))
            } else {
                self
            },
            _ => self,
        }
    }

    /// The state after the keys' own handler has seen `key`.
    pub open spec fn handled(self, key: KeyEvent) -> AppView {
        match self.mode {
            Modes::ViewingList => self.navigated(key),
            Modes::Filtering => self.typed(key),
        }
    }

    /// The state with the other mode.
    pub open spec fn cycled(self) -> AppView {
        AppView {
            mode: match self.mode {
                Modes::ViewingList => Modes::Filtering,
                Modes::Filtering => Modes::ViewingList,
            },
            ..self
        }
    }

    /// The state after one key of the session: the mode's handler sees the
    /// key first, then Tab switches the mode.
    pub open spec fn after_key(self, key: KeyEvent) -> AppView {
        let s = self.handled(key);
        if !is_quit(key) && key.code == KeyCode::Tab {
            s.cycled()
        } else {
            s
        }
    }

    /// The visible records that lie in the window.
    pub open spec fn page(self) -> Seq<Record> {
        let vis = self.visible();
        let from = if self.window_start < vis.len() {
            self.window_start
        } else {
            vis.len() as int
        };
        let to = if from + self.window_size < vis.len() {
            from + self.window_size
        } else {
            vis.len() as int
        };
        vis.subrange(from, to)
    }
}

/// The view of a record that may be missing.
pub open spec fn option_view(a: Option<Assignment>) -> Option<Record> {
    match a {
        Some(a) => Some(a@),
        None => None,
    }
}

/// A serial of one byte gets a zero in front, so that serials line up.
pub open spec fn padded_serial(serial: Seq<char>) -> Seq<char> {
    if vstd::utf8::encode_utf8(serial).len() == 1 {
        seq!['0'] + serial
    } else {
        serial
    }
}

/// A record with its serial padded.
pub open spec fn padded(r: Record) -> Record {
    Record { serial: padded_serial(r.serial), ..r }
}

/// Pads the serial of one record.
pub fn pad(a: &Assignment) -> (out: Assignment)
    ensures
        out@ == padded(a@),
{
    proof {
        reveal_strlit("0");
    }
    assert("0"@ =~= seq!['0']);
    let s_no = if a.s_no.as_str().as_bytes().len() == 1 {
        let mut number = String::from_str("0");
        number.append(a.s_no.as_str());
        number
    } else {
        a.s_no.clone()
    };
    Assignment {
        id: a.id.clone(),
        name: a.name.clone(),
        date: a.date.clone(),
        type_: a.type_.clone(),
        s_no,
    }
}

/// Pads the serial of every record.
pub fn pad_all(records: &Vec<Assignment>) -> (out: Vec<Assignment>)
    ensures
        records_view(out@) == records_view(records@).map_values(|r: Record| padded(r)),
{
    let mut out: Vec<Assignment> = Vec::new();
    let mut i: usize = 0;
    while i < records.len()
        invariant
            i <= records.len(),
            out.len() == i,
            forall|j: int| 0 <= j < i ==> (#[trigger] out@[j])@ == padded(records@[j]@),
        decreases records.len() - i,
    {
        out.push(pad(&records[i]));
        i += 1;
    }
    assert(records_view(out@) =~= records_view(records@).map_values(|r: Record| padded(r)));
    out
}

/// Picks the records that pass the filter `query`, keeping their order.
pub fn filter_records(records: &Vec<Assignment>, query: &str) -> (out: Vec<Assignment>)
    ensures
        records_view(out@) == visible_of(records_view(records@), query@),
        query@.len() == 0 ==> records_view(out@) == records_view(records@),
{
    let needle = text::to_lowercase(query);
    let ghost all = records_view(records@);
    let ghost pred = match_pred(query@);
    let mut out: Vec<Assignment> = Vec::new();
    let mut i: usize = 0;
    proof {
        reveal(Seq::filter);
        assert(all.take(0).filter(pred) =~= Seq::<Record>::empty());
        assert(records_view(out@) =~= Seq::<Record>::empty());
    }
    while i < records.len()
        invariant
            i <= records.len(),
            all == records_view(records@),
            pred == match_pred(query@),
            needle@ == text::lowered(query@),
            query@.len() == 0 ==> needle@.len() == 0,
            records_view(out@) == all.take(i as int).filter(pred),
            query@.len() == 0 ==> records_view(out@) == all.take(i as int),
        decreases records.len() - i,
    {
        let r = &records[i];
        let hay = text::to_lowercase(r.search_text().as_str());
        let keep = text::contains(hay.as_str(), needle.as_str());
        proof {
            let seen = all.take(i as int);
            assert(all.take(i + 1) =~= seen.push(all[i as int]));
            Seq::lemma_filter_push(seen, all[i as int], pred);
            assert(all[i as int] == r@);
            assert(keep == pred(r@));
            if query@.len() == 0 {
                text::lemma_empty_is_substring(hay@, needle@);
            }
            if keep {
                assert(records_view(out@.push(*r)) =~= records_view(out@).push(r@));
            }
        }
        if keep {
            out.push(r.clone());
        }
        i += 1;
    }
    assert(all.take(records.len() as int) =~= all);
    out
}

/// Finds the first record of `records` that equals `target`.
pub fn find(records: &Vec<Assignment>, target: &Assignment) -> (found: Option<usize>)
    ensures
        match found {
            Some(k) => position(records_view(records@), target@) == Some(k as int),
            None => position(records_view(records@), target@) == None::<int>,
        },
{
    let ghost all = records_view(records@);
    let mut i: usize = 0;
    while i < records.len()
        invariant
            i <= records.len(),
            all == records_view(records@),
            forall|j: int| 0 <= j < i ==> all[j] != target@,
        decreases records.len() - i,
    {
        if records[i] == *target {
            proof {
                assert(all[i as int] == records@[i as int]@);
                lemma_position_unique(all, target@, i as int);
            }
            return Some(i);
        }
        assert(all[i as int] == records@[i as int]@);
        i += 1;
    }
    proof {
        lemma_position_none(all, target@);
    }
    None
}

/// The list of records with its filter, selection and window.
pub struct App {
    assignments: Vec<Assignment>,
    visible: Vec<Assignment>,
    selected_assignment: Option<Assignment>,
    assignment_type: AssignmentType,
    window_start: usize,
    window_size: usize,
    mode: Modes,
    assignment_filter: String,
}

impl View for App {
    type V = AppView;

    closed spec fn view(&self) -> AppView {
        AppView {
            records: records_view(self.assignments@),
            query: self.assignment_filter@,
            selected: option_view(self.selected_assignment),
            window_start: self.window_start as int,
            window_size: self.window_size as int,
            mode: self.mode,
            kind: self.assignment_type,
        }
    }
}

impl App {
    /// The records kept as visible are those that pass the filter.
    pub closed spec fn wf(&self) -> bool {
        records_view(self.visible@) == self@.visible()
    }

    /// A list over `assignments` as they are, with no filter and no selection,
    /// and a window of `window_size` records at the top.
    pub fn with_records(
        type_: AssignmentType,
        assignments: Vec<Assignment>,
        window_size: usize,
    ) -> (app: App)
        ensures
            app.wf(),
            app@ == (AppView {
                records: records_view(assignments@),
                query: Seq::<char>::empty(),
                selected: None::<Record>,
                window_start: 0,
                window_size: window_size as int,
                mode: Modes::ViewingList,
                kind: type_,
            }),
            app@.visible() == app@.records,
    {
        let assignment_filter = String::new();
        let visible = filter_records(&assignments, assignment_filter.as_str());
        App {
            assignments,
            visible,
            selected_assignment: None,
            assignment_type: type_,
            window_start: 0,
            window_size,
            mode: Modes::ViewingList,
            assignment_filter,
        }
    }

    /// A list over `assignments`, their serials padded, with no filter and no
    /// selection. The window leaves two of the terminal's `rows` free; a
    /// terminal of fewer rows has a window of none.
    pub fn new(type_: AssignmentType, assignments: Vec<Assignment>, rows: u16) -> (app: App)
        ensures
            app.wf(),
            app@ == (AppView {
                records: records_view(assignments@).map_values(|r: Record| padded(r)),
                query: Seq::<char>::empty(),
                selected: None::<Record>,
                window_start: 0,
                window_size: if rows >= 2 {
                    rows - 2
                } else {
                    0
                },
                mode: Modes::ViewingList,
                kind: type_,
            }),
            app@.visible() == app@.records,
    {
        let window_size: usize = if rows >= 2 {
            (rows - 2) as usize
        } else {
            0
        };
        App::with_records(type_, pad_all(&assignments), window_size)
    }

    /// Sets what the keys do.
    pub fn change_mode(&mut self, mode: Modes)
        ensures
            final(self).wf() == old(self).wf(),
            final(self)@ == (AppView { mode, ..old(self)@ }),
    {
        self.mode = mode;
    }

    /// Switches between moving through the list and editing the filter.
    pub fn cycle_modes(&mut self)
        ensures
            final(self).wf() == old(self).wf(),
            final(self)@ == (AppView {
                mode: match old(self)@.mode {
                    Modes::ViewingList => Modes::Filtering,
                    Modes::Filtering => Modes::ViewingList,
                },
                ..old(self)@
            }),
    {
        match self.mode {
            Modes::ViewingList => self.mode = Modes::Filtering,
            Modes::Filtering => self.mode = Modes::ViewingList,
        }
    }

    /// Makes `assignment` the selected record, visible or not.
    pub fn select_assignment(&mut self, assignment: Assignment)
        ensures
            final(self).wf() == old(self).wf(),
            final(self)@ == (AppView { selected: Some(assignment@), ..old(self)@ }),
    {
        self.selected_assignment = Some(assignment);
    }

    /// The selected record, if there is one.
    pub fn get_selected_assignment(&self) -> (selected: Option<Assignment>)
        ensures
            option_view(selected) == self@.selected,
    {
        match &self.selected_assignment {
            Some(a) => Some(a.clone()),
            None => None,
        }
    }

    /// Moves the window, by as little as possible, so that it covers
    /// `selected_index`.
    pub fn adjust_window(&mut self, selected_index: usize)
        ensures
            final(self).wf() == old(self).wf(),
            final(self)@ == (AppView {
                window_start: old(self)@.start_covering(selected_index as int),
                ..old(self)@
            }),
    {
        if selected_index < self.window_start {
            self.window_start = selected_index;
        } else if selected_index - self.window_start >= self.window_size {
            self.window_start = (selected_index - self.window_size).saturating_add(1);
        }
    }

    /// Moves the selection one step through the visible records.
    pub fn move_selection(&mut self, direction: Direction)
        requires
            old(self).wf(),
        ensures
            final(self).wf(),
            final(self)@ == old(self)@.moved(direction),
    {
        let n = self.visible.len();
        if n == 0 {
            self.selected_assignment = None;
            return ;
        }
        let found = match &self.selected_assignment {
            Some(selected) => find(&self.visible, selected),
            None => None,
        };
        match found {
            None => {
                self.selected_assignment = Some(self.visible[0].clone());
                self.window_start = 0;
            },
            Some(k) => match direction {
                Direction::Next => {
                    if k + 1 == n {
                        self.selected_assignment = Some(self.visible[0].clone());
                        self.window_start = 0;
                    } else {
                        self.selected_assignment = Some(self.visible[k + 1].clone());
                        self.adjust_window(k + 1);
                    }
                },
                Direction::Previous => {
                    if k == 0 {
                        self.selected_assignment = Some(self.visible[n - 1].clone());
                        self.window_start = if n >= self.window_size {
                            n - self.window_size
                        } else {
                            0
                        };
                    } else {
                        self.selected_assignment = Some(self.visible[k - 1].clone());
                        self.adjust_window(k - 1);
                    }
                },
            },
        }
    }

    /// Takes the selection off the list and moves the window back to the top.
    pub fn select_none(&mut self)
        ensures
            final(self).wf() == old(self).wf(),
            final(self)@ == old(self)@.cleared(),
    {
        self.selected_assignment = None;
        self.window_start = 0;
    }

    /// Selects the first visible record.
    pub fn select_first(&mut self)
        requires
            old(self).wf(),
        ensures
            final(self).wf(),
            final(self)@ == old(self)@.at_first(),
    {
        if self.visible.len() == 0 {
            self.selected_assignment = None;
        } else {
            self.selected_assignment = Some(self.visible[0].clone());
            self.window_start = 0;
        }
    }

    /// Selects the last visible record.
    pub fn select_last(&mut self)
        requires
            old(self).wf(),
        ensures
            final(self).wf(),
            final(self)@ == old(self)@.at_last(),
    {
        let n = self.visible.len();
        if n == 0 {
            self.selected_assignment = None;
        } else {
            self.selected_assignment = Some(self.visible[n - 1].clone());
            self.window_start = if n >= self.window_size {
                n - self.window_size
            } else {
                0
            };
        }
    }

    /// Where the selected record stands among the visible ones.
    pub fn selected_index(&self) -> (index: Option<usize>)
        requires
            self.wf(),
        ensures
            match index {
                Some(k) => self@.selected_index() == Some(k as int),
                None => self@.selected_index() == None::<int>,
            },
    {
        match &self.selected_assignment {
            Some(selected) => find(&self.visible, selected),
            None => None,
        }
    }

    /// Gives the window `size` records and moves it, by as little as possible,
    /// to cover the selected record.
    pub fn set_window_size(&mut self, size: usize)
        requires
            old(self).wf(),
        ensures
            final(self).wf(),
            final(self)@ == old(self)@.resized(size as int),
    {
        self.window_size = size;
        match self.selected_index() {
            Some(k) => self.adjust_window(k),
            None => {},
        }
    }

    /// Says which list the records are fetched from.
    pub fn set_assignment_type(&mut self, kind: AssignmentType)
        ensures
            final(self).wf() == old(self).wf(),
            final(self)@ == (AppView { kind, ..old(self)@ }),
    {
        self.assignment_type = kind;
    }

    /// Handles a key while moving through the list.
    pub fn handle_list_navigation(&mut self, key: KeyEvent)
        requires
            old(self).wf(),
        ensures
            final(self).wf(),
            final(self)@ == old(self)@.navigated(key),
    {
        match key.code {
            KeyCode::Char(c) => {
                if c == 'j' {
                    self.move_selection(Direction::Next);
                } else if c == 'k' {
                    self.move_selection(Direction::Previous);
                }
            },
            _ => {},
        }
    }

    /// Handles a key while editing the filter, and says what the terminal has
    /// to do.
    pub fn handle_typing(&mut self, key: KeyEvent) -> (ask: Typing)
        requires
            old(self).wf(),
        ensures
            final(self).wf(),
            final(self)@ == old(self)@.typed(key),
            ask == typing_of(key),
    {
        match key.code {
            KeyCode::Left => Typing::CursorLeft,
            KeyCode::Right => Typing::CursorRight,
            KeyCode::Backspace => {
                let mut query = self.assignment_filter.clone();
                let _ = text::pop_char(&mut query);
                self.set_filter(query.as_str());
                Typing::Redraw
            },
            KeyCode::Char(c) => {
                if (c as u32) < 128 {
                    let mut query = self.assignment_filter.clone();
                    text::push_char(&mut query, c);
                    self.set_filter(query.as_str());
                    Typing::Redraw
                } else {
                    Typing::Idle
                }
            },
            _ => Typing::Idle,
        }
    }

    /// Takes one key of the session: lets the mode's handler see it, then
    /// decides how the session goes on. Control and `q` leave it, Tab switches
    /// the mode, Enter opens the selected record if there is one.
    pub fn run(&mut self, key: KeyEvent) -> (step: Step)
        requires
            old(self).wf(),
        ensures
            final(self).wf(),
            final(self)@ == old(self)@.after_key(key),
            is_quit(key) ==> step is Quit,
            !is_quit(key) && key.code == KeyCode::Enter ==> match final(self)@.selected {
                Some(r) => step matches Step::Open(a) && a@ == r,
                None => step is Continue,
            },
            !is_quit(key) && key.code != KeyCode::Enter ==> step is Continue,
    {
        match self.mode {
            Modes::ViewingList => self.handle_list_navigation(key),
            Modes::Filtering => {
                let _ = self.handle_typing(key);
            },
        }
        let quit = match key.code {
            KeyCode::Char(c) => c == 'q' && key.modifiers == crate::key::CONTROL,
            _ => false,
        };
        if quit {
            return Step::Quit;
        }
        match key.code {
            KeyCode::Tab => {
                self.cycle_modes();
                Step::Continue
            },
            KeyCode::Enter => {
                match self.get_selected_assignment() {
                    Some(a) => Step::Open(a),
                    None => Step::Continue,
                }
            },
            _ => Step::Continue,
        }
    }

    /// The visible records that lie in the window.
    pub fn visible_page(&self) -> (page: Vec<Assignment>)
        requires
            self.wf(),
        ensures
            records_view(page@) == self@.page(),
    {
        let n = self.visible.len();
        let from = if self.window_start < n {
            self.window_start
        } else {
            n
        };
        let to = if self.window_size < n - from {
            from + self.window_size
        } else {
            n
        };
        let mut page: Vec<Assignment> = Vec::new();
        let mut i: usize = from;
        while i < to
            invariant
                from <= i <= to <= self.visible.len(),
                page.len() == i - from,
                forall|j: int| 0 <= j < page.len() ==> (#[trigger] page@[j])@ == self.visible@[from + j]@,
            decreases to - i,
        {
            page.push(self.visible[i].clone());
            i += 1;
        }
        assert(records_view(page@) =~= records_view(self.visible@).subrange(from as int, to as int));
        page
    }

    /// The rows of the table as they are printed: one for each record in the
    /// window, marked while a record is selected.
    pub fn print_table(&self) -> (rows: Vec<TableRow>)
        requires
            self.wf(),
        ensures
            rows@.map_values(|row: TableRow| row_view(row)) == self@.page().map_values(
                |r: Record| row_of(r, self@.selected),
            ),
    {
        let page = self.visible_page();
        let mut rows: Vec<TableRow> = Vec::new();
        let mut i: usize = 0;
        while i < page.len()
            invariant
                i <= page.len(),
                rows.len() == i,
                forall|j: int| 0 <= j < i ==> row_view(#[trigger] rows@[j]) == row_of(page@[j]@, self@.selected),
            decreases page.len() - i,
        {
            let line = page[i].field();
            let row = match &self.selected_assignment {
                None => TableRow { text: line, selected: false },
                Some(selected) => {
                    if selected.s_no == page[i].s_no {
                        let mut text = String::from_str(SELECTED_MARK);
                        text.append(line.as_str());
                        TableRow { text, selected: true }
                    } else {
                        let mut text = String::from_str(PLAIN_MARK);
                        text.append(line.as_str());
                        TableRow { text, selected: false }
                    }
                },
            };
            rows.push(row);
            i += 1;
        }
        assert(rows@.map_values(|row: TableRow| row_view(row)) =~= records_view(page@).map_values(
            |r: Record| row_of(r, self@.selected),
        ));
        rows
    }

    /// All records, in the order in which they were fetched.
    pub fn assignments(&self) -> (all: &Vec<Assignment>)
        ensures
            records_view(all@) == self@.records,
    {
        &self.assignments
    }

    /// The records that pass the filter.
    pub fn visible(&self) -> (visible: &Vec<Assignment>)
        requires
            self.wf(),
        ensures
            records_view(visible@) == self@.visible(),
    {
        &self.visible
    }

    /// The filter as typed.
    pub fn filter(&self) -> (query: &str)
        ensures
            query@ == self@.query,
    {
        self.assignment_filter.as_str()
    }

    /// What the keys do at present.
    pub fn mode(&self) -> (mode: Modes)
        ensures
            mode == self@.mode,
    {
        self.mode
    }

    /// Which list the records were fetched from.
    pub fn assignment_type(&self) -> (kind: AssignmentType)
        ensures
            kind == self@.kind,
    {
        self.assignment_type
    }

    /// The place in the visible sequence at which the window begins.
    pub fn window_start(&self) -> (start: usize)
        ensures
            start == self@.window_start,
    {
        self.window_start
    }

    /// How many records the window holds.
    pub fn window_size(&self) -> (size: usize)
        ensures
            size == self@.window_size,
    {
        self.window_size
    }

    /// Sets the filter to `query`, selects the first record that passes it and
    /// moves the window back to the top.
    pub fn set_filter(&mut self, query: &str)
        ensures
            final(self).wf(),
            final(self)@ == old(self)@.filtered(query@),
            final(self)@.visible() == visible_of(old(self)@.records, query@),
            query@.len() == 0 ==> final(self)@.visible() == old(self)@.records,
    {
        self.visible = filter_records(&self.assignments, query);
        self.assignment_filter = String::from_str(query);
        self.selected_assignment = if self.visible.len() > 0 {
            Some(self.visible[0].clone())
        } else {
            None
        };
        self.window_start = 0;
    }
}

} // verus!
