//! The session: the four screens, the mode that says which of them is shown,
//! and the queue through which every action reaches every screen.

use crate::action::{actions_view, reply_view, Action, ActionView, Mode};
use crate::components::details::{Details, DetailsView};
use crate::components::download_popup::{Popup, PopupView};
use crate::components::home::{Home, HomeView};
use crate::components::list::{List, ListView};
use crate::error::{message_of, RepositoryError};
use crate::key::KeyEvent;
use crate::engine::{AppView, Modes};
use crate::record::{
    attachments_view, records_view, Assignment, AssignmentType, Record, RecordDetails,
};
use vstd::prelude::*;

verus! {

/// An action that may be missing, as a sequence of one action or none.
pub open spec fn optional(reply: Option<ActionView>) -> Seq<ActionView> {
    match reply {
        Some(a) => seq![a],
        None => Seq::empty(),
    }
}

/// The session as plain values.
pub struct SessionView {
    /// The screen that is shown.
    pub mode: Mode,
    pub home: HomeView,
    pub list: ListView,
    pub details: DetailsView,
    pub popup: PopupView,
    /// The actions that wait to be handed to the screens, oldest first.
    pub queue: Seq<ActionView>,
    /// Whether the end of the session has been asked for.
    pub should_quit: bool,
}

impl SessionView {
    /// Each screen holds itself to be shown exactly when the mode is its own:
    /// one screen is live at a time, the overlay with the details screen.
    pub open spec fn coherent(self) -> bool {
        &&& self.home.enabled == (self.mode == Mode::Home)
        &&& self.list.enabled == (self.mode == Mode::ListScreen)
        &&& self.details.enabled == (self.mode == Mode::CurrentAssignmentScreen)
        &&& self.popup.enabled == (self.mode == Mode::CurrentAssignmentScreen)
    }

    /// What the screens answer to a key, in the order in which they are asked:
    /// first screen, list, details, overlay.
    pub open spec fn replies(self, key: KeyEvent) -> Seq<ActionView> {
        optional(self.home.reply(key)) + optional(
            if self.list.edits(key) {
                None
            } else {
                self.list.reply(key)
            },
        ) + optional(self.details.reply(key)) + optional(self.popup.reply(key))
    }

    /// The session after the oldest waiting action has been handed to every
    /// screen: each screen has taken it, what a screen answered waits at the
    /// end of the queue, a change of mode has become the session's mode, and
    /// a request to quit is remembered. With no action waiting nothing changes.
    pub open spec fn stepped(self) -> SessionView {
        if self.queue.len() == 0 {
            self
        } else {
            let action = self.queue[0];
            SessionView {
                mode: match action {
                    ActionView::Mode(mode) => mode,
                    _ => self.mode,
                },
                home: self.home.updated(action),
                list: self.list.updated(action),
                details: self.details.updated(action),
                popup: self.popup.updated(action),
                queue: self.queue.drop_first() + optional(self.popup.update_reply(action)),
                should_quit: self.should_quit || action is Quit,
            }
        }
    }

    /// The session with `actions` waiting behind those that wait already.
    pub open spec fn queued(self, actions: Seq<ActionView>) -> SessionView {
        SessionView { queue: self.queue + actions, ..self }
    }
}

/// A change of mode leaves one screen live, whatever was live before.
pub proof fn law_mode_change_is_coherent(s: SessionView, mode: Mode)
    requires
        s.queue.len() > 0,
        s.queue[0] == ActionView::Mode(mode),
    ensures
        s.stepped().coherent(),
        s.stepped().mode == mode,
{
}

/// Handing an action round leaves one screen live if one was.
pub proof fn law_step_keeps_coherence(s: SessionView)
    requires
        s.coherent(),
    ensures
        s.stepped().coherent(),
{
}

/// The session.
pub struct Session {
    mode: Mode,
    home: Home,
    list: List,
    details: Details,
    popup: Popup,
    queue: Vec<Action>,
    should_quit: bool,
}

impl View for Session {
    type V = SessionView;

    closed spec fn view(&self) -> SessionView {
        SessionView {
            mode: self.mode,
            home: self.home@,
            list: self.list@,
            details: self.details@,
            popup: self.popup@,
            queue: actions_view(self.queue@),
            should_quit: self.should_quit,
        }
    }
}

impl Session {
    /// The list screen is sound.
    pub closed spec fn wf(&self) -> bool {
        self.list.wf()
    }

    /// In a sound session a selected record of the list is a visible one.
    pub proof fn law_selected_is_visible(&self)
        requires
            self.wf(),
        ensures
            self@.list.engine.selection_valid(),
    {
        self.list.law_selected_is_visible();
    }

    /// A session at its start: the mode is the first screen, which offers
    /// circulars and homework and is the one screen that is live; the list
    /// holds no records, the details no text, the overlay is closed and holds
    /// no attachments; no action waits and the end has not been asked for.
    pub fn new() -> (session: Self)
        ensures
            session.wf(),
            session@.coherent(),
            session@ == (SessionView {
                mode: Mode::Home,
                home: HomeView {
                    kinds: seq![AssignmentType::Circular, AssignmentType::Homework],
                    cursor: None,
                    enabled: true,
                },
                list: ListView {
                    enabled: false,
                    engine: AppView {
                        records: Seq::<Record>::empty(),
                        query: Seq::<char>::empty(),
                        selected: None::<Record>,
                        window_start: 0,
                        window_size: 0,
                        mode: Modes::ViewingList,
                        kind: AssignmentType::Homework,
                    },
                    typed: Seq::<char>::empty(),
                    cursor: 0,
                },
                details: DetailsView { enabled: false, text: None, offset: 0, content: 0, page: 0 },
                popup: PopupView {
                    enabled: false,
                    visible: false,
                    items: Seq::empty(),
                    cursor: None,
                },
                queue: Seq::<ActionView>::empty(),
                should_quit: false,
            }),
    {
        let session = Session {
            mode: Mode::Home,
            home: Home::new(),
            list: List::new(),
            details: Details::new(),
            popup: Popup::new(),
            queue: Vec::new(),
            should_quit: false,
        };
        assert(actions_view(session.queue@) =~= Seq::<ActionView>::empty());
        session
    }

    /// Puts an action at the end of the queue.
    pub fn dispatch(&mut self, action: Action)
        ensures
            final(self).wf() == old(self).wf(),
            final(self)@ == old(self)@.queued(seq![action@]),
    {
        self.queue.push(action);
        assert(actions_view(self.queue@) =~= actions_view(old(self).queue@) + seq![action@]);
    }

    /// Puts an action that may be missing at the end of the queue.
    fn enqueue(&mut self, reply: Option<Action>)
        ensures
            final(self).wf() == old(self).wf(),
            final(self)@ == old(self)@.queued(optional(reply_view(reply))),
    {
        match reply {
            Some(action) => self.dispatch(action),
            None => {
                assert(self@.queue =~= self@.queue + Seq::<ActionView>::empty());
            },
        }
    }

    /// Hands a key to every screen, and queues what the screens answer.
    ///
    /// A key that the list's filter line takes edits the line, and the list is
    /// filtered anew by what the line then holds.
    pub fn handle_key_event(&mut self, key: KeyEvent)
        requires
            old(self).wf(),
        ensures
            final(self).wf(),
            final(self)@.mode == old(self)@.mode,
            final(self)@.should_quit == old(self)@.should_quit,
            final(self)@.home == old(self)@.home.keyed(key),
            final(self)@.details == old(self)@.details.keyed(key),
            final(self)@.popup == old(self)@.popup.keyed(key),
            old(self)@.list.edits(key) ==> final(self)@.list == (ListView {
                typed: final(self)@.list.typed,
                cursor: final(self)@.list.cursor,
                engine: old(self)@.list.engine.filtered(final(self)@.list.typed),
                ..old(self)@.list
            }),
            old(self)@.list.inserts(key) ==> final(self)@.list.typed == old(self)@.list.typed_with(
                key.code->Char_0,
            ) && final(self)@.list.cursor == old(self)@.list.cursor + 1,
            !old(self)@.list.edits(key) ==> final(self)@.list == old(self)@.list.keyed(key),
            final(self)@.queue == old(self)@.queue + old(self)@.replies(key),
            old(self)@.coherent() ==> final(self)@.coherent(),
    {
        let from_home = self.home.handle_key_event(key);
        self.enqueue(from_home);
        let from_list = self.list.handle_key_event(key);
        self.enqueue(from_list);
        let from_details = self.details.handle_key_event(key);
        self.enqueue(from_details);
        let from_popup = self.popup.handle_key_event(key);
        self.enqueue(from_popup);
        assert(self@.queue =~= old(self)@.queue + old(self)@.replies(key));
    }

    /// Takes the oldest waiting action off the queue, hands it to every
    /// screen, and gives it back so that the terminal can act on it: draw on
    /// `Render`, fetch the records on `AssignmentType`, fetch the details on
    /// `Assignment`, fetch the files on `StartDownload`. With no action
    /// waiting nothing happens and nothing is given back.
    pub fn step(&mut self) -> (done: Option<Action>)
        requires
            old(self).wf(),
        ensures
            final(self).wf(),
            final(self)@ == old(self)@.stepped(),
            reply_view(done) == (if old(self)@.queue.len() > 0 {
                Some(old(self)@.queue[0])
            } else {
                None
            }),
            old(self)@.coherent() ==> final(self)@.coherent(),
    {
        if self.queue.len() == 0 {
            return None;
        }
        let action = self.queue.remove(0);
        assert(actions_view(self.queue@) =~= old(self)@.queue.drop_first());
        let _ = self.home.update(&action);
        let _ = self.list.update(&action);
        let _ = self.details.update(&action);
        let from_popup = self.popup.update(&action);
        match &action {
            Action::Mode(mode) => {
                self.mode = *mode;
            },
            Action::Quit => {
                self.should_quit = true;
            },
            _ => {},
        }
        self.enqueue(from_popup);
        Some(action)
    }

    /// Takes what the fetch of the chosen list brought. Records go to the
    /// list screen, and the change to that screen is queued. An error is
    /// queued as a message, and the mode stays as it is.
    pub fn records_fetched(&mut self, fetched: Result<Vec<Assignment>, RepositoryError>)
        requires
            old(self).wf(),
        ensures
            final(self).wf(),
            final(self)@ == (match fetched {
                Ok(records) => SessionView {
                    list: old(self)@.list.loaded(records_view(records@)),
                    ..old(self)@.queued(seq![ActionView::Mode(Mode::ListScreen)])
                },
                Err(error) => old(self)@.queued(seq![ActionView::Error(message_of(error))]),
            }),
    {
        match fetched {
            Ok(records) => {
                self.list.load(records);
                self.dispatch(Action::Mode(Mode::ListScreen));
            },
            Err(error) => {
                self.dispatch(Action::Error(error.message()));
            },
        }
    }

    /// Takes what the fetch of a record's details brought. The text, the
    /// attachments and the change to the details screen are queued, in this
    /// order. An error is queued as a message: the mode stays as it is and
    /// the details screen keeps the text that it has.
    pub fn details_fetched(&mut self, fetched: Result<RecordDetails, RepositoryError>)
        ensures
            final(self).wf() == old(self).wf(),
            final(self)@ == (match fetched {
                Ok(details) => old(self)@.queued(
                    seq![
                        ActionView::AssignmentDetails(Some(details.text@)),
                        ActionView::Attachments(attachments_view(details.attachments@)),
                        ActionView::Mode(Mode::CurrentAssignmentScreen),
                    ],
                ),
                Err(error) => old(self)@.queued(seq![ActionView::Error(message_of(error))]),
            }),
    {
        match fetched {
            Ok(details) => {
                let ghost before = self@.queue;
                self.dispatch(Action::AssignmentDetails(Some(details.text)));
                self.dispatch(Action::Attachments(details.attachments));
                self.dispatch(Action::Mode(Mode::CurrentAssignmentScreen));
                assert(self@.queue =~= before + seq![
                    ActionView::AssignmentDetails(Some(details.text@)),
                    ActionView::Attachments(attachments_view(details.attachments@)),
                    ActionView::Mode(Mode::CurrentAssignmentScreen),
                ]);
            },
            Err(error) => {
                self.dispatch(Action::Error(error.message()));
            },
        }
    }

    /// The screen that is shown.
    pub fn mode(&self) -> (mode: Mode)
        ensures
            mode == self@.mode,
    {
        self.mode
    }

    /// Whether the end of the session has been asked for.
    pub fn should_quit(&self) -> (quit: bool)
        ensures
            quit == self@.should_quit,
    {
        self.should_quit
    }

    /// How many actions wait to be handed to the screens.
    pub fn pending(&self) -> (waiting: usize)
        ensures
            waiting == self@.queue.len(),
    {
        self.queue.len()
    }

    /// The first screen.
    pub fn home(&self) -> (home: &Home)
        ensures
            home@ == self@.home,
    {
        &self.home
    }

    /// The list screen.
    pub fn list(&self) -> (list: &List)
        requires
            self.wf(),
        ensures
            list.wf(),
            list@ == self@.list,
    {
        &self.list
    }

    /// The details screen.
    pub fn details(&self) -> (details: &Details)
        ensures
            details@ == self@.details,
    {
        &self.details
    }

    /// The overlay of the details screen.
    pub fn popup(&self) -> (popup: &Popup)
        ensures
            popup@ == self@.popup,
    {
        &self.popup
    }

    /// Tells the list screen how many records its window shows.
    pub fn set_list_window(&mut self, size: usize)
        requires
            old(self).wf(),
        ensures
            final(self).wf(),
            final(self)@ == (SessionView {
                list: ListView {
                    engine: old(self)@.list.engine.resized(size as int),
                    ..old(self)@.list
                },
                ..old(self)@
            }),
    {
        self.list.set_window_size(size);
    }

    /// Tells the details screen how many lines its view shows.
    pub fn set_details_page(&mut self, page: u16)
        ensures
            final(self).wf() == old(self).wf(),
            final(self)@ == (SessionView {
                details: old(self)@.details.resized(page as int),
                ..old(self)@
            }),
    {
        self.details.set_page(page);
    }
}

} // verus!
