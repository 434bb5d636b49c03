//! The messages that the screens and the session loop exchange.

use crate::record::{attachments_view, Assignment, AssignmentType, Attachment, Record};
use vstd::prelude::*;

verus! {

/// Which screen is shown.
#[derive(Clone, Copy, Debug, PartialEq, Eq, Structural)]
pub enum Mode {
    /// The choice between circulars and homework.
    Home,
    /// The list of records.
    ListScreen,
    /// The details of one record.
    CurrentAssignmentScreen,
}

impl Default for Mode {
    fn default() -> (mode: Mode)
        ensures
            mode == Mode::Home,
    {
        Mode::Home
    }
}

/// An intent or an event, handed to every screen.
#[derive(Debug, PartialEq, Eq)]
pub enum Action {
    Tick,
    Render,
    Resize(u16, u16),
    Suspend,
    Resume,
    Quit,
    ClearScreen,
    Error(String),
    Help,
    Mode(Mode),
    AssignmentType(AssignmentType),
    AssignmentDetails(Option<String>),
    ToggleDownloadPopup,
    Attachments(Vec<Attachment>),
    Assignment(Assignment),
    StartDownload(Vec<Attachment>),
    FinishDownload,
}

/// An action as plain values.
pub enum ActionView {
    Tick,
    Render,
    Resize(u16, u16),
    Suspend,
    Resume,
    Quit,
    ClearScreen,
    Error(Seq<char>),
    Help,
    Mode(Mode),
    AssignmentType(AssignmentType),
    AssignmentDetails(Option<Seq<char>>),
    ToggleDownloadPopup,
    Attachments(Seq<(Seq<char>, Seq<char>)>),
    Assignment(Record),
    StartDownload(Seq<(Seq<char>, Seq<char>)>),
    FinishDownload,
}

impl View for Action {
    type V = ActionView;

    open spec fn view(&self) -> ActionView {
        match *self {
            Action::Tick => ActionView::Tick,
            Action::Render => ActionView::Render,
            Action::Resize(w, h) => ActionView::Resize(w, h),
            Action::Suspend => ActionView::Suspend,
            Action::Resume => ActionView::Resume,
            Action::Quit => ActionView::Quit,
            Action::ClearScreen => ActionView::ClearScreen,
            Action::Error(message) => ActionView::Error(message@),
            Action::Help => ActionView::Help,
            Action::Mode(mode) => ActionView::Mode(mode),
            Action::AssignmentType(kind) => ActionView::AssignmentType(kind),
            Action::AssignmentDetails(text) => ActionView::AssignmentDetails(
                match text {
                    Some(t) => Some(t@),
                    None => None,
                },
            ),
            Action::ToggleDownloadPopup => ActionView::ToggleDownloadPopup,
            Action::Attachments(items) => ActionView::Attachments(attachments_view(items@)),
            Action::Assignment(a) => ActionView::Assignment(a@),
            Action::StartDownload(items) => ActionView::StartDownload(attachments_view(items@)),
            Action::FinishDownload => ActionView::FinishDownload,
        }
    }
}

/// The views of a sequence of actions.
pub open spec fn actions_view(actions: Seq<Action>) -> Seq<ActionView> {
    actions.map_values(|a: Action| a@)
}

/// The view of an action that may be missing.
pub open spec fn reply_view(reply: Option<Action>) -> Option<ActionView> {
    match reply {
        Some(a) => Some(a@),
        None => None,
    }
}

/// Copies a list of attachments.
pub fn clone_attachments(items: &Vec<Attachment>) -> (out: Vec<Attachment>)
    ensures
        attachments_view(out@) == attachments_view(items@),
{
    let mut out: Vec<Attachment> = Vec::new();
    let mut i: usize = 0;
    while i < items.len()
        invariant
            i <= items.len(),
            out.len() == i,
            forall|j: int| 0 <= j < i ==> (#[trigger] out@[j])@ == items@[j]@,
        decreases items.len() - i,
    {
        out.push(items[i].clone());
        i += 1;
    }
    assert(attachments_view(out@) =~= attachments_view(items@));
    out
}

impl Clone for Action {
    fn clone(&self) -> (out: Self)
        ensures
            out@ == self@,
    {
        match self {
            Action::Tick => Action::Tick,
            Action::Render => Action::Render,
            Action::Resize(w, h) => Action::Resize(*w, *h),
            Action::Suspend => Action::Suspend,
            Action::Resume => Action::Resume,
            Action::Quit => Action::Quit,
            Action::ClearScreen => Action::ClearScreen,
            Action::Error(message) => Action::Error(message.clone()),
            Action::Help => Action::Help,
            Action::Mode(mode) => Action::Mode(*mode),
            Action::AssignmentType(kind) => Action::AssignmentType(*kind),
            Action::AssignmentDetails(text) => Action::AssignmentDetails(
                match text {
                    Some(t) => Some(t.clone()),
                    None => None,
                },
            ),
            Action::ToggleDownloadPopup => Action::ToggleDownloadPopup,
            Action::Attachments(items) => Action::Attachments(clone_attachments(items)),
            Action::Assignment(a) => Action::Assignment(a.clone()),
            Action::StartDownload(items) => Action::StartDownload(clone_attachments(items)),
            Action::FinishDownload => Action::FinishDownload,
        }
    }
}

} // verus!
