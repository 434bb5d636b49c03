//! The overlay on the details screen in which attachments are picked for
//! download.

use crate::action::{reply_view, Action, ActionView, Mode};
use crate::components::selection::{cursor_after, cursor_drawn, nav, nav_of, ListState, Nav};
use crate::key::{KeyCode, KeyEvent};
use crate::record::Attachment;
use vstd::prelude::*;
use vstd::string::StringExecFns;

verus! {

/// One attachment with its mark: whether it is picked for download.
#[derive(Debug, PartialEq, Eq)]
pub struct AttachmentListItem {
    attachment: Attachment,
    selected: bool,
}

/// An attachment as plain values, with its mark.
pub type ItemView = ((Seq<char>, Seq<char>), bool);

impl View for AttachmentListItem {
    type V = ItemView;

    closed spec fn view(&self) -> ItemView {
        (self.attachment@, self.selected)
    }
}

/// What the line of an attachment shows: its mark, two spaces, its name.
pub open spec fn line_of(item: ItemView) -> Seq<char> {
    (if item.1 {
        "[x]"@
    } else {
        "[ ]"@
    }) + "  "@ + item.0.0
}

impl AttachmentListItem {
    /// An attachment that is not picked.
    pub fn new(attachment: Attachment) -> (item: Self)
        ensures
            item@ == (attachment@, false),
    {
        Self { attachment, selected: false }
    }

    /// The line that the overlay shows for the attachment.
    pub fn format(&self) -> (line: String)
        ensures
            line@ == line_of(self@),
    {
        let mut line = if self.selected {
            String::from_str("[x]")
        } else {
            String::from_str("[ ]")
        };
        line.append("  ");
        line.append(self.attachment.name.as_str());
        line
    }

    /// Whether the attachment is picked.
    pub fn selected(&self) -> (selected: bool)
        ensures
            selected == self@.1,
    {
        self.selected
    }

    /// The attachment.
    pub fn attachment(&self) -> (attachment: &Attachment)
        ensures
            attachment@ == self@.0,
    {
        &self.attachment
    }
}

/// The views of a sequence of items.
pub open spec fn items_view(items: Seq<AttachmentListItem>) -> Seq<ItemView> {
    items.map_values(|item: AttachmentListItem| item@)
}

/// Whether an item is picked.
pub open spec fn is_picked() -> spec_fn(ItemView) -> bool {
    |item: ItemView| item.1
}

/// The attachment of an item.
pub open spec fn attachment_of() -> spec_fn(ItemView) -> (Seq<char>, Seq<char>) {
    |item: ItemView| item.0
}

/// The attachments of `items` that are picked, in their order.
pub open spec fn picked(items: Seq<ItemView>) -> Seq<(Seq<char>, Seq<char>)> {
    items.filter(is_picked()).map_values(attachment_of())
}

/// `items` with the mark of the item at `at` turned over.
pub open spec fn toggled(items: Seq<ItemView>, at: int) -> Seq<ItemView> {
    if 0 <= at < items.len() {
        items.update(at, (items[at].0, !items[at].1))
    } else {
        items
    }
}

/// All of `attachments`, none of them picked.
pub open spec fn unpicked(attachments: Seq<(Seq<char>, Seq<char>)>) -> Seq<ItemView> {
    attachments.map_values(|a: (Seq<char>, Seq<char>)| (a, false))
}

/// The attachments with their marks, and the cursor.
#[derive(Debug)]
pub struct AttachmentList {
    list_items: Vec<AttachmentListItem>,
    state: ListState,
}

impl AttachmentList {
    /// The attachments with their marks.
    pub closed spec fn items(&self) -> Seq<ItemView> {
        items_view(self.list_items@)
    }

    /// The place of the item that the cursor stands on.
    pub closed spec fn cursor(&self) -> Option<usize> {
        self.state.selected
    }

    /// A list of `attachments`, none of them picked, the cursor nowhere.
    pub fn from_iter(attachments: &Vec<Attachment>) -> (list: Self)
        ensures
            list.items() == unpicked(crate::record::attachments_view(attachments@)),
            list.cursor() == None::<usize>,
    {
        let mut list_items: Vec<AttachmentListItem> = Vec::new();
        let mut i: usize = 0;
        while i < attachments.len()
            invariant
                i <= attachments.len(),
                list_items.len() == i,
                forall|j: int| 0 <= j < i ==> (#[trigger] list_items@[j])@ == (attachments@[j]@, false),
            decreases attachments.len() - i,
        {
            list_items.push(AttachmentListItem::new(attachments[i].clone()));
            i += 1;
        }
        assert(items_view(list_items@) =~= unpicked(
            crate::record::attachments_view(attachments@),
        ));
        Self { list_items, state: ListState::new() }
    }

    /// Moves the cursor.
    fn go(&mut self, nav: Nav)
        ensures
            final(self).items() == old(self).items(),
            final(self).cursor() == cursor_after(old(self).cursor(), nav),
    {
        self.state.go(nav);
    }

    /// Brings the cursor onto the list, as drawing the list does.
    pub fn settle(&mut self)
        ensures
            final(self).items() == old(self).items(),
            final(self).cursor() == cursor_drawn(old(self).cursor(), old(self).items().len()),
    {
        self.state.settle(self.list_items.len());
    }

    /// The attachment at `at` with its mark.
    pub fn item(&self, at: usize) -> (item: Option<&AttachmentListItem>)
        ensures
            match item {
                Some(found) => at < self.items().len() && found@ == self.items()[at as int],
                None => at >= self.items().len(),
            },
    {
        if at < self.list_items.len() {
            Some(&self.list_items[at])
        } else {
            None
        }
    }

    /// How many attachments there are.
    pub fn len(&self) -> (len: usize)
        ensures
            len == self.items().len(),
    {
        self.list_items.len()
    }

    /// Takes the cursor off the list.
    pub fn select_none(&mut self)
        ensures
            final(self).items() == old(self).items(),
            final(self).cursor() == cursor_after(old(self).cursor(), Nav::Clear),
    {
        self.go(Nav::Clear)
    }

    /// Moves the cursor one item down.
    pub fn select_next(&mut self)
        ensures
            final(self).items() == old(self).items(),
            final(self).cursor() == cursor_after(old(self).cursor(), Nav::Next),
    {
        self.go(Nav::Next)
    }

    /// Moves the cursor one item up.
    pub fn select_previous(&mut self)
        ensures
            final(self).items() == old(self).items(),
            final(self).cursor() == cursor_after(old(self).cursor(), Nav::Previous),
    {
        self.go(Nav::Previous)
    }

    /// Moves the cursor to the first item.
    pub fn select_first(&mut self)
        ensures
            final(self).items() == old(self).items(),
            final(self).cursor() == cursor_after(old(self).cursor(), Nav::First),
    {
        self.go(Nav::First)
    }

    /// Moves the cursor to the last item.
    pub fn select_last(&mut self)
        ensures
            final(self).items() == old(self).items(),
            final(self).cursor() == cursor_after(old(self).cursor(), Nav::Last),
    {
        self.go(Nav::Last)
    }

    /// Turns over the mark of the item under the cursor, and of no other.
    pub fn toggle(&mut self)
        ensures
            final(self).cursor() == old(self).cursor(),
            final(self).items() == (match old(self).cursor() {
                Some(at) => toggled(old(self).items(), at as int),
                None => old(self).items(),
            }),
    {
        match self.state.selected {
            Some(at) => {
                if at < self.list_items.len() {
                    let item = AttachmentListItem {
                        attachment: self.list_items[at].attachment.clone(),
                        selected: !self.list_items[at].selected,
                    };
                    self.list_items.set(at, item);
                    assert(items_view(self.list_items@) =~= toggled(
                        items_view(old(self).list_items@),
                        at as int,
                    ));
                }
            },
            None => {},
        }
    }

    /// The attachments that are picked, in their order.
    pub fn picked(&self) -> (out: Vec<Attachment>)
        ensures
            crate::record::attachments_view(out@) == picked(self.items()),
    {
        let ghost all = items_view(self.list_items@);
        let ghost marked = is_picked();
        let ghost name = attachment_of();
        let mut out: Vec<Attachment> = Vec::new();
        let mut i: usize = 0;
        proof {
            reveal(Seq::filter);
            assert(all.take(0).filter(marked) =~= Seq::<ItemView>::empty());
            assert(crate::record::attachments_view(out@) =~= all.take(0).filter(marked).map_values(
                name,
            ));
        }
        while i < self.list_items.len()
            invariant
                i <= self.list_items.len(),
                all == items_view(self.list_items@),
                marked == is_picked(),
                name == attachment_of(),
                crate::record::attachments_view(out@) == all.take(i as int).filter(
                    marked,
                ).map_values(name),
            decreases self.list_items.len() - i,
        {
            let item = &self.list_items[i];
            proof {
                let seen = all.take(i as int);
                assert(all.take(i + 1) =~= seen.push(all[i as int]));
                Seq::lemma_filter_push(seen, all[i as int], marked);
                assert(all[i as int] == item@);
                if item.selected {
                    let kept = seen.filter(marked);
                    assert(crate::record::attachments_view(out@.push(item.attachment))
                        =~= crate::record::attachments_view(out@).push(item.attachment@));
                    assert(kept.push(item@).map_values(name) =~= kept.map_values(name).push(
                        name(item@),
                    ));
                }
            }
            if item.selected {
                out.push(item.attachment.clone());
            }
            i += 1;
        }
        assert(all.take(self.list_items.len() as int) =~= all);
        out
    }

    /// The line of each attachment, and where the cursor stands.
    pub fn lines(&self) -> (out: (Vec<String>, Option<usize>))
        ensures
            out.0.len() == self.items().len(),
            forall|i: int| 0 <= i < out.0.len() ==> (#[trigger] out.0@[i])@ == line_of(self.items()[i]),
            out.1 == self.cursor(),
    {
        let mut lines: Vec<String> = Vec::new();
        let mut i: usize = 0;
        while i < self.list_items.len()
            invariant
                i <= self.list_items.len(),
                lines.len() == i,
                forall|j: int| 0 <= j < i ==> (#[trigger] lines@[j])@ == line_of(self.items()[j]),
            decreases self.list_items.len() - i,
        {
            lines.push(self.list_items[i].format());
            i += 1;
        }
        (lines, self.state.selected)
    }
}

/// The overlay as plain values.
pub struct PopupView {
    pub enabled: bool,
    /// Whether the overlay is open.
    pub visible: bool,
    pub items: Seq<ItemView>,
    pub cursor: Option<usize>,
}

impl PopupView {
    /// The overlay after an action: a change of mode says whether its screen
    /// is the one shown, a toggle opens or closes it, attachments that arrive
    /// take the place of the old ones, marks and cursor gone, and drawing an
    /// overlay that is open on its screen brings the cursor onto the list.
    pub open spec fn updated(self, action: ActionView) -> PopupView {
        match action {
            ActionView::Mode(mode) => PopupView {
                enabled: mode == Mode::CurrentAssignmentScreen,
                ..self
            },
            ActionView::ToggleDownloadPopup => PopupView { visible: !self.visible, ..self },
            ActionView::Render => if self.live() {
                PopupView { cursor: cursor_drawn(self.cursor, self.items.len()), ..self }
            } else {
                self
            },
            ActionView::Attachments(attachments) => PopupView {
                items: unpicked(attachments),
                cursor: None,
                ..self
            },
            _ => self,
        }
    }

    /// What the overlay answers to an action: when a download has finished,
    /// an open overlay asks to be closed.
    pub open spec fn update_reply(self, action: ActionView) -> Option<ActionView> {
        if action is FinishDownload && self.visible {
            Some(ActionView::ToggleDownloadPopup)
        } else {
            None
        }
    }

    /// Whether the overlay takes keys: its screen is shown and it is open.
    pub open spec fn live(self) -> bool {
        self.enabled && self.visible
    }

    /// The overlay after a key: the cursor moves, or Space turns over the mark
    /// under the cursor. An overlay that does not take keys ignores them.
    pub open spec fn keyed(self, key: KeyEvent) -> PopupView {
        if !self.live() {
            self
        } else {
            match nav_of(key.code) {
                Some(nav) => PopupView {
                    cursor: cursor_after(self.cursor, nav),
                    ..self
                },
                None => if key.code == KeyCode::Char(' ') {
                    match self.cursor {
                        Some(at) => PopupView { items: toggled(self.items, at as int), ..self },
                        None => self,
                    }
                } else {
                    self
                },
            }
        }
    }

    /// What the overlay answers to a key: `q` asks for the end of the session,
    /// Enter for the download of what is picked, Esc for the overlay to close.
    pub open spec fn reply(self, key: KeyEvent) -> Option<ActionView> {
        if !self.live() {
            None
        } else if key.code == KeyCode::Char('q') {
            Some(ActionView::Quit)
        } else if key.code == KeyCode::Enter {
            Some(ActionView::StartDownload(picked(self.items)))
        } else if key.code == KeyCode::Esc {
            Some(ActionView::ToggleDownloadPopup)
        } else {
            None
        }
    }
}

/// The overlay.
#[derive(Debug)]
pub struct Popup {
    enabled: bool,
    list: AttachmentList,
    visible: bool,
}

impl View for Popup {
    type V = PopupView;

    closed spec fn view(&self) -> PopupView {
        PopupView {
            enabled: self.enabled,
            visible: self.visible,
            items: self.list.items(),
            cursor: self.list.cursor(),
        }
    }
}

impl Popup {
    /// A closed overlay without attachments.
    pub fn new() -> (popup: Self)
        ensures
            popup@ == (PopupView {
                enabled: false,
                visible: false,
                items: Seq::empty(),
                cursor: None,
            }),
    {
        let none: Vec<Attachment> = Vec::new();
        let list = AttachmentList::from_iter(&none);
        assert(list.items() =~= Seq::<ItemView>::empty());
        Popup { enabled: false, list, visible: false }
    }

    /// Takes an action.
    pub fn update(&mut self, action: &Action) -> (reply: Option<Action>)
        ensures
            final(self)@ == old(self)@.updated(action@),
            reply_view(reply) == old(self)@.update_reply(action@),
    {
        match action {
            Action::Mode(mode) => {
                self.enabled = *mode == Mode::CurrentAssignmentScreen;
                None
            },
            Action::ToggleDownloadPopup => {
                self.visible = !self.visible;
                None
            },
            Action::Render => {
                if self.enabled && self.visible {
                    self.list.settle();
                }
                None
            },
            Action::Attachments(attachments) => {
                self.list = AttachmentList::from_iter(attachments);
                None
            },
            Action::FinishDownload => {
                if self.visible {
                    Some(Action::ToggleDownloadPopup)
                } else {
                    None
                }
            },
            _ => None,
        }
    }

    /// Takes a key.
    pub fn handle_key_event(&mut self, key: KeyEvent) -> (reply: Option<Action>)
        ensures
            final(self)@ == old(self)@.keyed(key),
            reply_view(reply) == old(self)@.reply(key),
    {
        if !self.enabled || !self.visible {
            return None;
        }
        match nav(key.code) {
            Some(nav) => {
                self.list.go(nav);
                return None;
            },
            None => {},
        }
        match key.code {
            KeyCode::Char(c) => {
                if c == 'q' {
                    Some(Action::Quit)
                } else if c == ' ' {
                    self.list.toggle();
                    None
                } else {
                    None
                }
            },
            KeyCode::Enter => Some(Action::StartDownload(self.list.picked())),
            KeyCode::Esc => Some(Action::ToggleDownloadPopup),
            _ => None,
        }
    }

    /// The mode in which the overlay's screen is shown.
    pub fn get_mode(&self) -> (mode: Mode)
        ensures
            mode == Mode::CurrentAssignmentScreen,
    {
        Mode::CurrentAssignmentScreen
    }

    /// Whether the overlay's screen is the one shown.
    pub fn enabled(&self) -> (enabled: bool)
        ensures
            enabled == self@.enabled,
    {
        self.enabled
    }

    /// Whether the overlay is open.
    pub fn visible(&self) -> (visible: bool)
        ensures
            visible == self@.visible,
    {
        self.visible
    }

    /// The attachments with their marks.
    pub fn list(&self) -> (list: &AttachmentList)
        ensures
            list.items() == self@.items,
            list.cursor() == self@.cursor,
    {
        &self.list
    }
}

} // verus!
